use dymium_term::{Color, Style, UnderlineShape, UnderlineStyle};

#[test]
fn new_is_default() {
    let s = Style::new();
    assert_eq!(s, Style::default());
    assert_eq!(s.foreground, None);
    assert_eq!(s.background, None);
    assert!(!s.inverse && !s.bold && !s.faint && !s.italic && !s.strikethrough);
    assert_eq!(s.underline, None);
}

#[test]
fn builders_set_one_field() {
    let u = UnderlineStyle { color: Some(Color::Fixed(1)), style: UnderlineShape::Curly };
    let s = Style::new()
        .foreground(Some(Color::Rgb(1, 2, 3)))
        .background(Some(Color::Fixed(4)))
        .inverse(true)
        .bold(true)
        .faint(true)
        .italic(true)
        .underline(Some(u))
        .strikethrough(true);
    assert_eq!(s.foreground, Some(Color::Rgb(1, 2, 3)));
    assert_eq!(s.background, Some(Color::Fixed(4)));
    assert!(s.inverse && s.bold && s.faint && s.italic && s.strikethrough);
    assert_eq!(s.underline, Some(u));
    let t = s.bold(false).foreground(None);
    assert!(!t.bold);
    assert_eq!(t.foreground, None);
    assert!(t.italic);
}

#[test]
fn underline_defaults() {
    assert_eq!(UnderlineShape::default(), UnderlineShape::Straight);
    assert_eq!(UnderlineStyle::default(), UnderlineStyle { color: None, style: UnderlineShape::Straight });
}
