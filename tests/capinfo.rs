use dymium_term::capinfo::{
    is_valid_compact_name, ColorCap, CursorCap, CursorStyleCap, FancyUnderlineCap,
    LabelledTermCap, LoadTermCapsError, RgbCapSet, ScrollCap, StyleCap, TermCap, TermCapSet,
    TerminalName, UnderlineCap,
};

fn caps(color: ColorCap, underline: UnderlineCap, flag: bool) -> TermCap {
    TermCap {
        style: StyleCap {
            reset_all: true,
            set_color: color,
            unset_color: flag,
            set_inverse: true,
            unset_inverse: flag,
            set_italics: true,
            unset_italics: flag,
            set_bold: true,
            set_faint: flag,
            unset_bold_faint: true,
            set_underline: underline,
            unset_underline: flag,
        },
        cursor: CursorCap {
            basic_movement: true,
            set_style: CursorStyleCap { basic: true, xterm_extended: flag },
            save_and_restore: flag,
        },
        scroll: ScrollCap { basic: true, set_region: flag },
    }
}

fn full() -> TermCap {
    caps(
        ColorCap::Rgb(RgbCapSet { xterm: true, konsole: true }),
        UnderlineCap::Fancy(FancyUnderlineCap { double: true, kitty: true }),
        true,
    )
}

fn term(compact: &str, term: &str, caps: TermCap) -> LabelledTermCap {
    LabelledTermCap {
        name: TerminalName {
            compact: compact.to_string(),
            pretty: format!("The {compact} terminal"),
            term: term.to_string(),
        },
        caps,
    }
}

fn duplicate_message(ids: &[&str]) -> String {
    let list = ids.iter().map(|id| term(id, "xterm", full())).collect::<Vec<_>>();
    match TermCapSet::from_terminals(list) {
        Err(LoadTermCapsError::DuplicateNames(m)) => m,
        Err(e) => panic!("unexpected error {e:?}"),
        Ok(_) => panic!("duplicates were not reported"),
    }
}

#[test]
fn compact_name_validation() {
    assert!(is_valid_compact_name("xterm-256color"));
    assert!(is_valid_compact_name("foo_bar1"));
    assert!(is_valid_compact_name("A"));
    assert!(!is_valid_compact_name(""));
    assert!(!is_valid_compact_name("bad name!"));
    assert!(!is_valid_compact_name("tab\there"));
    assert!(!is_valid_compact_name("ümlaut"));
}

#[test]
fn invalid_compact_name_is_schema_error() {
    let list = vec![term("good", "xterm", full()), term("bad name!", "xterm", full())];
    assert!(matches!(TermCapSet::from_terminals(list), Err(LoadTermCapsError::Yaml(_))));
    // the name check runs before duplicate detection
    let list = vec![term("a", "xterm", full()), term("a", "xterm", full()), term("", "x", full())];
    assert!(matches!(TermCapSet::from_terminals(list), Err(LoadTermCapsError::Yaml(_))));
}

#[test]
fn one_duplicate() {
    assert_eq!(duplicate_message(&["a", "b", "a"]), "Duplicated terminal name: a");
}

#[test]
fn duplicates_listed_once_each() {
    assert_eq!(duplicate_message(&["a", "a", "b", "b", "b", "c"]), "Duplicated terminal names: a, and b");
}

#[test]
fn three_duplicates() {
    assert_eq!(
        duplicate_message(&["c", "a", "a", "b", "c", "b", "d"]),
        "Duplicated terminal names: a, c, and b"
    );
    assert_eq!(duplicate_message(&["a", "b", "c", "a", "b", "c"]), "Duplicated terminal names: a, b, and c");
}

#[test]
fn meet_laws_on_values() {
    let x = full();
    let y = caps(ColorCap::Fixed8Bit, UnderlineCap::Basic, true);
    let z = caps(
        ColorCap::Rgb(RgbCapSet { xterm: false, konsole: true }),
        UnderlineCap::Fancy(FancyUnderlineCap { double: true, kitty: false }),
        false,
    );
    assert_eq!(x.min(y), y.min(x));
    assert_eq!(x.min(y).min(z), x.min(y.min(z)));
    assert_eq!(x.min(x), x);
    assert_eq!(z.min(z), z);
    assert_eq!(x.min(z), z);
    let m = y.min(z);
    assert_eq!(m.style.set_color, ColorCap::Fixed8Bit);
    assert_eq!(m.style.set_underline, UnderlineCap::Basic);
    assert!(!m.style.unset_color);
    assert!(m.style.reset_all);
}

#[test]
fn color_meet_tiers() {
    let a = RgbCapSet { xterm: true, konsole: false };
    let b = RgbCapSet { xterm: true, konsole: true };
    assert_eq!(ColorCap::Rgb(a).min(ColorCap::Rgb(b)), ColorCap::Rgb(a));
    assert_eq!(ColorCap::Rgb(b).min(ColorCap::Fixed4Bit), ColorCap::Fixed4Bit);
    assert_eq!(ColorCap::Fixed8Bit.min(ColorCap::Unsupported), ColorCap::Unsupported);
    assert_eq!(ColorCap::Fixed8Bit.min(ColorCap::Rgb(b)), ColorCap::Fixed8Bit);
    let f = FancyUnderlineCap { double: false, kitty: true };
    let g = FancyUnderlineCap { double: true, kitty: true };
    assert_eq!(UnderlineCap::Fancy(f).min(UnderlineCap::Fancy(g)), UnderlineCap::Fancy(f));
    assert_eq!(UnderlineCap::Fancy(g).min(UnderlineCap::Basic), UnderlineCap::Basic);
    assert_eq!(UnderlineCap::Unsupported.min(UnderlineCap::Fancy(g)), UnderlineCap::Unsupported);
}

#[test]
fn uniform_group() {
    let c = caps(ColorCap::Fixed8Bit, UnderlineCap::Basic, false);
    let list = vec![term("gamma", "vt", c), term("alpha", "vt", c), term("beta", "vt", c)];
    let grouped = TermCapSet::from_terminals(list).unwrap().group_by_env_var();
    assert_eq!(grouped.env_vars(), vec!["vt"]);
    let group = grouped.get("vt").unwrap();
    assert_eq!(*group.min_caps(), c);
    let members: Vec<&str> = group.members().iter().map(|n| n.compact.as_str()).collect();
    assert_eq!(members, vec!["alpha", "beta", "gamma"]);
}

#[test]
fn grouping_by_term() {
    let rgb = full();
    let basic = caps(ColorCap::Fixed4Bit, UnderlineCap::Basic, true);
    let partial = caps(
        ColorCap::Rgb(RgbCapSet { xterm: false, konsole: true }),
        UnderlineCap::Fancy(FancyUnderlineCap { double: false, kitty: true }),
        false,
    );
    let list = vec![
        term("kitty", "xterm-kitty", rgb),
        term("gnome", "xterm-256color", rgb),
        term("konsole", "xterm-256color", partial),
        term("linux", "linux", basic),
        term("alacritty", "xterm-256color", rgb),
    ];
    let grouped = TermCapSet::from_terminals(list).unwrap().group_by_env_var();
    assert_eq!(grouped.env_vars(), vec!["linux", "xterm-256color", "xterm-kitty"]);
    let names: Vec<&str> = grouped.terminals().iter().map(|t| t.name.compact.as_str()).collect();
    assert_eq!(names, vec!["alacritty", "gnome", "kitty", "konsole", "linux"]);

    let shared = grouped.get("xterm-256color").unwrap();
    assert_eq!(*shared.min_caps(), rgb.min(partial));
    let members: Vec<&str> = shared.members().iter().map(|n| n.compact.as_str()).collect();
    assert_eq!(members, vec!["alacritty", "gnome", "konsole"]);

    assert_eq!(*grouped.get("linux").unwrap().min_caps(), basic);
    assert!(grouped.get("vt100").is_none());
    assert!(grouped.get("xterm").is_none());

    let kitty = grouped.get_by_name("kitty").unwrap();
    assert_eq!(kitty.name.term, "xterm-kitty");
    assert_eq!(kitty.name.pretty, "The kitty terminal");
    assert!(grouped.get_by_name("xterm").is_none());
}

#[test]
fn empty_catalog() {
    let grouped = TermCapSet::from_terminals(Vec::new()).unwrap().group_by_env_var();
    assert!(grouped.env_vars().is_empty());
    assert!(grouped.terminals().is_empty());
    assert!(grouped.get("xterm").is_none());
}
