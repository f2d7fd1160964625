use std::str::FromStr;
use dymium_term::palette::{css_names, lookup_name};
use dymium_term::{Color, ColorParseError};

#[test]
fn hex_literal() {
    assert_eq!(Color::parse("#1A2B3C"), Ok(Color::Rgb(26, 43, 60)));
    assert_eq!(Color::parse("#bade1f"), Ok(Color::Rgb(0xba, 0xde, 0x1f)));
    assert_eq!(Color::parse("#FFFFFF"), Ok(Color::Rgb(255, 255, 255)));
}

#[test]
fn hex_literal_not_hex() {
    assert_eq!(Color::parse("#12G456"), Err(ColorParseError::HexLiteralNotHex));
    // the hex-digit check comes before the length check
    assert_eq!(Color::parse("#12G"), Err(ColorParseError::HexLiteralNotHex));
}

#[test]
fn hex_literal_bad_length() {
    assert_eq!(Color::parse("#1234"), Err(ColorParseError::HexLiteralBadLength));
    assert_eq!(Color::parse("#f3a"), Err(ColorParseError::HexLiteralBadLength));
    assert_eq!(Color::parse("#"), Err(ColorParseError::HexLiteralBadLength));
    assert_eq!(Color::parse("#1234567"), Err(ColorParseError::HexLiteralBadLength));
}

#[test]
fn indexed_color() {
    assert_eq!(Color::parse("@200"), Ok(Color::Fixed(200)));
    assert_eq!(Color::parse("@0"), Ok(Color::Fixed(0)));
    assert_eq!(Color::parse("@255"), Ok(Color::Fixed(255)));
    assert_eq!(Color::parse("@007"), Ok(Color::Fixed(7)));
    assert_eq!(Color::parse("@+12"), Ok(Color::Fixed(12)));
}

#[test]
fn indexed_color_invalid() {
    assert_eq!(Color::parse("@256"), Err(ColorParseError::Invalid8BitNum));
    assert_eq!(Color::parse("@"), Err(ColorParseError::Invalid8BitNum));
    assert_eq!(Color::parse("@+"), Err(ColorParseError::Invalid8BitNum));
    assert_eq!(Color::parse("@-1"), Err(ColorParseError::Invalid8BitNum));
    assert_eq!(Color::parse("@12a"), Err(ColorParseError::Invalid8BitNum));
    assert_eq!(Color::parse("@99999"), Err(ColorParseError::Invalid8BitNum));
}

#[test]
fn css_names_resolve() {
    assert_eq!(Color::parse("css:red"), Ok(Color::Rgb(255, 0, 0)));
    assert_eq!(Color::parse("CSS:AliceBlue"), Ok(Color::Rgb(240, 248, 255)));
    assert_eq!(Color::parse("css:yellowgreen"), Ok(Color::Rgb(154, 205, 50)));
    assert_eq!(Color::parse("css:darkslategrey"), Ok(Color::Rgb(47, 79, 79)));
}

#[test]
fn vim_names_resolve() {
    assert_eq!(Color::parse("vim:seagreen"), Ok(Color::Rgb(46, 139, 87)));
    assert_eq!(Color::parse("Vim:Black"), Ok(Color::Rgb(0, 0, 0)));
}

#[test]
fn name_not_found_in_namespace() {
    assert_eq!(
        Color::parse("css:Nope"),
        Err(ColorParseError::NotFoundInNamespace { namespace: "css", name: "nope".to_string() })
    );
    assert_eq!(
        Color::parse("vim:"),
        Err(ColorParseError::NotFoundInNamespace { namespace: "vim", name: String::new() })
    );
}

#[test]
fn standard_names() {
    assert_eq!(Color::parse("bright red"), Ok(Color::Fixed(9)));
    assert_eq!(Color::parse("BRIGHT White"), Ok(Color::Fixed(15)));
    assert_eq!(Color::parse("black"), Ok(Color::Fixed(0)));
    assert_eq!(Color::parse("White"), Ok(Color::Fixed(7)));
    assert_eq!(Color::parse("bright black"), Ok(Color::Fixed(8)));
    assert_eq!(Color::parse("bright  red"), Err(ColorParseError::GeneralFailure));
}

#[test]
fn unrecognized_namespace() {
    assert_eq!(Color::parse("xyz:foo"), Err(ColorParseError::UnrecognizedNamespace("xyz".to_string())));
    assert_eq!(Color::parse("Ab:c:d"), Err(ColorParseError::UnrecognizedNamespace("ab".to_string())));
    assert_eq!(Color::parse(":x"), Err(ColorParseError::UnrecognizedNamespace(String::new())));
}

#[test]
fn general_failure() {
    assert_eq!(Color::parse("not-a-color"), Err(ColorParseError::GeneralFailure));
    assert_eq!(Color::parse(""), Err(ColorParseError::GeneralFailure));
}

#[test]
fn non_ascii_rejected() {
    assert_eq!(Color::parse("rød"), Err(ColorParseError::MustBeAscii));
    assert_eq!(Color::parse("#12345é"), Err(ColorParseError::MustBeAscii));
}

#[test]
fn from_str_matches_parse() {
    let c: Color = "css:red".parse().unwrap();
    assert_eq!(c, Color::Rgb(255, 0, 0));
    assert!("#12G456".parse::<Color>().is_err());
}

#[test]
fn constructors() {
    assert_eq!(Color::fixed(42), Color::Fixed(42));
    assert_eq!(Color::rgb(1, 2, 3), Color::Rgb(1, 2, 3));
}

#[test]
fn table_lookup_by_name() {
    let table = css_names();
    assert_eq!(lookup_name(&table, "aliceblue"), Some((240, 248, 255)));
    assert_eq!(lookup_name(&table, "yellowgreen"), Some((154, 205, 50)));
    assert_eq!(lookup_name(&table, "aaa"), None);
    assert_eq!(lookup_name(&table, "zzz"), None);
    assert_eq!(lookup_name(&table, "Red"), None);
}

#[test]
fn named_constructors() {
    assert_eq!(Color::black(), Color::Fixed(0));
    assert_eq!(Color::red(), Color::Fixed(1));
    assert_eq!(Color::green(), Color::Fixed(2));
    assert_eq!(Color::yellow(), Color::Fixed(3));
    assert_eq!(Color::blue(), Color::Fixed(4));
    assert_eq!(Color::magenta(), Color::Fixed(5));
    assert_eq!(Color::cyan(), Color::Fixed(6));
    assert_eq!(Color::white(), Color::Fixed(7));
    assert_eq!(Color::bright_black(), Color::Fixed(8));
    assert_eq!(Color::gray(), Color::Fixed(8));
    assert_eq!(Color::bright_red(), Color::Fixed(9));
    assert_eq!(Color::bright_green(), Color::Fixed(10));
    assert_eq!(Color::bright_yellow(), Color::Fixed(11));
    assert_eq!(Color::bright_blue(), Color::Fixed(12));
    assert_eq!(Color::bright_magenta(), Color::Fixed(13));
    assert_eq!(Color::bright_cyan(), Color::Fixed(14));
    assert_eq!(Color::bright_white(), Color::Fixed(15));
}

#[test]
fn from_str_examples() {
    assert_eq!(Color::from_str("#1A2B3C"), Ok(Color::Rgb(26, 43, 60)));
    assert_eq!(Color::from_str("@200"), Ok(Color::Fixed(200)));
    assert_eq!(Color::from_str("css:red"), Ok(Color::Rgb(255, 0, 0)));
    assert_eq!(Color::from_str("bright red"), Ok(Color::Fixed(9)));
    assert_eq!(Color::from_str("xyz:foo"), Err(ColorParseError::UnrecognizedNamespace("xyz".to_string())));
    assert_eq!(Color::from_str("not-a-color"), Err(ColorParseError::GeneralFailure));
    assert_eq!(Color::from_str("#12G456"), Err(ColorParseError::HexLiteralNotHex));
    assert_eq!(Color::from_str("#1234"), Err(ColorParseError::HexLiteralBadLength));
    assert_eq!(Color::from_str("css:ré"), Err(ColorParseError::MustBeAscii));
}
