//! Terminal colors and the textual color notation.
//!
//! A color is written as a hex literal (`#1a2b3c`), an 8-bit index (`@200`), a name from
//! one of the color tables (`css:red`, `vim:seagreen`), or one of the sixteen standard
//! names (`red`, `bright red`). Letters may be given in any case.

use vstd::prelude::*;
use vstd::utf8::is_ascii_chars;

use crate::order::same_text;
use crate::palette::{
    css_names, css_table, lemma_palettes_sorted, lookup_name, table_lookup, vim_names, vim_table,
};

verus! {

/// Representation of a color that can be displayed in the terminal
#[derive(Debug, Clone, Copy, PartialEq, Eq, Structural)]
pub enum Color {
    /// A 3-4-bit or 8-bit color: the first 16 values are the standard named colors
    Fixed(u8),
    /// A 24-bit color given by its red, green and blue channels
    Rgb(u8, u8, u8),
}

impl Color {
    /// Produces a `Color` with the fixed, 8-bit value
    pub fn fixed(value: u8) -> (r: Self)
        ensures
            r == Color::Fixed(value),
    {
        Color::Fixed(value)
    }

    /// Produces a `Color` where the red, green and blue channels are given explicitly
    pub fn rgb(red: u8, green: u8, blue: u8) -> (r: Self)
        ensures
            r == Color::Rgb(red, green, blue),
    {
        Color::Rgb(red, green, blue)
    }

    /// Produces the named color 'Black'
    pub fn black() -> (r: Self)
        ensures
            r == Color::Fixed(0),
    {
        Color::Fixed(0)
    }

    /// Produces the named color 'Red'
    pub fn red() -> (r: Self)
        ensures
            r == Color::Fixed(1),
    {
        Color::Fixed(1)
    }

    /// Produces the named color 'Green'
    pub fn green() -> (r: Self)
        ensures
            r == Color::Fixed(2),
    {
        Color::Fixed(2)
    }

    /// Produces the named color 'Yellow'
    pub fn yellow() -> (r: Self)
        ensures
            r == Color::Fixed(3),
    {
        Color::Fixed(3)
    }

    /// Produces the named color 'Blue'
    pub fn blue() -> (r: Self)
        ensures
            r == Color::Fixed(4),
    {
        Color::Fixed(4)
    }

    /// Produces the named color 'Magenta'
    pub fn magenta() -> (r: Self)
        ensures
            r == Color::Fixed(5),
    {
        Color::Fixed(5)
    }

    /// Produces the named color 'Cyan'
    pub fn cyan() -> (r: Self)
        ensures
            r == Color::Fixed(6),
    {
        Color::Fixed(6)
    }

    /// Produces the named color 'White'
    ///
    /// This is usually not `#FFFFFF`; that is more often [`bright_white`](Self::bright_white).
    pub fn white() -> (r: Self)
        ensures
            r == Color::Fixed(7),
    {
        Color::Fixed(7)
    }

    /// Produces the named color 'Bright Black'
    ///
    /// This color really is gray; [`gray`](Self::gray) gives the same value.
    pub fn bright_black() -> (r: Self)
        ensures
            r == Color::Fixed(8),
    {
        Color::Fixed(8)
    }

    /// Produces the named color 'Gray'
    ///
    /// The same value as [`bright_black`](Self::bright_black), under a less confusing name.
    pub fn gray() -> (r: Self)
        ensures
            r == Color::Fixed(8),
    {
        Color::Fixed(8)
    }

    /// Produces the named color 'Bright Red'
    pub fn bright_red() -> (r: Self)
        ensures
            r == Color::Fixed(9),
    {
        Color::Fixed(9)
    }

    /// Produces the named color 'Bright Green'
    pub fn bright_green() -> (r: Self)
        ensures
            r == Color::Fixed(10),
    {
        Color::Fixed(10)
    }

    /// Produces the named color 'Bright Yellow'
    pub fn bright_yellow() -> (r: Self)
        ensures
            r == Color::Fixed(11),
    {
        Color::Fixed(11)
    }

    /// Produces the named color 'Bright Blue'
    pub fn bright_blue() -> (r: Self)
        ensures
            r == Color::Fixed(12),
    {
        Color::Fixed(12)
    }

    /// Produces the named color 'Bright Magenta'
    pub fn bright_magenta() -> (r: Self)
        ensures
            r == Color::Fixed(13),
    {
        Color::Fixed(13)
    }

    /// Produces the named color 'Bright Cyan'
    pub fn bright_cyan() -> (r: Self)
        ensures
            r == Color::Fixed(14),
    {
        Color::Fixed(14)
    }

    /// Produces the named color 'Bright White'
    pub fn bright_white() -> (r: Self)
        ensures
            r == Color::Fixed(15),
    {
        Color::Fixed(15)
    }
}

/// Error resulting from failing to parse a [`Color`]
#[derive(Debug, Clone, PartialEq, Eq)]
pub enum ColorParseError {
    /// The provided string was not ASCII
    MustBeAscii,
    /// A hex literal had non-hex characters
    HexLiteralNotHex,
    /// A hex literal had other than six digits (three-digit shorthand is not accepted)
    HexLiteralBadLength,
    /// An 8-bit color number was expected, but it was malformed or above 255
    Invalid8BitNum,
    /// A color namespace that is not recognized was used (only `css` and `vim` are)
    UnrecognizedNamespace(String),
    /// The color name was not found in the selected namespace
    NotFoundInNamespace {
        /// The namespace: `css` or `vim`
        namespace: &'static str,
        /// The (lower-cased) name that was not found
        name: String,
    },
    /// The text is not close enough to any accepted form to say more
    GeneralFailure,
}

/// What a [`ColorParseError`] says, with its text as character sequences
pub enum ColorFailure {
    /// See [`ColorParseError::MustBeAscii`]
    MustBeAscii,
    /// See [`ColorParseError::HexLiteralNotHex`]
    HexLiteralNotHex,
    /// See [`ColorParseError::HexLiteralBadLength`]
    HexLiteralBadLength,
    /// See [`ColorParseError::Invalid8BitNum`]
    Invalid8BitNum,
    /// The namespace given before the first `:`
    UnrecognizedNamespace(Seq<char>),
    /// The namespace and the name that is not in its table
    NotFoundInNamespace(Seq<char>, Seq<char>),
    /// See [`ColorParseError::GeneralFailure`]
    GeneralFailure,
}

impl View for ColorParseError {
    type V = ColorFailure;

    open spec fn view(&self) -> ColorFailure {
        match self {
            ColorParseError::MustBeAscii => ColorFailure::MustBeAscii,
            ColorParseError::HexLiteralNotHex => ColorFailure::HexLiteralNotHex,
            ColorParseError::HexLiteralBadLength => ColorFailure::HexLiteralBadLength,
            ColorParseError::Invalid8BitNum => ColorFailure::Invalid8BitNum,
            ColorParseError::UnrecognizedNamespace(p) => ColorFailure::UnrecognizedNamespace(p@),
            ColorParseError::NotFoundInNamespace { namespace, name } => {
                ColorFailure::NotFoundInNamespace(namespace@, name@)
            },
            ColorParseError::GeneralFailure => ColorFailure::GeneralFailure,
        }
    }
}

/// The outcome of a parse, with the error given by its view
pub open spec fn outcome(r: Result<Color, ColorParseError>) -> Result<Color, ColorFailure> {
    match r {
        Ok(c) => Ok(c),
        Err(e) => Err(e@),
    }
}

/// ASCII lower-case fold of one character; other characters are left as they are
pub open spec fn lower_char(c: char) -> char {
    if 'A' <= c <= 'Z' {
        ((c as u32) + 32) as char
    } else {
        c
    }
}

/// ASCII lower-case fold of a character sequence
pub open spec fn ascii_lower(s: Seq<char>) -> Seq<char> {
    s.map_values(|c: char| lower_char(c))
}

/// A lower-case hexadecimal digit
pub open spec fn is_hex_digit(c: char) -> bool {
    ('0' <= c <= '9') || ('a' <= c <= 'f')
}

/// Value of a lower-case hexadecimal digit
pub open spec fn hex_value(c: char) -> int {
    if c <= '9' {
        c as int - '0' as int
    } else {
        c as int - 'a' as int + 10
    }
}

/// The byte written by the two hex digits at `i` and `i + 1`
pub open spec fn hex_byte(h: Seq<char>, i: int) -> u8 {
    (hex_value(h[i]) * 16 + hex_value(h[i + 1])) as u8
}

/// The digits after `#`: all hexadecimal, then exactly six of them
pub open spec fn hex_spec(h: Seq<char>) -> Result<Color, ColorFailure> {
    if !(forall|i: int| 0 <= i < h.len() ==> is_hex_digit(#[trigger] h[i])) {
        Err(ColorFailure::HexLiteralNotHex)
    } else if h.len() != 6 {
        Err(ColorFailure::HexLiteralBadLength)
    } else {
        Ok(Color::Rgb(hex_byte(h, 0), hex_byte(h, 2), hex_byte(h, 4)))
    }
}

/// A decimal digit
pub open spec fn is_digit(c: char) -> bool {
    '0' <= c <= '9'
}

/// Value of a sequence of decimal digits
pub open spec fn decimal_value(d: Seq<char>) -> nat
    decreases d.len(),
{
    if d.len() == 0 {
        0
    } else {
        decimal_value(d.drop_last()) * 10 + (d.last() as nat - '0' as nat) as nat
    }
}

/// The text after an optional leading `+`
pub open spec fn sign_dropped(t: Seq<char>) -> Seq<char> {
    if t.len() > 0 && t[0] == '+' {
        t.drop_first()
    } else {
        t
    }
}

/// An unsigned 8-bit number: an optional `+`, then one or more decimal digits whose value
/// is at most 255
pub open spec fn u8_spec(t: Seq<char>) -> Option<u8> {
    let d = sign_dropped(t);
    if d.len() > 0 && (forall|i: int| 0 <= i < d.len() ==> is_digit(#[trigger] d[i]))
        && decimal_value(d) <= 255 {
        Some(decimal_value(d) as u8)
    } else {
        None
    }
}

/// The sixteen standard color names and their indices
pub open spec fn standard_spec(l: Seq<char>) -> Option<u8> {
    if l == "black"@ {
        Some(0)
    } else if l == "red"@ {
        Some(1)
    } else if l == "green"@ {
        Some(2)
    } else if l == "yellow"@ {
        Some(3)
    } else if l == "blue"@ {
        Some(4)
    } else if l == "magenta"@ {
        Some(5)
    } else if l == "cyan"@ {
        Some(6)
    } else if l == "white"@ {
        Some(7)
    } else if l == "bright black"@ {
        Some(8)
    } else if l == "bright red"@ {
        Some(9)
    } else if l == "bright green"@ {
        Some(10)
    } else if l == "bright yellow"@ {
        Some(11)
    } else if l == "bright blue"@ {
        Some(12)
    } else if l == "bright magenta"@ {
        Some(13)
    } else if l == "bright cyan"@ {
        Some(14)
    } else if l == "bright white"@ {
        Some(15)
    } else {
        None
    }
}

/// `l` starts with `p`
pub open spec fn starts_with(l: Seq<char>, p: Seq<char>) -> bool {
    p.len() <= l.len() && l.take(p.len() as int) == p
}

/// Position of the first `:` in `l` (meaningful where `l` holds one)
pub open spec fn first_colon(l: Seq<char>) -> int {
    choose|k: int| 0 <= k < l.len() && l[k] == ':' && forall|j: int| 0 <= j < k ==> l[j] != ':'
}

/// Lookup of `name` in a color table of the namespace `ns`
pub open spec fn named_spec(
    t: Seq<crate::palette::CssName>,
    ns: Seq<char>,
    name: Seq<char>,
) -> Result<Color, ColorFailure> {
    match table_lookup(t, name) {
        Some(rgb) => Ok(Color::Rgb(rgb.0, rgb.1, rgb.2)),
        None => Err(ColorFailure::NotFoundInNamespace(ns, name)),
    }
}

/// What a lower-cased ASCII color notation denotes, by the first form that applies
pub open spec fn lowered_spec(l: Seq<char>) -> Result<Color, ColorFailure> {
    if l.len() > 0 && l[0] == '#' {
        hex_spec(l.drop_first())
    } else if l.len() > 0 && l[0] == '@' {
        match u8_spec(l.drop_first()) {
            Some(n) => Ok(Color::Fixed(n)),
            None => Err(ColorFailure::Invalid8BitNum),
        }
    } else if starts_with(l, "css:"@) {
        named_spec(css_table(), "css"@, l.skip(4))
    } else if starts_with(l, "vim:"@) {
        named_spec(vim_table(), "vim"@, l.skip(4))
    } else if standard_spec(l) is Some {
        Ok(Color::Fixed(standard_spec(l)->Some_0))
    } else if l.contains(':') {
        Err(ColorFailure::UnrecognizedNamespace(l.take(first_colon(l))))
    } else {
        Err(ColorFailure::GeneralFailure)
    }
}

/// What a color notation denotes: non-ASCII text is refused, the rest is lower-cased first
pub open spec fn parse_spec(s: Seq<char>) -> Result<Color, ColorFailure> {
    if !is_ascii_chars(s) {
        Err(ColorFailure::MustBeAscii)
    } else {
        lowered_spec(ascii_lower(s))
    }
}

/// Relies on `str::to_ascii_lowercase`: each ASCII upper-case letter becomes its
/// lower-case form, every other character is kept.
#[verifier::external_body]
fn to_ascii_lowercase(s: &str) -> (r: String)
    ensures
        r@ == ascii_lower(s@),
{
    s.to_ascii_lowercase()
}

/// Checks that `s` starts with `p`
fn has_prefix(s: &str, p: &str) -> (r: bool)
    ensures
        r == starts_with(s@, p@),
{
    let ls = s.unicode_len();
    let lp = p.unicode_len();
    if lp > ls {
        return false;
    }
    let mut i: usize = 0;
    while i < lp
        invariant
            i <= lp <= ls,
            ls == s@.len(),
            lp == p@.len(),
            forall|k: int| 0 <= k < i ==> s@[k] == p@[k],
        decreases lp - i,
    {
        if s.get_char(i) != p.get_char(i) {
            assert(s@.take(lp as int)[i as int] != p@[i as int]);
            return false;
        }
        i = i + 1;
    }
    assert(s@.take(lp as int) =~= p@);
    true
}

/// Finds the first `:` in `l`
fn find_colon(l: &str) -> (r: Option<usize>)
    ensures
        match r {
            Some(k) => l@.contains(':') && k == first_colon(l@) && k < l@.len(),
            None => !l@.contains(':'),
        },
{
    let n = l.unicode_len();
    let mut i: usize = 0;
    while i < n
        invariant
            i <= n,
            n == l@.len(),
            forall|j: int| 0 <= j < i ==> l@[j] != ':',
        decreases n - i,
    {
        if l.get_char(i) == ':' {
            proof {
                assert(l@[i as int] == ':');
                let k = first_colon(l@);
                assert(0 <= k < l@.len() && l@[k] == ':' && forall|j: int|
                    0 <= j < k ==> l@[j] != ':');
                if k > i {
                    assert(l@[i as int] != ':');
                }
            }
            return Some(i);
        }
        i = i + 1;
    }
    None
}

/// Value of a lower-case hexadecimal digit
fn hex_digit_value(c: char) -> (r: u8)
    requires
        is_hex_digit(c),
    ensures
        r as int == hex_value(c),
{
    if c <= '9' {
        (c as u32 - '0' as u32) as u8
    } else {
        (c as u32 - 'a' as u32 + 10) as u8
    }
}

/// The byte written by the two hex digits at `i` and `i + 1` of `h`
fn hex_pair(h: &str, i: usize) -> (r: u8)
    requires
        i <= 4,
        h@.len() == 6,
        is_hex_digit(h@[i as int]),
        is_hex_digit(h@[i + 1]),
    ensures
        r == hex_byte(h@, i as int),
{
    let hi = hex_digit_value(h.get_char(i));
    let lo = hex_digit_value(h.get_char(i + 1));
    hi * 16 + lo
}

/// Parses the digits of a hex color literal (the text after `#`)
fn parse_hex(h: &str) -> (r: Result<Color, ColorParseError>)
    ensures
        outcome(r) == hex_spec(h@),
{
    let n = h.unicode_len();
    let mut i: usize = 0;
    while i < n
        invariant
            i <= n,
            n == h@.len(),
            forall|j: int| 0 <= j < i ==> is_hex_digit(#[trigger] h@[j]),
        decreases n - i,
    {
        let c = h.get_char(i);
        if !(('0' <= c && c <= '9') || ('a' <= c && c <= 'f')) {
            assert(!is_hex_digit(h@[i as int]));
            return Err(ColorParseError::HexLiteralNotHex);
        }
        i = i + 1;
    }
    if n != 6 {
        return Err(ColorParseError::HexLiteralBadLength);
    }
    Ok(Color::Rgb(hex_pair(h, 0), hex_pair(h, 2), hex_pair(h, 4)))
}

proof fn lemma_decimal_prefix(d: Seq<char>, i: int)
    requires
        0 <= i < d.len(),
    ensures
        decimal_value(d.take(i + 1)) == decimal_value(d.take(i)) * 10 + (d[i] as nat - '0' as nat) as nat,
{
    assert(d.take(i + 1).drop_last() =~= d.take(i));
}

proof fn lemma_decimal_grows(d: Seq<char>, i: int)
    requires
        0 <= i <= d.len(),
        forall|k: int| 0 <= k < d.len() ==> is_digit(#[trigger] d[k]),
    ensures
        decimal_value(d.take(i)) <= decimal_value(d),
    decreases d.len() - i,
{
    if i < d.len() {
        lemma_decimal_prefix(d, i);
        lemma_decimal_grows(d, i + 1);
    } else {
        assert(d.take(i) =~= d);
    }
}

/// Parses an unsigned 8-bit decimal number: an optional `+`, then digits
fn parse_u8(t: &str) -> (r: Option<u8>)
    ensures
        r == u8_spec(t@),
{
    let n = t.unicode_len();
    let start: usize = if n > 0 && t.get_char(0) == '+' { 1 } else { 0 };
    let ghost d = sign_dropped(t@);
    assert(d =~= t@.skip(start as int));
    if start == n {
        return None;
    }
    let mut value: u32 = 0;
    let mut i: usize = start;
    while i < n
        invariant
            start <= i <= n,
            n == t@.len(),
            d == sign_dropped(t@),
            d =~= t@.skip(start as int),
            value <= 255,
            value == decimal_value(d.take(i - start)),
            forall|k: int| 0 <= k < i - start ==> is_digit(#[trigger] d[k]),
        decreases n - i,
    {
        let c = t.get_char(i);
        if !('0' <= c && c <= '9') {
            assert(!is_digit(d[i - start]));
            return None;
        }
        proof {
            lemma_decimal_prefix(d, i - start);
        }
        value = value * 10 + (c as u32 - '0' as u32);
        if value > 255 {
            proof {
                if forall|k: int| 0 <= k < d.len() ==> is_digit(#[trigger] d[k]) {
                    lemma_decimal_grows(d, i - start + 1);
                }
            }
            return None;
        }
        i = i + 1;
    }
    assert(d.take(n - start) =~= d);
    Some(value as u8)
}

/// Index of one of the sixteen standard color names
fn standard_index(l: &str) -> (r: Option<u8>)
    ensures
        r == standard_spec(l@),
{
    if same_text(l, "black") {
        Some(0)
    } else if same_text(l, "red") {
        Some(1)
    } else if same_text(l, "green") {
        Some(2)
    } else if same_text(l, "yellow") {
        Some(3)
    } else if same_text(l, "blue") {
        Some(4)
    } else if same_text(l, "magenta") {
        Some(5)
    } else if same_text(l, "cyan") {
        Some(6)
    } else if same_text(l, "white") {
        Some(7)
    } else if same_text(l, "bright black") {
        Some(8)
    } else if same_text(l, "bright red") {
        Some(9)
    } else if same_text(l, "bright green") {
        Some(10)
    } else if same_text(l, "bright yellow") {
        Some(11)
    } else if same_text(l, "bright blue") {
        Some(12)
    } else if same_text(l, "bright magenta") {
        Some(13)
    } else if same_text(l, "bright cyan") {
        Some(14)
    } else if same_text(l, "bright white") {
        Some(15)
    } else {
        None
    }
}

impl Color {
    /// Parses a textual color notation
    ///
    /// Non-ASCII text is refused; the rest is lower-cased, then read as the first of these
    /// forms that its start selects: `#` and six hex digits; `@` and a decimal number up to
    /// 255 (an optional `+` sign is accepted); `css:` or `vim:` and a name from that table;
    /// one of the sixteen standard names. Other text with a `:` names an unknown namespace.
    pub fn parse(s: &str) -> (r: Result<Color, ColorParseError>)
        ensures
            outcome(r) == parse_spec(s@),
    {
        if !s.is_ascii() {
            return Err(ColorParseError::MustBeAscii);
        }
        let lowered = to_ascii_lowercase(s);
        let l = lowered.as_str();
        let n = l.unicode_len();
        proof {
            reveal_strlit("css:");
            reveal_strlit("vim:");
            lemma_palettes_sorted();
        }
        if n > 0 && l.get_char(0) == '#' {
            parse_hex(l.substring_char(1, n))
        } else if n > 0 && l.get_char(0) == '@' {
            match parse_u8(l.substring_char(1, n)) {
                Some(v) => Ok(Color::Fixed(v)),
                None => Err(ColorParseError::Invalid8BitNum),
            }
        } else if has_prefix(l, "css:") {
            let name = l.substring_char(4, n);
            let table = css_names();
            match lookup_name(&table, name) {
                Some(rgb) => Ok(Color::Rgb(rgb.0, rgb.1, rgb.2)),
                None => Err(ColorParseError::NotFoundInNamespace { namespace: "css", name: name.to_owned() }),
            }
        } else if has_prefix(l, "vim:") {
            let name = l.substring_char(4, n);
            let table = vim_names();
            match lookup_name(&table, name) {
                Some(rgb) => Ok(Color::Rgb(rgb.0, rgb.1, rgb.2)),
                None => Err(ColorParseError::NotFoundInNamespace { namespace: "vim", name: name.to_owned() }),
            }
        } else {
            match standard_index(l) {
                Some(v) => Ok(Color::Fixed(v)),
                None => match find_colon(l) {
                    Some(k) => Err(ColorParseError::UnrecognizedNamespace(l.substring_char(0, k).to_owned())),
                    None => Err(ColorParseError::GeneralFailure),
                },
            }
        }
    }
}

impl core::str::FromStr for Color {
    type Err = ColorParseError;

    /// Parses a textual color notation, as [`Color::parse`] does
    fn from_str(s: &str) -> (r: Result<Color, ColorParseError>)
        ensures
            outcome(r) == parse_spec(s@),
    {
        Color::parse(s)
    }
}

} // verus!
