//! Capability records and the meet (greatest lower bound) over them.
//!
//! Every record is ordered leaf by leaf: a boolean capability is below another when it
//! implies it, and a tiered capability is below another when its tier is not higher
//! (with the detail record compared as well when both sit at the same detailed tier).
//! The meet keeps exactly what both sides support.

use vstd::prelude::*;

verus! {

/// Capabilities of a terminal emulator or similar program
#[derive(Debug, Clone, Copy, PartialEq, Eq, Structural)]
pub struct TermCap {
    /// Capabilities for styling text
    pub style: StyleCap,
    /// Capabilities for interacting with the cursor
    pub cursor: CursorCap,
    /// Capabilities for scrolling content on the screen
    pub scroll: ScrollCap,
}

/// Capabilities for styling text
#[derive(Debug, Clone, Copy, PartialEq, Eq, Structural)]
pub struct StyleCap {
    /// Reset all styling (`ESC[0m`)
    pub reset_all: bool,
    /// Text coloring capabilities
    pub set_color: ColorCap,
    /// Resetting foreground or background colors (`ESC[39m`, `ESC[49m`)
    pub unset_color: bool,
    /// Inverse (`ESC[7m`)
    pub set_inverse: bool,
    /// Resetting inversion (`ESC[27m`)
    pub unset_inverse: bool,
    /// Italics (`ESC[3m`)
    pub set_italics: bool,
    /// Resetting just italics (`ESC[23m`)
    pub unset_italics: bool,
    /// Bold text (`ESC[1m`)
    pub set_bold: bool,
    /// Faint text (`ESC[2m`)
    pub set_faint: bool,
    /// Resetting bold and faint (`ESC[22m`)
    pub unset_bold_faint: bool,
    /// Underlining capabilities
    pub set_underline: UnderlineCap,
    /// Resetting underline (`ESC[24m`)
    pub unset_underline: bool,
}

/// Capabilities for displaying colors, from least to most capable
#[derive(Debug, Clone, Copy, PartialEq, Eq, Structural)]
pub enum ColorCap {
    /// The terminal cannot display colors
    Unsupported,
    /// Only 4-bit colors, like `ESC[31m`
    Fixed4Bit,
    /// 8-bit colors (aka "256 color")
    Fixed8Bit,
    /// 8-bit colors and 24-bit RGB selection, in the forms given by the detail record
    Rgb(RgbCapSet),
}

/// The set of RGB color capabilities for a terminal
#[derive(Debug, Clone, Copy, PartialEq, Eq, Structural)]
pub struct RgbCapSet {
    /// Xterm-style RGB colors (`ESC[38:2:<I>:<R>:<G>:<B>m`)
    pub xterm: bool,
    /// Konsole-style RGB colors (`ESC[38;2;<R>;<G>;<B>m`)
    pub konsole: bool,
}

/// Capabilities for underlining text, from least to most capable
#[derive(Debug, Clone, Copy, PartialEq, Eq, Structural)]
pub enum UnderlineCap {
    /// The terminal cannot underline text
    Unsupported,
    /// Basic, un-styled underlining (`ESC[4m`)
    Basic,
    /// Underline styling beyond basic underlining, as given by the detail record
    Fancy(FancyUnderlineCap),
}

/// Capabilities for styling underlines
#[derive(Debug, Clone, Copy, PartialEq, Eq, Structural)]
pub struct FancyUnderlineCap {
    /// Double underline (`ESC[21m`)
    pub double: bool,
    /// Kitty-style underline shapes and colors (`ESC[4:<N>m`, `ESC[58;...m`)
    pub kitty: bool,
}

/// Capabilities for interacting with the cursor
#[derive(Debug, Clone, Copy, PartialEq, Eq, Structural)]
pub struct CursorCap {
    /// Basic directional cursor movement (`ESC[<N?>A` and friends)
    pub basic_movement: bool,
    /// Capabilities for setting the cursor's style
    pub set_style: CursorStyleCap,
    /// Saving and restoring the cursor position (`ESC[s`, `ESC[u`)
    pub save_and_restore: bool,
}

/// Capabilities for setting the cursor's style
#[derive(Debug, Clone, Copy, PartialEq, Eq, Structural)]
pub struct CursorStyleCap {
    /// VT520-style cursor styles (`ESC[<N?><SP>q`, `N` in `0..=4`)
    pub basic: bool,
    /// Xterm-extended cursor styles (`ESC[<N><SP>q`, `N` in `5..=6`)
    pub xterm_extended: bool,
}

/// Capabilities for scrolling the terminal
#[derive(Debug, Clone, Copy, PartialEq, Eq, Structural)]
pub struct ScrollCap {
    /// Basic scrolling (`ESC[<N?>S`, `ESC[<N?>^`)
    pub basic: bool,
    /// Setting a scroll region (`ESC[<Top?>;<Bot?>r`)
    pub set_region: bool,
}

/// A boolean capability is below another when it implies it
pub open spec fn flag_below(a: bool, b: bool) -> bool {
    a ==> b
}

impl RgbCapSet {
    /// The capabilities shared by both sets
    pub open spec fn meet(self, other: Self) -> Self {
        RgbCapSet { xterm: self.xterm && other.xterm, konsole: self.konsole && other.konsole }
    }

    /// Every flag of `self` is below the same flag of `other`
    pub open spec fn below(self, other: Self) -> bool {
        flag_below(self.xterm, other.xterm) && flag_below(self.konsole, other.konsole)
    }

    /// Produces the capabilities shared by `self` and `other`
    pub fn min(self, other: Self) -> (r: Self)
        ensures
            r == self.meet(other),
    {
        RgbCapSet { xterm: self.xterm && other.xterm, konsole: self.konsole && other.konsole }
    }
}

impl FancyUnderlineCap {
    /// The capabilities shared by both sets
    pub open spec fn meet(self, other: Self) -> Self {
        FancyUnderlineCap { double: self.double && other.double, kitty: self.kitty && other.kitty }
    }

    /// Every flag of `self` is below the same flag of `other`
    pub open spec fn below(self, other: Self) -> bool {
        flag_below(self.double, other.double) && flag_below(self.kitty, other.kitty)
    }

    /// Produces the capabilities shared by `self` and `other`
    pub fn min(self, other: Self) -> (r: Self)
        ensures
            r == self.meet(other),
    {
        FancyUnderlineCap { double: self.double && other.double, kitty: self.kitty && other.kitty }
    }
}

impl ColorCap {
    /// Position of the variant in `Unsupported < Fixed4Bit < Fixed8Bit < Rgb`
    pub open spec fn tier(self) -> nat {
        match self {
            ColorCap::Unsupported => 0,
            ColorCap::Fixed4Bit => 1,
            ColorCap::Fixed8Bit => 2,
            ColorCap::Rgb(_) => 3,
        }
    }

    /// The lesser tier; at the `Rgb` tier on both sides, the meet of the details
    pub open spec fn meet(self, other: Self) -> Self {
        match (self, other) {
            (ColorCap::Rgb(a), ColorCap::Rgb(b)) => ColorCap::Rgb(a.meet(b)),
            _ => if self.tier() <= other.tier() { self } else { other },
        }
    }

    /// The tier is not higher, and the details are below where both are `Rgb`
    pub open spec fn below(self, other: Self) -> bool {
        &&& self.tier() <= other.tier()
        &&& (self, other) matches (ColorCap::Rgb(a), ColorCap::Rgb(b)) ==> a.below(b)
    }

    /// Produces the color capability shared by `self` and `other`
    pub fn min(self, other: Self) -> (r: Self)
        ensures
            r == self.meet(other),
    {
        match (self, other) {
            (ColorCap::Unsupported, _) | (_, ColorCap::Unsupported) => ColorCap::Unsupported,
            (ColorCap::Fixed4Bit, _) | (_, ColorCap::Fixed4Bit) => ColorCap::Fixed4Bit,
            (ColorCap::Fixed8Bit, _) | (_, ColorCap::Fixed8Bit) => ColorCap::Fixed8Bit,
            (ColorCap::Rgb(this), ColorCap::Rgb(that)) => ColorCap::Rgb(this.min(that)),
        }
    }
}

impl UnderlineCap {
    /// Position of the variant in `Unsupported < Basic < Fancy`
    pub open spec fn tier(self) -> nat {
        match self {
            UnderlineCap::Unsupported => 0,
            UnderlineCap::Basic => 1,
            UnderlineCap::Fancy(_) => 2,
        }
    }

    /// The lesser tier; at the `Fancy` tier on both sides, the meet of the details
    pub open spec fn meet(self, other: Self) -> Self {
        match (self, other) {
            (UnderlineCap::Fancy(a), UnderlineCap::Fancy(b)) => UnderlineCap::Fancy(a.meet(b)),
            _ => if self.tier() <= other.tier() { self } else { other },
        }
    }

    /// The tier is not higher, and the details are below where both are `Fancy`
    pub open spec fn below(self, other: Self) -> bool {
        &&& self.tier() <= other.tier()
        &&& (self, other) matches (UnderlineCap::Fancy(a), UnderlineCap::Fancy(b)) ==> a.below(b)
    }

    /// Produces the underline capability shared by `self` and `other`
    pub fn min(self, other: Self) -> (r: Self)
        ensures
            r == self.meet(other),
    {
        match (self, other) {
            (UnderlineCap::Unsupported, _) | (_, UnderlineCap::Unsupported) => UnderlineCap::Unsupported,
            (UnderlineCap::Basic, _) | (_, UnderlineCap::Basic) => UnderlineCap::Basic,
            (UnderlineCap::Fancy(this), UnderlineCap::Fancy(that)) => {
                UnderlineCap::Fancy(this.min(that))
            },
        }
    }
}

impl StyleCap {
    /// Field-wise meet
    pub open spec fn meet(self, other: Self) -> Self {
        StyleCap {
            reset_all: self.reset_all && other.reset_all,
            set_color: self.set_color.meet(other.set_color),
            unset_color: self.unset_color && other.unset_color,
            set_inverse: self.set_inverse && other.set_inverse,
            unset_inverse: self.unset_inverse && other.unset_inverse,
            set_italics: self.set_italics && other.set_italics,
            unset_italics: self.unset_italics && other.unset_italics,
            set_bold: self.set_bold && other.set_bold,
            set_faint: self.set_faint && other.set_faint,
            unset_bold_faint: self.unset_bold_faint && other.unset_bold_faint,
            set_underline: self.set_underline.meet(other.set_underline),
            unset_underline: self.unset_underline && other.unset_underline,
        }
    }

    /// Field-wise order
    pub open spec fn below(self, other: Self) -> bool {
        &&& flag_below(self.reset_all, other.reset_all)
        &&& self.set_color.below(other.set_color)
        &&& flag_below(self.unset_color, other.unset_color)
        &&& flag_below(self.set_inverse, other.set_inverse)
        &&& flag_below(self.unset_inverse, other.unset_inverse)
        &&& flag_below(self.set_italics, other.set_italics)
        &&& flag_below(self.unset_italics, other.unset_italics)
        &&& flag_below(self.set_bold, other.set_bold)
        &&& flag_below(self.set_faint, other.set_faint)
        &&& flag_below(self.unset_bold_faint, other.unset_bold_faint)
        &&& self.set_underline.below(other.set_underline)
        &&& flag_below(self.unset_underline, other.unset_underline)
    }

    /// Produces the styling capabilities shared by `self` and `other`
    pub fn min(self, other: Self) -> (r: Self)
        ensures
            r == self.meet(other),
    {
        StyleCap {
            reset_all: self.reset_all && other.reset_all,
            set_color: self.set_color.min(other.set_color),
            unset_color: self.unset_color && other.unset_color,
            set_inverse: self.set_inverse && other.set_inverse,
            unset_inverse: self.unset_inverse && other.unset_inverse,
            set_italics: self.set_italics && other.set_italics,
            unset_italics: self.unset_italics && other.unset_italics,
            set_bold: self.set_bold && other.set_bold,
            set_faint: self.set_faint && other.set_faint,
            unset_bold_faint: self.unset_bold_faint && other.unset_bold_faint,
            set_underline: self.set_underline.min(other.set_underline),
            unset_underline: self.unset_underline && other.unset_underline,
        }
    }
}

impl CursorStyleCap {
    /// Field-wise meet
    pub open spec fn meet(self, other: Self) -> Self {
        CursorStyleCap {
            basic: self.basic && other.basic,
            xterm_extended: self.xterm_extended && other.xterm_extended,
        }
    }

    /// Field-wise order
    pub open spec fn below(self, other: Self) -> bool {
        flag_below(self.basic, other.basic) && flag_below(self.xterm_extended, other.xterm_extended)
    }

    /// Produces the cursor style capabilities shared by `self` and `other`
    pub fn min(self, other: Self) -> (r: Self)
        ensures
            r == self.meet(other),
    {
        CursorStyleCap {
            basic: self.basic && other.basic,
            xterm_extended: self.xterm_extended && other.xterm_extended,
        }
    }
}

impl CursorCap {
    /// Field-wise meet
    pub open spec fn meet(self, other: Self) -> Self {
        CursorCap {
            basic_movement: self.basic_movement && other.basic_movement,
            set_style: self.set_style.meet(other.set_style),
            save_and_restore: self.save_and_restore && other.save_and_restore,
        }
    }

    /// Field-wise order
    pub open spec fn below(self, other: Self) -> bool {
        &&& flag_below(self.basic_movement, other.basic_movement)
        &&& self.set_style.below(other.set_style)
        &&& flag_below(self.save_and_restore, other.save_and_restore)
    }

    /// Produces the cursor capabilities shared by `self` and `other`
    pub fn min(self, other: Self) -> (r: Self)
        ensures
            r == self.meet(other),
    {
        CursorCap {
            basic_movement: self.basic_movement && other.basic_movement,
            set_style: self.set_style.min(other.set_style),
            save_and_restore: self.save_and_restore && other.save_and_restore,
        }
    }
}

impl ScrollCap {
    /// Field-wise meet
    pub open spec fn meet(self, other: Self) -> Self {
        ScrollCap {
            basic: self.basic && other.basic,
            set_region: self.set_region && other.set_region,
        }
    }

    /// Field-wise order
    pub open spec fn below(self, other: Self) -> bool {
        flag_below(self.basic, other.basic) && flag_below(self.set_region, other.set_region)
    }

    /// Produces the scrolling capabilities shared by `self` and `other`
    pub fn min(self, other: Self) -> (r: Self)
        ensures
            r == self.meet(other),
    {
        ScrollCap {
            basic: self.basic && other.basic,
            set_region: self.set_region && other.set_region,
        }
    }
}

impl TermCap {
    /// Field-wise meet
    pub open spec fn meet(self, other: Self) -> Self {
        TermCap {
            style: self.style.meet(other.style),
            cursor: self.cursor.meet(other.cursor),
            scroll: self.scroll.meet(other.scroll),
        }
    }

    /// Field-wise order: every leaf of `self` is below the same leaf of `other`
    pub open spec fn below(self, other: Self) -> bool {
        &&& self.style.below(other.style)
        &&& self.cursor.below(other.cursor)
        &&& self.scroll.below(other.scroll)
    }

    /// Produces the `TermCap` corresponding to the minimum shared set of capabilities
    pub fn min(self, other: Self) -> (r: Self)
        ensures
            r == self.meet(other),
    {
        TermCap {
            style: self.style.min(other.style),
            cursor: self.cursor.min(other.cursor),
            scroll: self.scroll.min(other.scroll),
        }
    }
}

/// The meet does not depend on the order of its operands
pub proof fn lemma_meet_commutative(x: TermCap, y: TermCap)
    ensures
        x.meet(y) == y.meet(x),
{
}

proof fn lemma_color_meet_associative(x: ColorCap, y: ColorCap, z: ColorCap)
    ensures
        x.meet(y).meet(z) == x.meet(y.meet(z)),
{
}

proof fn lemma_underline_meet_associative(x: UnderlineCap, y: UnderlineCap, z: UnderlineCap)
    ensures
        x.meet(y).meet(z) == x.meet(y.meet(z)),
{
}

/// Meeting three records gives the same result however the meets are nested
pub proof fn lemma_meet_associative(x: TermCap, y: TermCap, z: TermCap)
    ensures
        x.meet(y).meet(z) == x.meet(y.meet(z)),
{
    lemma_color_meet_associative(x.style.set_color, y.style.set_color, z.style.set_color);
    lemma_underline_meet_associative(
        x.style.set_underline,
        y.style.set_underline,
        z.style.set_underline,
    );
    assert(x.style.meet(y.style).meet(z.style) == x.style.meet(y.style.meet(z.style)));
    assert(x.cursor.meet(y.cursor).meet(z.cursor) == x.cursor.meet(y.cursor.meet(z.cursor)));
}

/// Meeting a record with itself gives it back
pub proof fn lemma_meet_idempotent(x: TermCap)
    ensures
        x.meet(x) == x,
{
}

/// Every leaf of the meet is below the same leaf of both operands
pub proof fn lemma_meet_lower_bound(x: TermCap, y: TermCap)
    ensures
        x.meet(y).below(x),
        x.meet(y).below(y),
{
}

proof fn lemma_color_below_transitive(a: ColorCap, b: ColorCap, c: ColorCap)
    requires
        a.below(b),
        b.below(c),
    ensures
        a.below(c),
{
}

proof fn lemma_underline_below_transitive(a: UnderlineCap, b: UnderlineCap, c: UnderlineCap)
    requires
        a.below(b),
        b.below(c),
    ensures
        a.below(c),
{
}

/// The leaf order is transitive
pub proof fn lemma_below_transitive(a: TermCap, b: TermCap, c: TermCap)
    requires
        a.below(b),
        b.below(c),
    ensures
        a.below(c),
{
    lemma_color_below_transitive(a.style.set_color, b.style.set_color, c.style.set_color);
    lemma_underline_below_transitive(
        a.style.set_underline,
        b.style.set_underline,
        c.style.set_underline,
    );
}

proof fn lemma_color_meet_greatest(c: ColorCap, x: ColorCap, y: ColorCap)
    requires
        c.below(x),
        c.below(y),
    ensures
        c.below(x.meet(y)),
{
}

proof fn lemma_underline_meet_greatest(c: UnderlineCap, x: UnderlineCap, y: UnderlineCap)
    requires
        c.below(x),
        c.below(y),
    ensures
        c.below(x.meet(y)),
{
}

/// A record below both operands is below their meet: the meet is the greatest lower bound
pub proof fn lemma_meet_greatest(c: TermCap, x: TermCap, y: TermCap)
    requires
        c.below(x),
        c.below(y),
    ensures
        c.below(x.meet(y)),
{
    lemma_color_meet_greatest(c.style.set_color, x.style.set_color, y.style.set_color);
    lemma_underline_meet_greatest(c.style.set_underline, x.style.set_underline, y.style.set_underline);
}

} // verus!
