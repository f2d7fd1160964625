//! Named color tables: the CSS color keywords and Vim's color names.
//!
//! Each table is kept in strictly ascending order of name, which lets a lookup
//! binary-search it.

use vstd::prelude::*;

use crate::order::{compare_names, lemma_lex_irreflexive, lemma_lex_transitive, lex_lt_from, name_lt};

verus! {

/// An entry of a named color table: a lower-case name and its red, green and blue channels
#[derive(Debug, Clone, Copy)]
pub struct CssName {
    /// Name of the color, lower case, without spaces
    pub name: &'static str,
    /// Red, green and blue channels
    pub rgb: (u8, u8, u8),
}

/// Each name of the table comes strictly before the next one
pub open spec fn strictly_ascending(t: Seq<CssName>) -> bool {
    forall|i: int| 0 <= i < t.len() - 1 ==> name_lt(#[trigger] t[i].name@, t[i + 1].name@)
}

/// The channels stored under `name` in the table, if the name is there
pub open spec fn table_lookup(t: Seq<CssName>, name: Seq<char>) -> Option<(u8, u8, u8)> {
    if exists|i: int| 0 <= i < t.len() && #[trigger] t[i].name@ == name {
        Some(t[choose|i: int| 0 <= i < t.len() && #[trigger] t[i].name@ == name].rgb)
    } else {
        None
    }
}

/// In a strictly ascending table every name comes before every later one
pub proof fn lemma_ascending_pairwise(t: Seq<CssName>, i: int, j: int)
    requires
        strictly_ascending(t),
        0 <= i < j < t.len(),
    ensures
        name_lt(t[i].name@, t[j].name@),
    decreases j - i,
{
    if i + 1 < j {
        lemma_ascending_pairwise(t, i + 1, j);
        lemma_lex_transitive(t[i].name@, t[i + 1].name@, t[j].name@, 0);
    }
}

/// Binary-searches a strictly ascending table for `name`
pub fn lookup_name(table: &Vec<CssName>, name: &str) -> (r: Option<(u8, u8, u8)>)
    requires
        strictly_ascending(table@),
    ensures
        r == table_lookup(table@, name@),
{
    let mut lo: usize = 0;
    let mut hi: usize = table.len();
    while lo < hi
        invariant
            lo <= hi <= table@.len(),
            strictly_ascending(table@),
            forall|j: int| 0 <= j < lo ==> name_lt(#[trigger] table@[j].name@, name@),
            forall|j: int| hi <= j < table@.len() ==> name_lt(name@, #[trigger] table@[j].name@),
        decreases hi - lo,
    {
        let mid = lo + (hi - lo) / 2;
        let entry = &table[mid];
        match compare_names(entry.name, name) {
            core::cmp::Ordering::Less => {
                assert forall|j: int| 0 <= j < mid + 1 implies name_lt(
                    #[trigger] table@[j].name@,
                    name@,
                ) by {
                    if j < mid {
                        lemma_ascending_pairwise(table@, j, mid as int);
                        lemma_lex_transitive(table@[j].name@, table@[mid as int].name@, name@, 0);
                    }
                }
                lo = mid + 1;
            },
            core::cmp::Ordering::Greater => {
                assert forall|j: int| mid <= j < table@.len() implies name_lt(
                    name@,
                    #[trigger] table@[j].name@,
                ) by {
                    if j > mid {
                        lemma_ascending_pairwise(table@, mid as int, j);
                        lemma_lex_transitive(name@, table@[mid as int].name@, table@[j].name@, 0);
                    }
                }
                hi = mid;
            },
            core::cmp::Ordering::Equal => {
                proof {
                    let k = choose|k: int| 0 <= k < table@.len() && #[trigger] table@[k].name@ == name@;
                    if k != mid {
                        if k < mid {
                            lemma_ascending_pairwise(table@, k, mid as int);
                        } else {
                            lemma_ascending_pairwise(table@, mid as int, k);
                        }
                        lemma_lex_irreflexive(name@, 0);
                    }
                }
                return Some(entry.rgb);
            },
        }
    }
    proof {
        assert forall|j: int| 0 <= j < table@.len() implies #[trigger] table@[j].name@ != name@ by {
            lemma_lex_irreflexive(name@, 0);
        }
    }
    None
}

/// The CSS color keywords
pub open spec fn css_table() -> Seq<CssName> {
    seq![
        CssName { name: "aliceblue", rgb: (240, 248, 255) },
        CssName { name: "antiquewhite", rgb: (250, 235, 215) },
        CssName { name: "aqua", rgb: (0, 255, 255) },
        CssName { name: "aquamarine", rgb: (127, 255, 212) },
        CssName { name: "azure", rgb: (240, 255, 255) },
        CssName { name: "beige", rgb: (245, 245, 220) },
        CssName { name: "bisque", rgb: (255, 228, 196) },
        CssName { name: "black", rgb: (0, 0, 0) },
        CssName { name: "blanchedalmond", rgb: (255, 235, 205) },
        CssName { name: "blue", rgb: (0, 0, 255) },
        CssName { name: "blueviolet", rgb: (138, 43, 226) },
        CssName { name: "brown", rgb: (165, 42, 42) },
        CssName { name: "burlywood", rgb: (222, 184, 135) },
        CssName { name: "cadetblue", rgb: (95, 158, 160) },
        CssName { name: "chartreuse", rgb: (127, 255, 0) },
        CssName { name: "chocolate", rgb: (210, 105, 30) },
        CssName { name: "coral", rgb: (255, 127, 80) },
        CssName { name: "cornflowerblue", rgb: (100, 149, 237) },
        CssName { name: "cornsilk", rgb: (255, 248, 220) },
        CssName { name: "crimson", rgb: (220, 20, 60) },
        CssName { name: "cyan", rgb: (0, 255, 255) },
        CssName { name: "darkblue", rgb: (0, 0, 139) },
        CssName { name: "darkcyan", rgb: (0, 139, 139) },
        CssName { name: "darkgoldenrod", rgb: (184, 134, 11) },
        CssName { name: "darkgray", rgb: (169, 169, 169) },
        CssName { name: "darkgreen", rgb: (0, 100, 0) },
        CssName { name: "darkgrey", rgb: (169, 169, 169) },
        CssName { name: "darkkhaki", rgb: (189, 183, 107) },
        CssName { name: "darkmagenta", rgb: (139, 0, 139) },
        CssName { name: "darkolivegreen", rgb: (85, 107, 47) },
        CssName { name: "darkorange", rgb: (255, 140, 0) },
        CssName { name: "darkorchid", rgb: (153, 50, 204) },
        CssName { name: "darkred", rgb: (139, 0, 0) },
        CssName { name: "darksalmon", rgb: (233, 150, 122) },
        CssName { name: "darkseagreen", rgb: (143, 188, 143) },
        CssName { name: "darkslateblue", rgb: (72, 61, 139) },
        CssName { name: "darkslategray", rgb: (47, 79, 79) },
        CssName { name: "darkslategrey", rgb: (47, 79, 79) },
        CssName { name: "darkturquoise", rgb: (0, 206, 209) },
        CssName { name: "darkviolet", rgb: (148, 0, 211) },
        CssName { name: "deeppink", rgb: (255, 20, 147) },
        CssName { name: "deepskyblue", rgb: (0, 191, 255) },
        CssName { name: "dimgray", rgb: (105, 105, 105) },
        CssName { name: "dimgrey", rgb: (105, 105, 105) },
        CssName { name: "dodgerblue", rgb: (30, 144, 255) },
        CssName { name: "firebrick", rgb: (178, 34, 34) },
        CssName { name: "floralwhite", rgb: (255, 250, 240) },
        CssName { name: "forestgreen", rgb: (34, 139, 34) },
        CssName { name: "fuchsia", rgb: (255, 0, 255) },
        CssName { name: "gainsboro", rgb: (220, 220, 220) },
        CssName { name: "ghostwhite", rgb: (248, 248, 255) },
        CssName { name: "gold", rgb: (255, 215, 0) },
        CssName { name: "goldenrod", rgb: (218, 165, 32) },
        CssName { name: "gray", rgb: (128, 128, 128) },
        CssName { name: "green", rgb: (0, 128, 0) },
        CssName { name: "greenyellow", rgb: (173, 255, 47) },
        CssName { name: "grey", rgb: (128, 128, 128) },
        CssName { name: "honeydew", rgb: (240, 255, 240) },
        CssName { name: "hotpink", rgb: (255, 105, 180) },
        CssName { name: "indianred", rgb: (205, 92, 92) },
        CssName { name: "indigo", rgb: (75, 0, 130) },
        CssName { name: "ivory", rgb: (255, 255, 240) },
        CssName { name: "khaki", rgb: (240, 230, 140) },
        CssName { name: "lavender", rgb: (230, 230, 250) },
        CssName { name: "lavenderblush", rgb: (255, 240, 245) },
        CssName { name: "lawngreen", rgb: (124, 252, 0) },
        CssName { name: "lemonchiffon", rgb: (255, 250, 205) },
        CssName { name: "lightblue", rgb: (173, 216, 230) },
        CssName { name: "lightcoral", rgb: (240, 128, 128) },
        CssName { name: "lightcyan", rgb: (224, 255, 255) },
        CssName { name: "lightgoldenrodyellow", rgb: (250, 250, 210) },
        CssName { name: "lightgray", rgb: (211, 211, 211) },
        CssName { name: "lightgreen", rgb: (144, 238, 144) },
        CssName { name: "lightgrey", rgb: (211, 211, 211) },
        CssName { name: "lightpink", rgb: (255, 182, 193) },
        CssName { name: "lightsalmon", rgb: (255, 160, 122) },
        CssName { name: "lightseagreen", rgb: (32, 178, 170) },
        CssName { name: "lightskyblue", rgb: (135, 206, 250) },
        CssName { name: "lightslategray", rgb: (119, 136, 153) },
        CssName { name: "lightslategrey", rgb: (119, 136, 153) },
        CssName { name: "lightsteelblue", rgb: (176, 196, 222) },
        CssName { name: "lightyellow", rgb: (255, 255, 224) },
        CssName { name: "lime", rgb: (0, 255, 0) },
        CssName { name: "limegreen", rgb: (50, 205, 50) },
        CssName { name: "linen", rgb: (250, 240, 230) },
        CssName { name: "magenta", rgb: (255, 0, 255) },
        CssName { name: "maroon", rgb: (128, 0, 0) },
        CssName { name: "mediumaquamarine", rgb: (102, 205, 170) },
        CssName { name: "mediumblue", rgb: (0, 0, 205) },
        CssName { name: "mediumorchid", rgb: (186, 85, 211) },
        CssName { name: "mediumpurple", rgb: (147, 112, 219) },
        CssName { name: "mediumseagreen", rgb: (60, 179, 113) },
        CssName { name: "mediumslateblue", rgb: (123, 104, 238) },
        CssName { name: "mediumspringgreen", rgb: (0, 250, 154) },
        CssName { name: "mediumturquoise", rgb: (72, 209, 204) },
        CssName { name: "mediumvioletred", rgb: (199, 21, 133) },
        CssName { name: "midnightblue", rgb: (25, 25, 112) },
        CssName { name: "mintcream", rgb: (245, 255, 250) },
        CssName { name: "mistyrose", rgb: (255, 228, 225) },
        CssName { name: "moccasin", rgb: (255, 228, 181) },
        CssName { name: "navajowhite", rgb: (255, 222, 173) },
        CssName { name: "navy", rgb: (0, 0, 128) },
        CssName { name: "oldlace", rgb: (253, 245, 230) },
        CssName { name: "olive", rgb: (128, 128, 0) },
        CssName { name: "olivedrab", rgb: (107, 142, 35) },
        CssName { name: "orange", rgb: (255, 165, 0) },
        CssName { name: "orangered", rgb: (255, 69, 0) },
        CssName { name: "orchid", rgb: (218, 112, 214) },
        CssName { name: "palegoldenrod", rgb: (238, 232, 170) },
        CssName { name: "palegreen", rgb: (152, 251, 152) },
        CssName { name: "paleturquoise", rgb: (175, 238, 238) },
        CssName { name: "palevioletred", rgb: (219, 112, 147) },
        CssName { name: "papayawhip", rgb: (255, 239, 213) },
        CssName { name: "peachpuff", rgb: (255, 218, 185) },
        CssName { name: "peru", rgb: (205, 133, 63) },
        CssName { name: "pink", rgb: (255, 192, 203) },
        CssName { name: "plum", rgb: (221, 160, 221) },
        CssName { name: "powderblue", rgb: (176, 224, 230) },
        CssName { name: "purple", rgb: (128, 0, 128) },
        CssName { name: "red", rgb: (255, 0, 0) },
        CssName { name: "rosybrown", rgb: (188, 143, 143) },
        CssName { name: "royalblue", rgb: (65, 105, 225) },
        CssName { name: "saddlebrown", rgb: (139, 69, 19) },
        CssName { name: "salmon", rgb: (250, 128, 114) },
        CssName { name: "sandybrown", rgb: (244, 164, 96) },
        CssName { name: "seagreen", rgb: (46, 139, 87) },
        CssName { name: "seashell", rgb: (255, 245, 238) },
        CssName { name: "sienna", rgb: (160, 82, 45) },
        CssName { name: "silver", rgb: (192, 192, 192) },
        CssName { name: "skyblue", rgb: (135, 206, 235) },
        CssName { name: "slateblue", rgb: (106, 90, 205) },
        CssName { name: "slategray", rgb: (112, 128, 144) },
        CssName { name: "slategrey", rgb: (112, 128, 144) },
        CssName { name: "snow", rgb: (255, 250, 250) },
        CssName { name: "springgreen", rgb: (0, 255, 127) },
        CssName { name: "steelblue", rgb: (70, 130, 180) },
        CssName { name: "tan", rgb: (210, 180, 140) },
        CssName { name: "teal", rgb: (0, 128, 128) },
        CssName { name: "thistle", rgb: (216, 191, 216) },
        CssName { name: "tomato", rgb: (255, 99, 71) },
        CssName { name: "turquoise", rgb: (64, 224, 208) },
        CssName { name: "violet", rgb: (238, 130, 238) },
        CssName { name: "wheat", rgb: (245, 222, 179) },
        CssName { name: "white", rgb: (255, 255, 255) },
        CssName { name: "whitesmoke", rgb: (245, 245, 245) },
        CssName { name: "yellow", rgb: (255, 255, 0) },
        CssName { name: "yellowgreen", rgb: (154, 205, 50) },
    ]
}

/// Vim's color names
pub open spec fn vim_table() -> Seq<CssName> {
    seq![
        CssName { name: "black", rgb: (0, 0, 0) },
        CssName { name: "blue", rgb: (0, 0, 255) },
        CssName { name: "brown", rgb: (165, 42, 42) },
        CssName { name: "cyan", rgb: (0, 255, 255) },
        CssName { name: "darkblue", rgb: (0, 0, 139) },
        CssName { name: "darkcyan", rgb: (0, 139, 139) },
        CssName { name: "darkgray", rgb: (169, 169, 169) },
        CssName { name: "darkgreen", rgb: (0, 100, 0) },
        CssName { name: "darkgrey", rgb: (169, 169, 169) },
        CssName { name: "darkmagenta", rgb: (139, 0, 139) },
        CssName { name: "darkred", rgb: (139, 0, 0) },
        CssName { name: "gray", rgb: (190, 190, 190) },
        CssName { name: "green", rgb: (0, 255, 0) },
        CssName { name: "grey", rgb: (190, 190, 190) },
        CssName { name: "lightblue", rgb: (173, 216, 230) },
        CssName { name: "lightcyan", rgb: (224, 255, 255) },
        CssName { name: "lightgray", rgb: (211, 211, 211) },
        CssName { name: "lightgreen", rgb: (144, 238, 144) },
        CssName { name: "lightgrey", rgb: (211, 211, 211) },
        CssName { name: "lightyellow", rgb: (255, 255, 224) },
        CssName { name: "magenta", rgb: (255, 0, 255) },
        CssName { name: "orange", rgb: (255, 165, 0) },
        CssName { name: "purple", rgb: (160, 32, 240) },
        CssName { name: "red", rgb: (255, 0, 0) },
        CssName { name: "seagreen", rgb: (46, 139, 87) },
        CssName { name: "slateblue", rgb: (106, 90, 205) },
        CssName { name: "violet", rgb: (238, 130, 238) },
        CssName { name: "white", rgb: (255, 255, 255) },
        CssName { name: "yellow", rgb: (255, 255, 0) },
    ]
}

/// The CSS color keywords, in ascending order of name
pub fn css_names() -> (r: Vec<CssName>)
    ensures
        r@ == css_table(),
{
    vec![
        CssName { name: "aliceblue", rgb: (240, 248, 255) },
        CssName { name: "antiquewhite", rgb: (250, 235, 215) },
        CssName { name: "aqua", rgb: (0, 255, 255) },
        CssName { name: "aquamarine", rgb: (127, 255, 212) },
        CssName { name: "azure", rgb: (240, 255, 255) },
        CssName { name: "beige", rgb: (245, 245, 220) },
        CssName { name: "bisque", rgb: (255, 228, 196) },
        CssName { name: "black", rgb: (0, 0, 0) },
        CssName { name: "blanchedalmond", rgb: (255, 235, 205) },
        CssName { name: "blue", rgb: (0, 0, 255) },
        CssName { name: "blueviolet", rgb: (138, 43, 226) },
        CssName { name: "brown", rgb: (165, 42, 42) },
        CssName { name: "burlywood", rgb: (222, 184, 135) },
        CssName { name: "cadetblue", rgb: (95, 158, 160) },
        CssName { name: "chartreuse", rgb: (127, 255, 0) },
        CssName { name: "chocolate", rgb: (210, 105, 30) },
        CssName { name: "coral", rgb: (255, 127, 80) },
        CssName { name: "cornflowerblue", rgb: (100, 149, 237) },
        CssName { name: "cornsilk", rgb: (255, 248, 220) },
        CssName { name: "crimson", rgb: (220, 20, 60) },
        CssName { name: "cyan", rgb: (0, 255, 255) },
        CssName { name: "darkblue", rgb: (0, 0, 139) },
        CssName { name: "darkcyan", rgb: (0, 139, 139) },
        CssName { name: "darkgoldenrod", rgb: (184, 134, 11) },
        CssName { name: "darkgray", rgb: (169, 169, 169) },
        CssName { name: "darkgreen", rgb: (0, 100, 0) },
        CssName { name: "darkgrey", rgb: (169, 169, 169) },
        CssName { name: "darkkhaki", rgb: (189, 183, 107) },
        CssName { name: "darkmagenta", rgb: (139, 0, 139) },
        CssName { name: "darkolivegreen", rgb: (85, 107, 47) },
        CssName { name: "darkorange", rgb: (255, 140, 0) },
        CssName { name: "darkorchid", rgb: (153, 50, 204) },
        CssName { name: "darkred", rgb: (139, 0, 0) },
        CssName { name: "darksalmon", rgb: (233, 150, 122) },
        CssName { name: "darkseagreen", rgb: (143, 188, 143) },
        CssName { name: "darkslateblue", rgb: (72, 61, 139) },
        CssName { name: "darkslategray", rgb: (47, 79, 79) },
        CssName { name: "darkslategrey", rgb: (47, 79, 79) },
        CssName { name: "darkturquoise", rgb: (0, 206, 209) },
        CssName { name: "darkviolet", rgb: (148, 0, 211) },
        CssName { name: "deeppink", rgb: (255, 20, 147) },
        CssName { name: "deepskyblue", rgb: (0, 191, 255) },
        CssName { name: "dimgray", rgb: (105, 105, 105) },
        CssName { name: "dimgrey", rgb: (105, 105, 105) },
        CssName { name: "dodgerblue", rgb: (30, 144, 255) },
        CssName { name: "firebrick", rgb: (178, 34, 34) },
        CssName { name: "floralwhite", rgb: (255, 250, 240) },
        CssName { name: "forestgreen", rgb: (34, 139, 34) },
        CssName { name: "fuchsia", rgb: (255, 0, 255) },
        CssName { name: "gainsboro", rgb: (220, 220, 220) },
        CssName { name: "ghostwhite", rgb: (248, 248, 255) },
        CssName { name: "gold", rgb: (255, 215, 0) },
        CssName { name: "goldenrod", rgb: (218, 165, 32) },
        CssName { name: "gray", rgb: (128, 128, 128) },
        CssName { name: "green", rgb: (0, 128, 0) },
        CssName { name: "greenyellow", rgb: (173, 255, 47) },
        CssName { name: "grey", rgb: (128, 128, 128) },
        CssName { name: "honeydew", rgb: (240, 255, 240) },
        CssName { name: "hotpink", rgb: (255, 105, 180) },
        CssName { name: "indianred", rgb: (205, 92, 92) },
        CssName { name: "indigo", rgb: (75, 0, 130) },
        CssName { name: "ivory", rgb: (255, 255, 240) },
        CssName { name: "khaki", rgb: (240, 230, 140) },
        CssName { name: "lavender", rgb: (230, 230, 250) },
        CssName { name: "lavenderblush", rgb: (255, 240, 245) },
        CssName { name: "lawngreen", rgb: (124, 252, 0) },
        CssName { name: "lemonchiffon", rgb: (255, 250, 205) },
        CssName { name: "lightblue", rgb: (173, 216, 230) },
        CssName { name: "lightcoral", rgb: (240, 128, 128) },
        CssName { name: "lightcyan", rgb: (224, 255, 255) },
        CssName { name: "lightgoldenrodyellow", rgb: (250, 250, 210) },
        CssName { name: "lightgray", rgb: (211, 211, 211) },
        CssName { name: "lightgreen", rgb: (144, 238, 144) },
        CssName { name: "lightgrey", rgb: (211, 211, 211) },
        CssName { name: "lightpink", rgb: (255, 182, 193) },
        CssName { name: "lightsalmon", rgb: (255, 160, 122) },
        CssName { name: "lightseagreen", rgb: (32, 178, 170) },
        CssName { name: "lightskyblue", rgb: (135, 206, 250) },
        CssName { name: "lightslategray", rgb: (119, 136, 153) },
        CssName { name: "lightslategrey", rgb: (119, 136, 153) },
        CssName { name: "lightsteelblue", rgb: (176, 196, 222) },
        CssName { name: "lightyellow", rgb: (255, 255, 224) },
        CssName { name: "lime", rgb: (0, 255, 0) },
        CssName { name: "limegreen", rgb: (50, 205, 50) },
        CssName { name: "linen", rgb: (250, 240, 230) },
        CssName { name: "magenta", rgb: (255, 0, 255) },
        CssName { name: "maroon", rgb: (128, 0, 0) },
        CssName { name: "mediumaquamarine", rgb: (102, 205, 170) },
        CssName { name: "mediumblue", rgb: (0, 0, 205) },
        CssName { name: "mediumorchid", rgb: (186, 85, 211) },
        CssName { name: "mediumpurple", rgb: (147, 112, 219) },
        CssName { name: "mediumseagreen", rgb: (60, 179, 113) },
        CssName { name: "mediumslateblue", rgb: (123, 104, 238) },
        CssName { name: "mediumspringgreen", rgb: (0, 250, 154) },
        CssName { name: "mediumturquoise", rgb: (72, 209, 204) },
        CssName { name: "mediumvioletred", rgb: (199, 21, 133) },
        CssName { name: "midnightblue", rgb: (25, 25, 112) },
        CssName { name: "mintcream", rgb: (245, 255, 250) },
        CssName { name: "mistyrose", rgb: (255, 228, 225) },
        CssName { name: "moccasin", rgb: (255, 228, 181) },
        CssName { name: "navajowhite", rgb: (255, 222, 173) },
        CssName { name: "navy", rgb: (0, 0, 128) },
        CssName { name: "oldlace", rgb: (253, 245, 230) },
        CssName { name: "olive", rgb: (128, 128, 0) },
        CssName { name: "olivedrab", rgb: (107, 142, 35) },
        CssName { name: "orange", rgb: (255, 165, 0) },
        CssName { name: "orangered", rgb: (255, 69, 0) },
        CssName { name: "orchid", rgb: (218, 112, 214) },
        CssName { name: "palegoldenrod", rgb: (238, 232, 170) },
        CssName { name: "palegreen", rgb: (152, 251, 152) },
        CssName { name: "paleturquoise", rgb: (175, 238, 238) },
        CssName { name: "palevioletred", rgb: (219, 112, 147) },
        CssName { name: "papayawhip", rgb: (255, 239, 213) },
        CssName { name: "peachpuff", rgb: (255, 218, 185) },
        CssName { name: "peru", rgb: (205, 133, 63) },
        CssName { name: "pink", rgb: (255, 192, 203) },
        CssName { name: "plum", rgb: (221, 160, 221) },
        CssName { name: "powderblue", rgb: (176, 224, 230) },
        CssName { name: "purple", rgb: (128, 0, 128) },
        CssName { name: "red", rgb: (255, 0, 0) },
        CssName { name: "rosybrown", rgb: (188, 143, 143) },
        CssName { name: "royalblue", rgb: (65, 105, 225) },
        CssName { name: "saddlebrown", rgb: (139, 69, 19) },
        CssName { name: "salmon", rgb: (250, 128, 114) },
        CssName { name: "sandybrown", rgb: (244, 164, 96) },
        CssName { name: "seagreen", rgb: (46, 139, 87) },
        CssName { name: "seashell", rgb: (255, 245, 238) },
        CssName { name: "sienna", rgb: (160, 82, 45) },
        CssName { name: "silver", rgb: (192, 192, 192) },
        CssName { name: "skyblue", rgb: (135, 206, 235) },
        CssName { name: "slateblue", rgb: (106, 90, 205) },
        CssName { name: "slategray", rgb: (112, 128, 144) },
        CssName { name: "slategrey", rgb: (112, 128, 144) },
        CssName { name: "snow", rgb: (255, 250, 250) },
        CssName { name: "springgreen", rgb: (0, 255, 127) },
        CssName { name: "steelblue", rgb: (70, 130, 180) },
        CssName { name: "tan", rgb: (210, 180, 140) },
        CssName { name: "teal", rgb: (0, 128, 128) },
        CssName { name: "thistle", rgb: (216, 191, 216) },
        CssName { name: "tomato", rgb: (255, 99, 71) },
        CssName { name: "turquoise", rgb: (64, 224, 208) },
        CssName { name: "violet", rgb: (238, 130, 238) },
        CssName { name: "wheat", rgb: (245, 222, 179) },
        CssName { name: "white", rgb: (255, 255, 255) },
        CssName { name: "whitesmoke", rgb: (245, 245, 245) },
        CssName { name: "yellow", rgb: (255, 255, 0) },
        CssName { name: "yellowgreen", rgb: (154, 205, 50) },
    ]
}

/// Vim's color names, in ascending order of name
pub fn vim_names() -> (r: Vec<CssName>)
    ensures
        r@ == vim_table(),
{
    vec![
        CssName { name: "black", rgb: (0, 0, 0) },
        CssName { name: "blue", rgb: (0, 0, 255) },
        CssName { name: "brown", rgb: (165, 42, 42) },
        CssName { name: "cyan", rgb: (0, 255, 255) },
        CssName { name: "darkblue", rgb: (0, 0, 139) },
        CssName { name: "darkcyan", rgb: (0, 139, 139) },
        CssName { name: "darkgray", rgb: (169, 169, 169) },
        CssName { name: "darkgreen", rgb: (0, 100, 0) },
        CssName { name: "darkgrey", rgb: (169, 169, 169) },
        CssName { name: "darkmagenta", rgb: (139, 0, 139) },
        CssName { name: "darkred", rgb: (139, 0, 0) },
        CssName { name: "gray", rgb: (190, 190, 190) },
        CssName { name: "green", rgb: (0, 255, 0) },
        CssName { name: "grey", rgb: (190, 190, 190) },
        CssName { name: "lightblue", rgb: (173, 216, 230) },
        CssName { name: "lightcyan", rgb: (224, 255, 255) },
        CssName { name: "lightgray", rgb: (211, 211, 211) },
        CssName { name: "lightgreen", rgb: (144, 238, 144) },
        CssName { name: "lightgrey", rgb: (211, 211, 211) },
        CssName { name: "lightyellow", rgb: (255, 255, 224) },
        CssName { name: "magenta", rgb: (255, 0, 255) },
        CssName { name: "orange", rgb: (255, 165, 0) },
        CssName { name: "purple", rgb: (160, 32, 240) },
        CssName { name: "red", rgb: (255, 0, 0) },
        CssName { name: "seagreen", rgb: (46, 139, 87) },
        CssName { name: "slateblue", rgb: (106, 90, 205) },
        CssName { name: "violet", rgb: (238, 130, 238) },
        CssName { name: "white", rgb: (255, 255, 255) },
        CssName { name: "yellow", rgb: (255, 255, 0) },
    ]
}

/// Both color tables are in strictly ascending order of name
pub proof fn lemma_palettes_sorted()
    ensures
        strictly_ascending(css_table()),
        strictly_ascending(vim_table()),
{
    lemma_css_sorted();
    lemma_vim_sorted();
}

proof fn lemma_css_sorted()
    ensures
        strictly_ascending(css_table()),
{
    reveal_strlit("aliceblue");
    reveal_strlit("antiquewhite");
    reveal_strlit("aqua");
    reveal_strlit("aquamarine");
    reveal_strlit("azure");
    reveal_strlit("beige");
    reveal_strlit("bisque");
    reveal_strlit("black");
    reveal_strlit("blanchedalmond");
    reveal_strlit("blue");
    reveal_strlit("blueviolet");
    reveal_strlit("brown");
    reveal_strlit("burlywood");
    reveal_strlit("cadetblue");
    reveal_strlit("chartreuse");
    reveal_strlit("chocolate");
    reveal_strlit("coral");
    reveal_strlit("cornflowerblue");
    reveal_strlit("cornsilk");
    reveal_strlit("crimson");
    reveal_strlit("cyan");
    reveal_strlit("darkblue");
    reveal_strlit("darkcyan");
    reveal_strlit("darkgoldenrod");
    reveal_strlit("darkgray");
    reveal_strlit("darkgreen");
    reveal_strlit("darkgrey");
    reveal_strlit("darkkhaki");
    reveal_strlit("darkmagenta");
    reveal_strlit("darkolivegreen");
    reveal_strlit("darkorange");
    reveal_strlit("darkorchid");
    reveal_strlit("darkred");
    reveal_strlit("darksalmon");
    reveal_strlit("darkseagreen");
    reveal_strlit("darkslateblue");
    reveal_strlit("darkslategray");
    reveal_strlit("darkslategrey");
    reveal_strlit("darkturquoise");
    reveal_strlit("darkviolet");
    reveal_strlit("deeppink");
    reveal_strlit("deepskyblue");
    reveal_strlit("dimgray");
    reveal_strlit("dimgrey");
    reveal_strlit("dodgerblue");
    reveal_strlit("firebrick");
    reveal_strlit("floralwhite");
    reveal_strlit("forestgreen");
    reveal_strlit("fuchsia");
    reveal_strlit("gainsboro");
    reveal_strlit("ghostwhite");
    reveal_strlit("gold");
    reveal_strlit("goldenrod");
    reveal_strlit("gray");
    reveal_strlit("green");
    reveal_strlit("greenyellow");
    reveal_strlit("grey");
    reveal_strlit("honeydew");
    reveal_strlit("hotpink");
    reveal_strlit("indianred");
    reveal_strlit("indigo");
    reveal_strlit("ivory");
    reveal_strlit("khaki");
    reveal_strlit("lavender");
    reveal_strlit("lavenderblush");
    reveal_strlit("lawngreen");
    reveal_strlit("lemonchiffon");
    reveal_strlit("lightblue");
    reveal_strlit("lightcoral");
    reveal_strlit("lightcyan");
    reveal_strlit("lightgoldenrodyellow");
    reveal_strlit("lightgray");
    reveal_strlit("lightgreen");
    reveal_strlit("lightgrey");
    reveal_strlit("lightpink");
    reveal_strlit("lightsalmon");
    reveal_strlit("lightseagreen");
    reveal_strlit("lightskyblue");
    reveal_strlit("lightslategray");
    reveal_strlit("lightslategrey");
    reveal_strlit("lightsteelblue");
    reveal_strlit("lightyellow");
    reveal_strlit("lime");
    reveal_strlit("limegreen");
    reveal_strlit("linen");
    reveal_strlit("magenta");
    reveal_strlit("maroon");
    reveal_strlit("mediumaquamarine");
    reveal_strlit("mediumblue");
    reveal_strlit("mediumorchid");
    reveal_strlit("mediumpurple");
    reveal_strlit("mediumseagreen");
    reveal_strlit("mediumslateblue");
    reveal_strlit("mediumspringgreen");
    reveal_strlit("mediumturquoise");
    reveal_strlit("mediumvioletred");
    reveal_strlit("midnightblue");
    reveal_strlit("mintcream");
    reveal_strlit("mistyrose");
    reveal_strlit("moccasin");
    reveal_strlit("navajowhite");
    reveal_strlit("navy");
    reveal_strlit("oldlace");
    reveal_strlit("olive");
    reveal_strlit("olivedrab");
    reveal_strlit("orange");
    reveal_strlit("orangered");
    reveal_strlit("orchid");
    reveal_strlit("palegoldenrod");
    reveal_strlit("palegreen");
    reveal_strlit("paleturquoise");
    reveal_strlit("palevioletred");
    reveal_strlit("papayawhip");
    reveal_strlit("peachpuff");
    reveal_strlit("peru");
    reveal_strlit("pink");
    reveal_strlit("plum");
    reveal_strlit("powderblue");
    reveal_strlit("purple");
    reveal_strlit("red");
    reveal_strlit("rosybrown");
    reveal_strlit("royalblue");
    reveal_strlit("saddlebrown");
    reveal_strlit("salmon");
    reveal_strlit("sandybrown");
    reveal_strlit("seagreen");
    reveal_strlit("seashell");
    reveal_strlit("sienna");
    reveal_strlit("silver");
    reveal_strlit("skyblue");
    reveal_strlit("slateblue");
    reveal_strlit("slategray");
    reveal_strlit("slategrey");
    reveal_strlit("snow");
    reveal_strlit("springgreen");
    reveal_strlit("steelblue");
    reveal_strlit("tan");
    reveal_strlit("teal");
    reveal_strlit("thistle");
    reveal_strlit("tomato");
    reveal_strlit("turquoise");
    reveal_strlit("violet");
    reveal_strlit("wheat");
    reveal_strlit("white");
    reveal_strlit("whitesmoke");
    reveal_strlit("yellow");
    reveal_strlit("yellowgreen");
    reveal_with_fuel(lex_lt_from, 14);
}

proof fn lemma_vim_sorted()
    ensures
        strictly_ascending(vim_table()),
{
    reveal_strlit("black");
    reveal_strlit("blue");
    reveal_strlit("brown");
    reveal_strlit("cyan");
    reveal_strlit("darkblue");
    reveal_strlit("darkcyan");
    reveal_strlit("darkgray");
    reveal_strlit("darkgreen");
    reveal_strlit("darkgrey");
    reveal_strlit("darkmagenta");
    reveal_strlit("darkred");
    reveal_strlit("gray");
    reveal_strlit("green");
    reveal_strlit("grey");
    reveal_strlit("lightblue");
    reveal_strlit("lightcyan");
    reveal_strlit("lightgray");
    reveal_strlit("lightgreen");
    reveal_strlit("lightgrey");
    reveal_strlit("lightyellow");
    reveal_strlit("magenta");
    reveal_strlit("orange");
    reveal_strlit("purple");
    reveal_strlit("red");
    reveal_strlit("seagreen");
    reveal_strlit("slateblue");
    reveal_strlit("violet");
    reveal_strlit("white");
    reveal_strlit("yellow");
    reveal_with_fuel(lex_lt_from, 14);
}

} // verus!
