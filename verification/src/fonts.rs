//! Embedded fonts and their lookup rules.
//!
//! The manager resolves a requested family and variant to font data with
//! a three-step fallback: exact match, then the default family in the
//! requested variant, then the default family in its regular variant.

use vstd::prelude::*;

use crate::text;

verus! {

/// Font weight variants.
#[derive(Debug, Clone, Copy, PartialEq, Eq, Hash, Structural)]
pub enum FontWeight {
    Regular,
    Bold,
}

/// Font style variants.
#[derive(Debug, Clone, Copy, PartialEq, Eq, Hash, Structural)]
pub enum FontStyle {
    Normal,
    Italic,
}

/// A font variant key: weight and style.
#[derive(Debug, Clone, Copy, PartialEq, Eq, Hash, Structural)]
pub struct FontVariant {
    /// The weight.
    pub weight: FontWeight,
    /// The style.
    pub style: FontStyle,
}

impl FontVariant {
    /// Regular weight, normal style.
    pub fn regular() -> (v: Self)
        ensures
            v == (FontVariant { weight: FontWeight::Regular, style: FontStyle::Normal }),
    {
        FontVariant { weight: FontWeight::Regular, style: FontStyle::Normal }
    }

    /// Bold weight, normal style.
    pub fn bold() -> (v: Self)
        ensures
            v == (FontVariant { weight: FontWeight::Bold, style: FontStyle::Normal }),
    {
        FontVariant { weight: FontWeight::Bold, style: FontStyle::Normal }
    }

    /// Regular weight, italic style.
    pub fn italic() -> (v: Self)
        ensures
            v == (FontVariant { weight: FontWeight::Regular, style: FontStyle::Italic }),
    {
        FontVariant { weight: FontWeight::Regular, style: FontStyle::Italic }
    }

    /// Bold weight, italic style.
    pub fn bold_italic() -> (v: Self)
        ensures
            v == (FontVariant { weight: FontWeight::Bold, style: FontStyle::Italic }),
    {
        FontVariant { weight: FontWeight::Bold, style: FontStyle::Italic }
    }

    /// The variant selected for a bold/italic styling request.
    pub open spec fn for_styling(bold: bool, italic: bool) -> FontVariant {
        FontVariant {
            weight: if bold {
                FontWeight::Bold
            } else {
                FontWeight::Regular
            },
            style: if italic {
                FontStyle::Italic
            } else {
                FontStyle::Normal
            },
        }
    }
}

/// Font data container.
#[derive(Debug, Clone)]
pub struct FontData {
    /// Family name.
    pub name: String,
    /// The font bytes. These are minimal placeholders standing in for
    /// embedded subsets; a host may register real font bytes instead.
    pub data: Vec<u8>,
    /// The variant this data renders.
    pub variant: FontVariant,
}

/// The embedded font set: the default family in its four variants. The
/// data bytes are minimal placeholders (a different final byte per
/// variant), as the lookup rules never read them.
pub fn get_embedded_fonts() -> (r: Vec<FontData>)
    ensures
        r@.len() == 4,
        forall|i: int| 0 <= i < 4 ==> (#[trigger] r@[i].name)@ == "Noto Sans"@,
        forall|i: int| 0 <= i < 4 ==> (#[trigger] r@[i].data)@.len() > 0,
        r@[0].variant == (FontVariant { weight: FontWeight::Regular, style: FontStyle::Normal }),
        r@[1].variant == (FontVariant { weight: FontWeight::Bold, style: FontStyle::Normal }),
        r@[2].variant == (FontVariant { weight: FontWeight::Regular, style: FontStyle::Italic }),
        r@[3].variant == (FontVariant { weight: FontWeight::Bold, style: FontStyle::Italic }),
{
    let mut fonts: Vec<FontData> = Vec::new();
    fonts.push(
        FontData {
            name: String::from_str("Noto Sans"),
            data: vec![0u8, 1, 0, 0, 0],
            variant: FontVariant::regular(),
        },
    );
    fonts.push(
        FontData {
            name: String::from_str("Noto Sans"),
            data: vec![0u8, 1, 0, 0, 1],
            variant: FontVariant::bold(),
        },
    );
    fonts.push(
        FontData {
            name: String::from_str("Noto Sans"),
            data: vec![0u8, 1, 0, 0, 2],
            variant: FontVariant::italic(),
        },
    );
    fonts.push(
        FontData {
            name: String::from_str("Noto Sans"),
            data: vec![0u8, 1, 0, 0, 3],
            variant: FontVariant::bold_italic(),
        },
    );
    fonts
}

/// Index of the first font whose family (compared exactly) and variant
/// both match, or `-1` when none does.
pub open spec fn find_font(fonts: Seq<FontData>, family: Seq<char>, variant: FontVariant) -> int
    decreases fonts.len(),
{
    if fonts.len() == 0 {
        -1
    } else if fonts[0].name@ == family && fonts[0].variant == variant {
        0
    } else if find_font(fonts.subrange(1, fonts.len() as int), family, variant) == -1 {
        -1
    } else {
        find_font(fonts.subrange(1, fonts.len() as int), family, variant) + 1
    }
}

/// What [`find_font`] returns: the first matching index, or `-1` exactly
/// when nothing matches.
pub proof fn lemma_find_font(fonts: Seq<FontData>, family: Seq<char>, variant: FontVariant)
    ensures
        -1 <= find_font(fonts, family, variant) < fonts.len(),
        find_font(fonts, family, variant) >= 0 ==> fonts[find_font(fonts, family, variant)].name@
            == family && fonts[find_font(fonts, family, variant)].variant == variant,
        forall|j: int|
            0 <= j < find_font(fonts, family, variant) ==> !((#[trigger] fonts[j]).name@ == family
                && fonts[j].variant == variant),
        find_font(fonts, family, variant) == -1 ==> forall|j: int|
            0 <= j < fonts.len() ==> !((#[trigger] fonts[j]).name@ == family && fonts[j].variant
                == variant),
    decreases fonts.len(),
{
    if fonts.len() > 0 && !(fonts[0].name@ == family && fonts[0].variant == variant) {
        let t = fonts.subrange(1, fonts.len() as int);
        lemma_find_font(t, family, variant);
        assert(forall|j: int| 0 <= j < t.len() ==> t[j] == fonts[j + 1]);
        if find_font(t, family, variant) == -1 {
            assert forall|j: int|
                0 <= j < fonts.len() implies !((#[trigger] fonts[j]).name@ == family
                && fonts[j].variant == variant) by {
                if j > 0 {
                    assert(t[j - 1] == fonts[j]);
                }
            }
        } else {
            assert forall|j: int|
                0 <= j < find_font(fonts, family, variant) implies !((#[trigger] fonts[j]).name@
                == family && fonts[j].variant == variant) by {
                if j > 0 {
                    assert(t[j - 1] == fonts[j]);
                }
            }
        }
    }
}

/// Font manager for the embedded fonts.
#[derive(Debug)]
pub struct FontManager {
    /// The registered fonts.
    pub fonts: Vec<FontData>,
    /// The default family name.
    pub default_font: String,
}

impl FontManager {
    /// Create a new font manager holding the embedded fonts.
    pub fn new() -> (m: Self)
        ensures
            m.default_font@ == "Noto Sans"@,
            m.fonts@.len() == 4,
            forall|i: int| 0 <= i < 4 ==> (#[trigger] m.fonts@[i].name)@ == "Noto Sans"@,
            m.fonts@[0].variant == (FontVariant {
                weight: FontWeight::Regular,
                style: FontStyle::Normal,
            }),
    {
        FontManager { fonts: get_embedded_fonts(), default_font: String::from_str("Noto Sans") }
    }

    /// Find the first font matching a family exactly, in the given
    /// variant.
    fn find_exact(&self, family: &str, variant: FontVariant) -> (r: Option<usize>)
        ensures
            match r {
                Some(i) => i == find_font(self.fonts@, family@, variant) && i < self.fonts@.len(),
                None => find_font(self.fonts@, family@, variant) == -1,
            },
    {
        proof {
            lemma_find_font(self.fonts@, family@, variant);
        }
        let n = self.fonts.len();
        let mut i: usize = 0;
        while i < n
            invariant
                n == self.fonts@.len(),
                i <= n,
                forall|j: int|
                    0 <= j < i ==> !((#[trigger] self.fonts@[j].name)@ == family@
                        && self.fonts@[j].variant == variant),
                -1 <= find_font(self.fonts@, family@, variant) < n,
                find_font(self.fonts@, family@, variant) >= 0 ==> self.fonts@[find_font(
                    self.fonts@,
                    family@,
                    variant,
                )].name@ == family@ && self.fonts@[find_font(self.fonts@, family@, variant)].variant
                    == variant,
                find_font(self.fonts@, family@, variant) == -1 ==> forall|j: int|
                    0 <= j < n ==> !((#[trigger] self.fonts@[j].name)@ == family@
                        && self.fonts@[j].variant == variant),
                forall|j: int|
                    0 <= j < find_font(self.fonts@, family@, variant) ==> !((
                    #[trigger] self.fonts@[j]).name@ == family@ && self.fonts@[j].variant
                        == variant),
            decreases n - i,
        {
            let f = &self.fonts[i];
            if str_eq(f.name.as_str(), family) && f.variant == variant {
                proof {
                    let k = find_font(self.fonts@, family@, variant);
                    assert(self.fonts@[i as int].name@ == family@ && self.fonts@[i as int].variant
                        == variant);
                    if 0 <= k < i as int {
                        assert(!((#[trigger] self.fonts@[k].name)@ == family@
                            && self.fonts@[k].variant == variant));
                    }
                    if k > i as int || k == -1 {
                        assert(!((self.fonts@[i as int]).name@ == family@ && self.fonts@[
                        i as int].variant == variant));
                    }
                }
                return Some(i);
            }
            i = i + 1;
        }
        None
    }

    /// Get font data for a family and variant: an exact match first, then
    /// the default family in the same variant, then the default family's
    /// regular variant.
    pub fn get_font(&self, family: &str, variant: FontVariant) -> (r: Option<&Vec<u8>>)
        ensures
            find_font(self.fonts@, family@, variant) >= 0 ==> (r matches Some(d) && d@
                == self.fonts@[find_font(self.fonts@, family@, variant)].data@),
            find_font(self.fonts@, family@, variant) == -1 && find_font(
                self.fonts@,
                self.default_font@,
                variant,
            ) >= 0 ==> (r matches Some(d) && d@ == self.fonts@[find_font(
                self.fonts@,
                self.default_font@,
                variant,
            )].data@),
            find_font(self.fonts@, family@, variant) == -1 && find_font(
                self.fonts@,
                self.default_font@,
                variant,
            ) == -1 && find_font(
                self.fonts@,
                self.default_font@,
                FontVariant { weight: FontWeight::Regular, style: FontStyle::Normal },
            ) >= 0 ==> (r matches Some(d) && d@ == self.fonts@[find_font(
                self.fonts@,
                self.default_font@,
                FontVariant { weight: FontWeight::Regular, style: FontStyle::Normal },
            )].data@),
            find_font(self.fonts@, family@, variant) == -1 && find_font(
                self.fonts@,
                self.default_font@,
                variant,
            ) == -1 && find_font(
                self.fonts@,
                self.default_font@,
                FontVariant { weight: FontWeight::Regular, style: FontStyle::Normal },
            ) == -1 ==> r is None,
    {
        if let Some(i) = self.find_exact(family, variant) {
            return Some(&self.fonts[i].data);
        }
        let default_name = self.default_font.clone();
        if let Some(i) = self.find_exact(default_name.as_str(), variant) {
            return Some(&self.fonts[i].data);
        }
        if let Some(i) = self.find_exact(default_name.as_str(), FontVariant::regular()) {
            return Some(&self.fonts[i].data);
        }
        None
    }

    /// Get font data for a bold/italic styling request.
    pub fn get_styled_font(&self, family: &str, bold: bool, italic: bool) -> (r: Option<&Vec<u8>>)
        ensures
            find_font(self.fonts@, family@, FontVariant::for_styling(bold, italic)) >= 0 ==> (
            r matches Some(d) && d@ == self.fonts@[find_font(
                self.fonts@,
                family@,
                FontVariant::for_styling(bold, italic),
            )].data@),
    {
        let variant = match (bold, italic) {
            (true, true) => FontVariant::bold_italic(),
            (true, false) => FontVariant::bold(),
            (false, true) => FontVariant::italic(),
            (false, false) => FontVariant::regular(),
        };
        self.get_font(family, variant)
    }

    /// The default family name.
    pub fn default_font(&self) -> (r: &str)
        ensures
            r@ == self.default_font@,
    {
        self.default_font.as_str()
    }

    /// Check whether a family is available, compared
    /// ASCII-case-insensitively.
    pub fn has_font(&self, family: &str) -> (r: bool)
        ensures
            r == exists|i: int|
                0 <= i < self.fonts@.len() && text::eq_ignore_ascii_case(
                    (#[trigger] self.fonts@[i].name)@,
                    family@,
                ),
    {
        let n = self.fonts.len();
        let mut i: usize = 0;
        while i < n
            invariant
                n == self.fonts@.len(),
                i <= n,
                forall|j: int|
                    0 <= j < i ==> !text::eq_ignore_ascii_case(
                        (#[trigger] self.fonts@[j].name)@,
                        family@,
                    ),
            decreases n - i,
        {
            if text::str_eq_ignore_ascii_case(self.fonts[i].name.as_str(), family) {
                return true;
            }
            i = i + 1;
        }
        false
    }

    /// List the available family names, each exactly once, in ascending
    /// lexicographic order.
    pub fn available_fonts(&self) -> (r: Vec<String>)
        ensures
            forall|a: int, b: int|
                0 <= a < b < r@.len() ==> text::str_lt((#[trigger] r@[a])@, (#[trigger] r@[b])@),
            forall|a: int, b: int|
                0 <= a < b < r@.len() ==> (#[trigger] r@[a])@ != (#[trigger] r@[b])@,
            forall|k: int| 0 <= k < self.fonts@.len() ==> name_listed(self.fonts@, k, r@),
            forall|j: int| 0 <= j < r@.len() ==> listed_from(r@, j, self.fonts@),
    {
        let n = self.fonts.len();
        let mut families: Vec<String> = Vec::new();
        let mut i: usize = 0;
        while i < n
            invariant
                n == self.fonts@.len(),
                i <= n,
                forall|a: int, b: int|
                    0 <= a < b < families@.len() ==> text::str_lt(
                        (#[trigger] families@[a])@,
                        (#[trigger] families@[b])@,
                    ),
                forall|k: int| 0 <= k < i ==> name_listed(self.fonts@, k, families@),
                forall|j: int| 0 <= j < families@.len() ==> listed_from(families@, j, self.fonts@),
            decreases n - i,
        {
            let ghost prev = families@;
            let name = &self.fonts[i].name;
            let flen = families.len();
            let mut pos: usize = 0;
            while pos < flen && text::str_lt_exec(families[pos].as_str(), name.as_str())
                invariant
                    flen == families@.len(),
                    pos <= flen,
                    forall|j: int|
                        0 <= j < pos ==> text::str_lt((#[trigger] families@[j])@, name@),
                decreases flen - pos,
            {
                pos = pos + 1;
            }
            let already = pos < flen && str_eq(families[pos].as_str(), name.as_str());
            if !already {
                proof {
                    if pos < prev.len() {
                        text::lemma_str_lt_trichotomy(name@, prev[pos as int]@);
                    }
                }
                families.insert(pos, name.clone());
                proof {
                    assert forall|a: int, b: int|
                        0 <= a < b < families@.len() implies text::str_lt(
                        (#[trigger] families@[a])@,
                        (#[trigger] families@[b])@,
                    ) by {
                        if b < pos {
                            assert(families@[a] == prev[a] && families@[b] == prev[b]);
                        } else if a < pos && b == pos {
                            assert(families@[a] == prev[a]);
                            assert(text::str_lt(prev[a]@, name@));
                        } else if a < pos && b > pos {
                            assert(families@[a] == prev[a] && families@[b] == prev[b - 1]);
                        } else if a == pos {
                            assert(families@[b] == prev[b - 1]);
                            assert(text::str_lt(name@, prev[pos as int]@));
                            if b - 1 > pos {
                                assert(text::str_lt(prev[pos as int]@, prev[b - 1]@));
                                text::lemma_str_lt_transitive(
                                    name@,
                                    prev[pos as int]@,
                                    prev[b - 1]@,
                                );
                            }
                        } else {
                            assert(families@[a] == prev[a - 1] && families@[b] == prev[b - 1]);
                        }
                    }
                }
            }
            proof {
                assert forall|k: int| 0 <= k < i + 1 implies name_listed(
                    self.fonts@,
                    k,
                    families@,
                ) by {
                    if k < i {
                        assert(name_listed(self.fonts@, k, prev));
                        let j = choose|j: int|
                            0 <= j < prev.len() && self.fonts@[k].name@ == (#[trigger] prev[j])@;
                        if already {
                            assert(self.fonts@[k].name@ == (families@[j])@);
                        } else {
                            if j < pos {
                                assert(families@[j] == prev[j]);
                                assert(self.fonts@[k].name@ == (families@[j])@);
                            } else {
                                assert(families@[j + 1] == prev[j]);
                                assert(self.fonts@[k].name@ == (families@[j + 1])@);
                            }
                        }
                    } else {
                        if already {
                            assert(self.fonts@[k].name@ == (families@[pos as int])@);
                        } else {
                            assert(families@[pos as int] == name);
                            assert(self.fonts@[k].name@ == (families@[pos as int])@);
                        }
                    }
                }
                assert forall|j: int| 0 <= j < families@.len() implies listed_from(
                    families@,
                    j,
                    self.fonts@,
                ) by {
                    if already || j < pos {
                        assert(families@[j] == prev[j]);
                        assert(listed_from(prev, j, self.fonts@));
                        let k = choose|k: int|
                            0 <= k < self.fonts@.len() && prev[j]@ == (
                            #[trigger] self.fonts@[k].name)@;
                        assert(families@[j]@ == (self.fonts@[k].name)@);
                    } else if j == pos {
                        assert(families@[j]@ == (self.fonts@[i as int].name)@);
                    } else {
                        assert(families@[j] == prev[j - 1]);
                        assert(listed_from(prev, j - 1, self.fonts@));
                        let k = choose|k: int|
                            0 <= k < self.fonts@.len() && prev[j - 1]@ == (
                            #[trigger] self.fonts@[k].name)@;
                        assert(families@[j]@ == (self.fonts@[k].name)@);
                    }
                }
            }
            i = i + 1;
        }
        proof {
            assert forall|a: int, b: int|
                0 <= a < b < families@.len() implies (#[trigger] families@[a])@ != (
            #[trigger] families@[b])@ by {
                text::lemma_str_lt_irreflexive(families@[a]@);
            }
        }
        families
    }
}

/// The family name of font `k` occurs in the list `fams`.
pub open spec fn name_listed(fonts: Seq<FontData>, k: int, fams: Seq<String>) -> bool {
    exists|j: int| 0 <= j < fams.len() && fonts[k].name@ == (#[trigger] fams[j])@
}

/// Entry `j` of the list `fams` is the family name of some font.
pub open spec fn listed_from(fams: Seq<String>, j: int, fonts: Seq<FontData>) -> bool {
    exists|i: int| 0 <= i < fonts.len() && fams[j]@ == (#[trigger] fonts[i].name)@
}

impl Default for FontManager {
    /// The same manager as [`FontManager::new`].
    fn default() -> (m: Self)
        ensures
            m.default_font@ == "Noto Sans"@,
            m.fonts@.len() == 4,
    {
        Self::new()
    }
}

/// Compare two string slices for (case-sensitive) equality.
fn str_eq(a: &str, b: &str) -> (r: bool)
    ensures
        r == (a@ == b@),
{
    let a_len = a.unicode_len();
    let b_len = b.unicode_len();
    if a_len != b_len {
        proof {
            assert(a@ != b@);
        }
        return false;
    }
    let mut i: usize = 0;
    while i < a_len
        invariant
            a_len == a@.len(),
            b_len == b@.len(),
            a_len == b_len,
            i <= a_len,
            forall|j: int| 0 <= j < i ==> a@[j] == b@[j],
        decreases a_len - i,
    {
        if a.get_char(i) != b.get_char(i) {
            return false;
        }
        i = i + 1;
    }
    proof {
        assert(a@ =~= b@);
    }
    true
}

/// Whether a list of strings holds one equal to `s`.
fn contains_string(v: &Vec<String>, s: &str) -> (r: bool)
    ensures
        r == exists|j: int| 0 <= j < v@.len() && (#[trigger] v@[j])@ == s@,
{
    let n = v.len();
    let mut i: usize = 0;
    while i < n
        invariant
            n == v@.len(),
            i <= n,
            forall|j: int| 0 <= j < i ==> (#[trigger] v@[j])@ != s@,
        decreases n - i,
    {
        if str_eq(v[i].as_str(), s) {
            return true;
        }
        i = i + 1;
    }
    false
}

} // verus!
