use vstd::prelude::*;

verus! {

/// Data field for the patch
#[derive(Debug, Default, PartialEq)]
pub enum PatchField<T> {
    /// Change the value of the current field
    SetTo(T),
    /// Ignore field update
    #[default]
    Ignore,
}

/// `c` has the Unicode `White_Space` property (what `char::is_whitespace` tests).
pub open spec fn is_white_space(c: char) -> bool {
    ||| '\u{9}' <= c <= '\u{d}'
    ||| c == ' '
    ||| c == '\u{85}'
    ||| c == '\u{a0}'
    ||| c == '\u{1680}'
    ||| '\u{2000}' <= c <= '\u{200a}'
    ||| c == '\u{2028}'
    ||| c == '\u{2029}'
    ||| c == '\u{202f}'
    ||| c == '\u{205f}'
    ||| c == '\u{3000}'
}

/// The text is empty once surrounding white space is trimmed.
pub open spec fn is_blank(s: Seq<char>) -> bool {
    forall|i: int| 0 <= i < s.len() ==> is_white_space(#[trigger] s[i])
}

/// Tests whether `c` has the Unicode `White_Space` property.
pub fn char_is_white_space(c: char) -> (r: bool)
    ensures
        r == is_white_space(c),
{
    ('\u{9}' <= c && c <= '\u{d}') || c == ' ' || c == '\u{85}' || c == '\u{a0}' || c
        == '\u{1680}' || ('\u{2000}' <= c && c <= '\u{200a}') || c == '\u{2028}' || c
        == '\u{2029}' || c == '\u{202f}' || c == '\u{205f}' || c == '\u{3000}'
}

/// Tests whether `s` is empty once surrounding white space is trimmed.
pub fn str_is_blank(s: &str) -> (r: bool)
    ensures
        r == is_blank(s@),
{
    let mut blank = true;
    for c in it: s.chars()
        invariant
            it.seq() == s@,
            blank == (forall|i: int| 0 <= i < it.index() ==> is_white_space(#[trigger] s@[i])),
    {
        if !char_is_white_space(c) {
            blank = false;
        }
    }
    blank
}

impl PatchField<Option<String>> {
    /// Makes a patch of an optional text field: a text that is blank once trimmed
    /// clears the field, any other text sets it, and no text leaves it untouched.
    pub fn from_text(v: Option<String>) -> (r: PatchField<Option<String>>)
        ensures
            v is None ==> r is Ignore,
            v matches Some(s) ==> (is_blank(s@) ==> r == PatchField::<Option<String>>::SetTo(None)),
            v matches Some(s) ==> (!is_blank(s@) ==> r == PatchField::SetTo(Some(s))),
    {
        match v {
            Some(v) => {
                if str_is_blank(v.as_str()) {
                    PatchField::SetTo(None)
                } else {
                    PatchField::SetTo(Some(v))
                }
            },
            None => PatchField::Ignore,
        }
    }
}

/// The patch of an optional text field, as [`PatchField::from_text`] makes it.
pub open spec fn text_patch(v: Option<String>) -> PatchField<Option<String>> {
    match v {
        Some(s) => if is_blank(s@) {
            PatchField::SetTo(None)
        } else {
            PatchField::SetTo(Some(s))
        },
        None => PatchField::Ignore,
    }
}

/// White space law: a character is white space exactly when it has the Unicode
/// `White_Space` property, the code points U+0009..U+000D, U+0020, U+0085, U+00A0,
/// U+1680, U+2000..U+200A, U+2028, U+2029, U+202F, U+205F and U+3000 (what
/// `char::is_whitespace` tests). In particular no ASCII letter, digit or punctuation
/// character is white space, and neither is any character above U+3000, such as
/// the letters of CJK scripts.
pub proof fn lemma_white_space_is_unicode(c: char)
    ensures
        is_white_space(c) <==> {
            let u = c as u32;
            ||| 0x9 <= u <= 0xd
            ||| u == 0x20
            ||| u == 0x85
            ||| u == 0xa0
            ||| u == 0x1680
            ||| 0x2000 <= u <= 0x200a
            ||| u == 0x2028
            ||| u == 0x2029
            ||| u == 0x202f
            ||| u == 0x205f
            ||| u == 0x3000
        },
        (('0' <= c <= '9') || ('a' <= c <= 'z') || ('A' <= c <= 'Z')) ==> !is_white_space(c),
        (0x21 <= c as u32 <= 0x7e) ==> !is_white_space(c),
        (c as u32 > 0x3000) ==> !is_white_space(c),
{
}

/// Blank text law: a text is blank (empty once trimmed) exactly when every one of
/// its characters is white space. Patching an optional text field with text that
/// holds a character other than white space sets the field to that very text;
/// text made only of white space (or empty) clears the field; no text leaves the
/// field alone.
pub proof fn lemma_text_patch_keeps_visible_text(v: Option<String>)
    ensures
        v matches Some(s) ==> (is_blank(s@) <==> forall|i: int|
            0 <= i < s@.len() ==> is_white_space(#[trigger] s@[i])),
        v matches Some(s) ==> ((exists|i: int|
            0 <= i < s@.len() && !is_white_space(#[trigger] s@[i])) ==> text_patch(v)
            == PatchField::SetTo(Some(s))),
        v matches Some(s) ==> ((forall|i: int|
            0 <= i < s@.len() ==> is_white_space(#[trigger] s@[i])) ==> text_patch(v)
            == PatchField::<Option<String>>::SetTo(None)),
        v is None ==> text_patch(v) == PatchField::<Option<String>>::Ignore,
{
}

impl From<Option<String>> for PatchField<Option<String>> {
    fn from(v: Option<String>) -> (r: Self)
        ensures
            r == text_patch(v),
    {
        Self::from_text(v)
    }
}

impl vstd::std_specs::convert::FromSpecImpl<Option<String>> for PatchField<Option<String>> {
    open spec fn obeys_from_spec() -> bool {
        true
    }

    open spec fn from_spec(v: Option<String>) -> Self {
        text_patch(v)
    }
}

impl<T> From<Option<T>> for PatchField<T> {
    fn from(v: Option<T>) -> (r: Self) {
        match v {
            Some(v) => PatchField::SetTo(v),
            None => PatchField::Ignore,
        }
    }
}

impl<T> vstd::std_specs::convert::FromSpecImpl<Option<T>> for PatchField<T> {
    open spec fn obeys_from_spec() -> bool {
        true
    }

    open spec fn from_spec(v: Option<T>) -> Self {
        match v {
            Some(v) => PatchField::SetTo(v),
            None => PatchField::Ignore,
        }
    }
}

} // verus!
