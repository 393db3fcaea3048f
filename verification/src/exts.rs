//! Classification of file names by extension.

use vstd::prelude::*;

verus! {

/// What counts as a movie extension.
pub open spec fn is_movie_ext(s: Seq<char>) -> bool {
    ||| s == "mp4"@
    ||| s == "mpeg"@
    ||| s == "mpg"@
    ||| s == "avi"@
    ||| s == "mov"@
}

/// What counts as an image extension.
pub open spec fn is_image_ext(s: Seq<char>) -> bool {
    ||| s == "jpeg"@
    ||| s == "jpg"@
    ||| s == "gif"@
    ||| s == "webp"@
    ||| s == "png"@
}

/// What counts as a zip-archive extension.
pub open spec fn is_zip_ext(s: Seq<char>) -> bool {
    s == "zip"@
}

/// Character-for-character equality of two string slices.
pub fn str_eq(a: &str, b: &str) -> (r: bool)
    ensures
        r == (a@ == b@),
{
    let alen = a.unicode_len();
    let blen = b.unicode_len();
    if alen != blen {
        return false;
    }
    let mut i: usize = 0;
    while i < alen
        invariant
            0 <= i <= alen,
            alen == a@.len(),
            alen == b@.len(),
            forall|j: int| 0 <= j < i ==> a@[j] == b@[j],
        decreases alen - i,
    {
        if a.get_char(i) != b.get_char(i) {
            return false;
        }
        i += 1;
    }
    proof {
        assert(a@ =~= b@);
    }
    true
}

/// An upper-case ASCII letter mapped to its lower-case form; anything else
/// kept as it is.
pub open spec fn lower_char(c: char) -> char {
    if 'A' <= c && c <= 'Z' {
        (((c as u32) + 32) as u8) as char
    } else {
        c
    }
}

/// `s` with upper-case ASCII letters lowered.
pub open spec fn ascii_lower(s: Seq<char>) -> Seq<char> {
    s.map_values(|c: char| lower_char(c))
}

/// `lower_char`, executably.
pub fn to_lower_char(c: char) -> (r: char)
    ensures
        r == lower_char(c),
{
    let v = c as u32;
    if 65 <= v && v <= 90 {
        ((v + 32) as u8) as char
    } else {
        c
    }
}

/// Whether `a`, lowered ASCII-wise, equals `b` character for character.
pub fn str_eq_lower(a: &str, b: &str) -> (r: bool)
    ensures
        r == (ascii_lower(a@) == b@),
{
    let alen = a.unicode_len();
    let blen = b.unicode_len();
    if alen != blen {
        return false;
    }
    let mut i: usize = 0;
    while i < alen
        invariant
            0 <= i <= alen,
            alen == a@.len(),
            alen == b@.len(),
            forall|j: int| 0 <= j < i ==> lower_char(a@[j]) == b@[j],
        decreases alen - i,
    {
        if to_lower_char(a.get_char(i)) != b.get_char(i) {
            proof {
                assert(ascii_lower(a@)[i as int] != b@[i as int]);
            }
            return false;
        }
        i += 1;
    }
    proof {
        assert(ascii_lower(a@) =~= b@);
    }
    true
}

/// Whether `extension` names a movie file, ignoring ASCII case.
pub fn is_movie_ignore_case(extension: &str) -> (r: bool)
    ensures
        r == is_movie_ext(ascii_lower(extension@)),
{
    str_eq_lower(extension, "mp4") || str_eq_lower(extension, "mpeg") || str_eq_lower(
        extension,
        "mpg",
    ) || str_eq_lower(extension, "avi") || str_eq_lower(extension, "mov")
}

/// Whether `extension` names an image file, ignoring ASCII case.
pub fn is_image_ignore_case(extension: &str) -> (r: bool)
    ensures
        r == is_image_ext(ascii_lower(extension@)),
{
    str_eq_lower(extension, "jpeg") || str_eq_lower(extension, "jpg") || str_eq_lower(
        extension,
        "gif",
    ) || str_eq_lower(extension, "webp") || str_eq_lower(extension, "png")
}

/// Whether `extension` names a movie file.
pub fn is_movie(extension: &str) -> (r: bool)
    ensures
        r == is_movie_ext(extension@),
{
    str_eq(extension, "mp4") || str_eq(extension, "mpeg") || str_eq(extension, "mpg")
        || str_eq(extension, "avi") || str_eq(extension, "mov")
}

/// Whether `extension` names an image file.
pub fn is_image(extension: &str) -> (r: bool)
    ensures
        r == is_image_ext(extension@),
{
    str_eq(extension, "jpeg") || str_eq(extension, "jpg") || str_eq(extension, "gif")
        || str_eq(extension, "webp") || str_eq(extension, "png")
}

/// Whether `extension` names a zip archive.
pub fn is_zip(extension: &str) -> (r: bool)
    ensures
        r == is_zip_ext(extension@),
{
    str_eq(extension, "zip")
}

} // verus!
