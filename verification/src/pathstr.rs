//! Path handling over plain strings.
//!
//! Paths are treated as `/`-separated strings; [`PathEx::to_string_ex`]
//! first rewrites Windows separators to `/`.  The component functions
//! (file name, parent, extension) work on the character sequence alone and
//! are specified against the spec functions of this module.

use vstd::prelude::*;

verus! {

/// Every backslash rewritten to a forward slash.
pub open spec fn normalize_seps(s: Seq<char>) -> Seq<char> {
    s.map_values(|c: char| if c == '\\' { '/' } else { c })
}

/// Length of `s` without its trailing slashes.
pub open spec fn trimmed_len(s: Seq<char>) -> nat
    decreases s.len(),
{
    if s.len() > 0 && s.last() == '/' {
        trimmed_len(s.drop_last())
    } else {
        s.len()
    }
}

/// `s` without its trailing slashes.
pub open spec fn trim_trailing_seps(s: Seq<char>) -> Seq<char> {
    s.take(trimmed_len(s) as int)
}

/// Index of the last occurrence of `c` in `s`, or `-1` when absent.
pub open spec fn last_pos(s: Seq<char>, c: char) -> int
    decreases s.len(),
{
    if s.len() == 0 {
        -1
    } else if s.last() == c {
        s.len() - 1
    } else {
        last_pos(s.drop_last(), c)
    }
}

/// The file-name component of a path: what stands after the last slash once
/// trailing separators are dropped, so `a/b/` names `b` just as the path
/// component does.  The split is by `/` characters alone; dot components
/// are not treated specially.
pub open spec fn file_name_chars(s: Seq<char>) -> Seq<char> {
    let t = trim_trailing_seps(s);
    t.subrange(last_pos(t, '/') + 1, t.len() as int)
}

/// The parent of a path: what stands before the file-name component, itself
/// without trailing separators, so `a//b` has parent `a`.  A rooted path
/// keeps `/` as its parent; a path of a single component has the empty one.
pub open spec fn parent_chars(s: Seq<char>) -> Seq<char> {
    let t = trim_trailing_seps(s);
    if last_pos(t, '/') < 0 {
        Seq::empty()
    } else {
        let q = trim_trailing_seps(t.take(last_pos(t, '/')));
        if q.len() == 0 && t[0] == '/' {
            seq!['/']
        } else {
            q
        }
    }
}

/// The part of a file name after its last dot, provided that dot is not the
/// leading character: empty otherwise.
pub open spec fn ext_chars(name: Seq<char>) -> Seq<char> {
    if last_pos(name, '.') > 0 {
        name.subrange(last_pos(name, '.') + 1, name.len() as int)
    } else {
        Seq::empty()
    }
}

/// A last-occurrence index is a position in the string, when there is one.
pub proof fn lemma_last_pos_bounds(s: Seq<char>, c: char)
    ensures
        -1 <= last_pos(s, c) < s.len(),
    decreases s.len(),
{
    if s.len() > 0 && s.last() != c {
        lemma_last_pos_bounds(s.drop_last(), c);
    }
}

/// Rewrite Windows separators to `/`, character for character.
fn normalize_string(s: &str) -> (r: String)
    ensures
        r@ == normalize_seps(s@),
{
    let len = s.unicode_len();
    let mut r = String::new();
    let mut i: usize = 0;
    while i < len
        invariant
            0 <= i <= len,
            len == s@.len(),
            r@ == normalize_seps(s@.take(i as int)),
        decreases len - i,
    {
        let c = s.get_char(i);
        if c == '\\' {
            r.append("/");
            proof {
                reveal_strlit("/");
            }
        } else {
            let piece = s.substring_char(i, i + 1);
            r.append(piece);
        }
        i = i + 1;
        proof {
            assert(r@ =~= normalize_seps(s@.take(i as int)));
        }
    }
    proof {
        assert(s@.take(len as int) =~= s@);
    }
    r
}

/// Index of the last occurrence of `c` in `s`, scanning from the end.
fn find_last(s: &str, c: char) -> (r: Option<usize>)
    ensures
        match r {
            Some(i) => last_pos(s@, c) == i as int,
            None => last_pos(s@, c) == -1,
        },
{
    let len = s.unicode_len();
    let mut k = len;
    proof {
        assert(s@.take(len as int) =~= s@);
    }
    while k > 0
        invariant
            0 <= k <= len,
            len == s@.len(),
            last_pos(s@, c) == last_pos(s@.take(k as int), c),
        decreases k,
    {
        if s.get_char(k - 1) == c {
            proof {
                assert(s@.take(k as int).last() == c);
            }
            return Some(k - 1);
        }
        proof {
            assert(s@.take(k as int).drop_last() =~= s@.take(k as int - 1));
        }
        k = k - 1;
    }
    proof {
        assert(s@.take(0) =~= Seq::<char>::empty());
    }
    None
}

/// The file-name component of a path: what stands after the last slash,
/// trailing separators dropped first.
pub fn file_name_of(s: &str) -> (r: String)
    ensures
        r@ == file_name_chars(s@),
{
    let t = trim_trailing(s);
    proof {
        lemma_last_pos_bounds(t@, '/');
    }
    let len = t.as_str().unicode_len();
    match find_last(t.as_str(), '/') {
        Some(i) => {
            let piece = t.as_str().substring_char(i + 1, len);
            String::from_str(piece)
        },
        None => {
            proof {
                assert(t@.subrange(0, t@.len() as int) =~= t@);
            }
            t
        },
    }
}

/// The parent of a path: what stands before the file-name component,
/// itself without trailing separators; `/` for a rooted single component.
pub fn parent_of(s: &str) -> (r: String)
    ensures
        r@ == parent_chars(s@),
{
    let t = trim_trailing(s);
    proof {
        lemma_last_pos_bounds(t@, '/');
    }
    match find_last(t.as_str(), '/') {
        Some(i) => {
            let piece = t.as_str().substring_char(0, i);
            let q = trim_trailing(piece);
            if q.as_str().unicode_len() == 0 && t.as_str().get_char(0) == '/' {
                let root = String::from_str("/");
                proof {
                    reveal_strlit("/");
                    assert(root@ =~= seq!['/']);
                }
                root
            } else {
                q
            }
        },
        None => String::new(),
    }
}

/// The extension of a file name: what stands after its last dot, unless the
/// dot leads the name.
pub fn extension_of(name: &str) -> (r: String)
    ensures
        r@ == ext_chars(name@),
{
    proof {
        lemma_last_pos_bounds(name@, '.');
    }
    let len = name.unicode_len();
    match find_last(name, '.') {
        Some(i) => {
            if i > 0 {
                let piece = name.substring_char(i + 1, len);
                String::from_str(piece)
            } else {
                String::new()
            }
        },
        None => String::new(),
    }
}

/// Path-like values: separator normalization and trailing-separator removal.
pub trait PathEx {
    /// The characters this value stands for.
    spec fn chars(&self) -> Seq<char>;

    /// The value as a string with every backslash rewritten to `/`.
    fn to_string_ex(&self) -> (r: String)
        ensures
            r@ == normalize_seps(self.chars()),
    ;

    /// The normalized string without trailing separators.
    fn remove_ends_separator(&self) -> (r: String)
        ensures
            r@ == trim_trailing_seps(normalize_seps(self.chars())),
    ;
}

/// `remove_ends_separator`, on a string that is already normalized.
fn trim_trailing(s: &str) -> (r: String)
    ensures
        r@ == trim_trailing_seps(s@),
{
    let len = s.unicode_len();
    let mut k = len;
    proof {
        assert(s@.take(len as int) =~= s@);
    }
    while k > 0 && s.get_char(k - 1) == '/'
        invariant
            0 <= k <= len,
            len == s@.len(),
            trimmed_len(s@) == trimmed_len(s@.take(k as int)),
            forall|j: int| k <= j < len ==> s@[j] == '/',
        decreases k,
    {
        proof {
            assert(s@.take(k as int).last() == '/');
            assert(s@.take(k as int).drop_last() =~= s@.take(k as int - 1));
        }
        k = k - 1;
    }
    proof {
        if k > 0 {
            assert(s@.take(k as int).last() == s@[k as int - 1]);
        }
        assert(trimmed_len(s@.take(k as int)) == k);
    }
    let piece = s.substring_char(0, k);
    String::from_str(piece)
}

impl PathEx for str {
    open spec fn chars(&self) -> Seq<char> {
        self@
    }

    fn to_string_ex(&self) -> (r: String) {
        normalize_string(self)
    }

    fn remove_ends_separator(&self) -> (r: String) {
        let normalized = normalize_string(self);
        trim_trailing(normalized.as_str())
    }
}

impl PathEx for String {
    open spec fn chars(&self) -> Seq<char> {
        self@
    }

    fn to_string_ex(&self) -> (r: String) {
        normalize_string(self.as_str())
    }

    fn remove_ends_separator(&self) -> (r: String) {
        let normalized = normalize_string(self.as_str());
        trim_trailing(normalized.as_str())
    }
}

/// Optional path-like values: `None` stands for the empty string.
pub trait OptionPathEx {
    /// The characters this value stands for.
    spec fn opt_chars(&self) -> Seq<char>;

    /// The normalized string, or the empty string for `None`.
    fn to_string_ex(&self) -> (r: String)
        ensures
            r@ == normalize_seps(self.opt_chars()),
    ;
}

impl OptionPathEx for Option<String> {
    open spec fn opt_chars(&self) -> Seq<char> {
        match self {
            Some(s) => s@,
            None => Seq::empty(),
        }
    }

    fn to_string_ex(&self) -> (r: String) {
        match self {
            Some(s) => normalize_string(s.as_str()),
            None => {
                proof {
                    assert(normalize_seps(Seq::<char>::empty()) =~= Seq::<char>::empty());
                }
                String::new()
            },
        }
    }
}

} // verus!
