//! Zip-listing records and the completion of implicit directories.
//!
//! A zip archive lists its entries flat; directories often have no entry of
//! their own.  [`ZipInfo`] is the record for one entry, and
//! [`ZipEx::complete_dirs`] appends a synthetic directory record for every
//! ancestor path of a listed file that no listed directory covers — so a
//! host that read the raw entry table gets a listing whose tree is closed
//! under parents.

use vstd::prelude::*;

use crate::exts::is_image_ext;
use crate::exts::is_movie_ext;
use crate::exts::str_eq;
use crate::fileinfo::FileInfo;
use crate::fileinfo::FileInfoView;
use crate::fileinfo::FileMeta;
use crate::fileinfo::str_to_fileinfo;
use crate::pathstr::PathEx;
use crate::pathstr::ext_chars;
use crate::pathstr::file_name_chars;
use crate::pathstr::normalize_seps;
use crate::pathstr::parent_chars;
use crate::pathstr::trim_trailing_seps;

verus! {

/// The record for one zip entry: its index in the archive, the archive's
/// path, its own name inside the archive, and what kind of entry it is.
pub struct ZipInfo {
    pub index: usize,
    pub zip_path: String,
    pub name: String,
    pub is_dir: bool,
    pub is_file: bool,
    pub size: u64,
}

/// [`ZipInfo`] with its strings as character sequences.
#[verifier::ext_equal]
pub struct ZipInfoView {
    pub index: usize,
    pub zip_path: Seq<char>,
    pub name: Seq<char>,
    pub is_dir: bool,
    pub is_file: bool,
    pub size: u64,
}

impl View for ZipInfo {
    type V = ZipInfoView;

    open spec fn view(&self) -> ZipInfoView {
        ZipInfoView {
            index: self.index,
            zip_path: self.zip_path@,
            name: self.name@,
            is_dir: self.is_dir,
            is_file: self.is_file,
            size: self.size,
        }
    }
}

impl Clone for ZipInfo {
    fn clone(&self) -> (r: ZipInfo)
        ensures
            r == *self,
    {
        ZipInfo {
            index: self.index,
            zip_path: self.zip_path.clone(),
            name: self.name.clone(),
            is_dir: self.is_dir,
            is_file: self.is_file,
            size: self.size,
        }
    }
}

/// The characters of an entry's full path: the archive path and the entry
/// name joined with a slash, normalized and without trailing separators.
pub open spec fn full_path_chars(zip_path: Seq<char>, name: Seq<char>) -> Seq<char> {
    trim_trailing_seps(normalize_seps(zip_path + seq!['/'] + name))
}

impl ZipInfo {
    /// A fresh record for entry `index`: paths normalized, the entry name
    /// also without trailing separators, kind and size still unset.
    pub fn new(index: usize, zip_path: &str, name: &str) -> (r: ZipInfo)
        ensures
            r.index == index,
            r@.zip_path == normalize_seps(zip_path@),
            r@.name == trim_trailing_seps(normalize_seps(name@)),
            !r.is_dir,
            !r.is_file,
            r.size == 0,
    {
        ZipInfo {
            index,
            zip_path: zip_path.to_string_ex(),
            name: name.remove_ends_separator(),
            is_dir: false,
            is_file: false,
            size: 0,
        }
    }

    /// Fill in what only the archive entry itself can tell — its kind and
    /// size — and hand back a copy of the finished record.
    pub fn set_metas(&mut self, is_dir: bool, is_file: bool, size: u64) -> (r: ZipInfo)
        ensures
            *final(self) == (ZipInfo { is_dir, is_file, size, ..*old(self) }),
            r == *final(self),
    {
        self.is_dir = is_dir;
        self.is_file = is_file;
        self.size = size;
        self.clone()
    }

    /// The entry's full path: archive path and entry name joined by a slash,
    /// normalized, without trailing separators.
    pub fn full_path(&self) -> (r: String)
        ensures
            r@ == full_path_chars(self.zip_path@, self.name@),
    {
        let joined = self.zip_path.clone().concat("/").concat(self.name.as_str());
        proof {
            reveal_strlit("/");
            assert("/"@ =~= seq!['/']);
            assert(joined@ == self.zip_path@ + seq!['/'] + self.name@);
        }
        joined.remove_ends_separator()
    }
}

/// The file record shown for one zip entry: its full path decomposed as for
/// any other path, its kind taken from the entry, and timestamps unknown.
pub open spec fn zip_file_info_view(z: ZipInfo) -> FileInfoView {
    FileInfoView {
        path: full_path_chars(z.zip_path@, z.name@),
        dir: parent_chars(full_path_chars(z.zip_path@, z.name@)),
        file_name: file_name_chars(full_path_chars(z.zip_path@, z.name@)),
        extension: ext_chars(file_name_chars(full_path_chars(z.zip_path@, z.name@))),
        modified: 0,
        created: 0,
        is_dir: z.is_dir,
        is_file: z.is_file,
        is_image: is_image_ext(ext_chars(file_name_chars(full_path_chars(z.zip_path@, z.name@)))),
        is_movie: is_movie_ext(ext_chars(file_name_chars(full_path_chars(z.zip_path@, z.name@)))),
    }
}

/// Whether `p` is a proper ancestor path of `name`: what stands before one
/// of its slashes.
pub open spec fn is_dir_prefix(name: Seq<char>, p: Seq<char>) -> bool {
    exists|s: int| 0 <= s < name.len() && name[s] == '/' && p == name.take(s)
}

/// Whether the listing holds a directory entry named `p`.
pub open spec fn has_dir_named(infos: Seq<ZipInfo>, p: Seq<char>) -> bool {
    exists|k: int| 0 <= k < infos.len() && infos[k].is_dir && infos[k].name@ == p
}

/// Whether `p` is an ancestor of some listed file that no listed directory
/// entry covers.
pub open spec fn missing_dir(infos: Seq<ZipInfo>, p: Seq<char>) -> bool {
    &&& exists|k: int|
        0 <= k < infos.len() && !infos[k].is_dir && is_dir_prefix(infos[k].name@, p)
    &&& !has_dir_named(infos, p)
}

/// What a record appended by `complete_dirs` must be: a synthetic directory
/// entry for a missing ancestor path.
pub open spec fn is_added_dir(z: ZipInfo, zip_path: Seq<char>, orig: Seq<ZipInfo>) -> bool {
    &&& z.index == 0
    &&& z.is_dir
    &&& !z.is_file
    &&& z.size == 0
    &&& z.zip_path@ == normalize_seps(zip_path)
    &&& missing_dir(orig, z.name@)
}

/// Whether some name in `names` spells `p`.
pub open spec fn name_listed(names: Seq<String>, p: Seq<char>) -> bool {
    exists|m: int| 0 <= m < names.len() && names[m]@ == p
}

/// Whether an entry at or past `from` is named `p`.
pub open spec fn added_has(s: Seq<ZipInfo>, from: int, p: Seq<char>) -> bool {
    exists|j: int| from <= j < s.len() && s[j].name@ == p
}

/// Whether the ancestor path `p` needs no further entry: a listed directory
/// covers it, or an appended one does.
pub open spec fn covered(s: Seq<ZipInfo>, from: int, orig: Seq<ZipInfo>, p: Seq<char>) -> bool {
    has_dir_named(orig, p) || added_has(s, from, p)
}

fn contains_name(names: &Vec<String>, p: &str) -> (r: bool)
    ensures
        r == name_listed(names@, p@),
{
    let mut m: usize = 0;
    while m < names.len()
        invariant
            0 <= m <= names@.len(),
            forall|m2: int| 0 <= m2 < m ==> names@[m2]@ != p@,
        decreases names@.len() - m,
    {
        if str_eq(names[m].as_str(), p) {
            return true;
        }
        m += 1;
    }
    false
}

fn contains_added(out: &Vec<ZipInfo>, from: usize, p: &str) -> (r: bool)
    requires
        from <= out@.len(),
    ensures
        r == added_has(out@, from as int, p@),
{
    let mut j = from;
    while j < out.len()
        invariant
            from <= j <= out@.len(),
            forall|j2: int| from <= j2 < j ==> out@[j2].name@ != p@,
        decreases out@.len() - j,
    {
        if str_eq(out[j].name.as_str(), p) {
            return true;
        }
        j += 1;
    }
    false
}

/// Pure logic shared with the archive reader of the host.
pub struct ZipEx {}

impl ZipEx {
    /// The file record for one zip entry.
    pub fn file_info(z: &ZipInfo) -> (r: FileInfo)
        ensures
            r@ == zip_file_info_view(*z),
    {
        let full = z.full_path();
        let meta = FileMeta {
            is_dir: z.is_dir,
            is_file: z.is_file,
            is_symlink: false,
            modified: 0,
            created: 0,
            size: z.size,
            is_image: false,
            is_movie: false,
        };
        let r = str_to_fileinfo(full.as_str(), &meta);
        proof {
            assert(r@ =~= zip_file_info_view(*z));
        }
        r
    }

    /// The file records for a whole listing, entry by entry.
    pub fn file_infos(infos: &Vec<ZipInfo>) -> (r: Vec<FileInfo>)
        ensures
            r@.len() == infos@.len(),
            forall|j: int|
                0 <= j < r@.len() ==> (#[trigger] r@[j])@ == zip_file_info_view(infos@[j]),
    {
        let mut r: Vec<FileInfo> = Vec::new();
        let mut i: usize = 0;
        while i < infos.len()
            invariant
                0 <= i <= infos@.len(),
                r@.len() == i,
                forall|j: int|
                    0 <= j < i ==> (#[trigger] r@[j])@ == zip_file_info_view(infos@[j]),
            decreases infos@.len() - i,
        {
            r.push(Self::file_info(&infos[i]));
            i += 1;
        }
        r
    }

    /// Append a synthetic directory record for every ancestor path of a
    /// listed file that no listed directory entry covers.  The given records
    /// stay first and untouched; every appended record is such a directory,
    /// no ancestor is appended twice, and none is forgotten.
    pub fn complete_dirs(zip_path: &str, infos: Vec<ZipInfo>) -> (res: Vec<ZipInfo>)
        ensures
            res@.len() >= infos@.len(),
            res@.subrange(0, infos@.len() as int) == infos@,
            forall|j: int|
                infos@.len() <= j < res@.len() ==> is_added_dir(
                    #[trigger] res@[j],
                    zip_path@,
                    infos@,
                ),
            forall|j: int, j2: int|
                infos@.len() <= j < j2 < res@.len() ==> res@[j].name@ != res@[j2].name@,
            forall|p: Seq<char>|
                #[trigger] missing_dir(infos@, p) ==> added_has(res@, infos@.len() as int, p),
    {
        let n = infos.len();
        let ghost orig = infos@;

        let mut dir_names: Vec<String> = Vec::new();
        let mut k: usize = 0;
        while k < n
            invariant
                0 <= k <= n,
                n == orig.len(),
                orig == infos@,
                forall|m: int|
                    0 <= m < dir_names@.len() ==> has_dir_named(orig, #[trigger] dir_names@[m]@),
                forall|k2: int|
                    0 <= k2 < k && (#[trigger] orig[k2]).is_dir ==> name_listed(
                        dir_names@,
                        orig[k2].name@,
                    ),
            decreases n - k,
        {
            if infos[k].is_dir {
                let ghost dn0 = dir_names@;
                dir_names.push(infos[k].name.clone());
                proof {
                    assert forall|k2: int|
                        0 <= k2 < k + 1 && (#[trigger] orig[k2]).is_dir implies name_listed(
                        dir_names@,
                        orig[k2].name@,
                    ) by {
                        if k2 == k {
                            assert(dir_names@[dn0.len() as int]@ == orig[k2].name@);
                        } else {
                            let m = choose|m: int| 0 <= m < dn0.len() && dn0[m]@ == orig[k2].name@;
                            assert(dir_names@[m]@ == orig[k2].name@);
                        }
                    }
                }
            }
            k += 1;
        }

        let zp = zip_path.to_string_ex();
        let mut out = infos;
        let mut i: usize = 0;
        while i < n
            invariant
                0 <= i <= n,
                n == orig.len(),
                out@.len() >= n,
                out@.subrange(0, n as int) == orig,
                zp@ == normalize_seps(zip_path@),
                forall|m: int|
                    0 <= m < dir_names@.len() ==> has_dir_named(orig, #[trigger] dir_names@[m]@),
                forall|k2: int|
                    0 <= k2 < n && (#[trigger] orig[k2]).is_dir ==> name_listed(
                        dir_names@,
                        orig[k2].name@,
                    ),
                forall|j: int|
                    n <= j < out@.len() ==> is_added_dir(#[trigger] out@[j], zip_path@, orig),
                forall|j: int, j2: int|
                    n <= j < j2 < out@.len() ==> out@[j].name@ != out@[j2].name@,
                forall|k2: int, s: int|
                    0 <= k2 < i && !orig[k2].is_dir && 0 <= s < orig[k2].name@.len() && (
                    #[trigger] orig[k2].name@[s]) == '/' ==> covered(
                        out@,
                        n as int,
                        orig,
                        orig[k2].name@.take(s),
                    ),
            decreases n - i,
        {
            let entry_is_dir = out[i].is_dir;
            if !entry_is_dir {
                let name_i = out[i].name.clone();
                proof {
                    assert(out@.subrange(0, n as int)[i as int] == out@[i as int]);
                    assert(name_i@ == orig[i as int].name@);
                }
                let len_i = name_i.as_str().unicode_len();
                let mut s: usize = 0;
                while s < len_i
                    invariant
                        0 <= s <= len_i,
                        0 <= i < n,
                        n == orig.len(),
                        len_i == name_i@.len(),
                        name_i@ == orig[i as int].name@,
                        !orig[i as int].is_dir,
                        out@.len() >= n,
                        out@.subrange(0, n as int) == orig,
                        zp@ == normalize_seps(zip_path@),
                        forall|m: int|
                            0 <= m < dir_names@.len() ==> has_dir_named(
                                orig,
                                #[trigger] dir_names@[m]@,
                            ),
                        forall|k2: int|
                            0 <= k2 < n && (#[trigger] orig[k2]).is_dir ==> name_listed(
                                dir_names@,
                                orig[k2].name@,
                            ),
                        forall|j: int|
                            n <= j < out@.len() ==> is_added_dir(
                                #[trigger] out@[j],
                                zip_path@,
                                orig,
                            ),
                        forall|j: int, j2: int|
                            n <= j < j2 < out@.len() ==> out@[j].name@ != out@[j2].name@,
                        forall|k2: int, s2: int|
                            0 <= k2 < i && !orig[k2].is_dir && 0 <= s2 < orig[k2].name@.len() && (
                            #[trigger] orig[k2].name@[s2]) == '/' ==> covered(
                                out@,
                                n as int,
                                orig,
                                orig[k2].name@.take(s2),
                            ),
                        forall|s2: int|
                            0 <= s2 < s && (#[trigger] name_i@[s2]) == '/' ==> covered(
                                out@,
                                n as int,
                                orig,
                                name_i@.take(s2),
                            ),
                    decreases len_i - s,
                {
                    let c = name_i.as_str().get_char(s);
                    if c == '/' {
                        let prefix = name_i.as_str().substring_char(0, s);
                        proof {
                            assert(prefix@ =~= name_i@.take(s as int));
                        }
                        if !contains_name(&dir_names, prefix) && !contains_added(&out, n, prefix) {
                            let added = ZipInfo {
                                index: 0,
                                zip_path: zp.clone(),
                                name: String::from_str(prefix),
                                is_dir: true,
                                is_file: false,
                                size: 0,
                            };
                            proof {
                                assert(is_dir_prefix(orig[i as int].name@, prefix@));
                                assert(!has_dir_named(orig, prefix@)) by {
                                    if has_dir_named(orig, prefix@) {
                                        let k2 = choose|k2: int|
                                            0 <= k2 < orig.len() && orig[k2].is_dir
                                                && orig[k2].name@ == prefix@;
                                        assert(name_listed(dir_names@, orig[k2].name@));
                                    }
                                }
                                assert(missing_dir(orig, prefix@));
                            }
                            let ghost out0 = out@;
                            out.push(added);
                            proof {
                                let newlast = out@.len() - 1;
                                assert(out@.subrange(0, n as int) =~= out0.subrange(0, n as int));
                                assert(out@[newlast].name@ == prefix@);
                                assert(added_has(out@, n as int, prefix@));
                                assert forall|j: int| n <= j < out@.len() implies is_added_dir(
                                    #[trigger] out@[j],
                                    zip_path@,
                                    orig,
                                ) by {
                                    if j < newlast {
                                        assert(out@[j] == out0[j]);
                                    }
                                }
                                assert forall|j: int, j2: int|
                                    n <= j < j2 < out@.len() implies out@[j].name@
                                    != out@[j2].name@ by {
                                    if j2 == newlast {
                                        assert(out@[j] == out0[j]);
                                        if out0[j].name@ == prefix@ {
                                            assert(added_has(out0, n as int, prefix@));
                                        }
                                    } else {
                                        assert(out@[j] == out0[j]);
                                        assert(out@[j2] == out0[j2]);
                                    }
                                }
                                assert forall|k2: int, s2: int|
                                    0 <= k2 < i && !orig[k2].is_dir && 0 <= s2
                                        < orig[k2].name@.len() && (#[trigger] orig[k2].name@[s2])
                                        == '/' implies covered(
                                    out@,
                                    n as int,
                                    orig,
                                    orig[k2].name@.take(s2),
                                ) by {
                                    if !has_dir_named(orig, orig[k2].name@.take(s2)) {
                                        let j = choose|j: int|
                                            n <= j < out0.len() && out0[j].name@
                                                == orig[k2].name@.take(s2);
                                        assert(out@[j].name@ == orig[k2].name@.take(s2));
                                    }
                                }
                                assert forall|s2: int|
                                    0 <= s2 < s && (#[trigger] name_i@[s2])
                                        == '/' implies covered(
                                    out@,
                                    n as int,
                                    orig,
                                    name_i@.take(s2),
                                ) by {
                                    if !has_dir_named(orig, name_i@.take(s2)) {
                                        let j = choose|j: int|
                                            n <= j < out0.len() && out0[j].name@ == name_i@.take(
                                                s2,
                                            );
                                        assert(out@[j].name@ == name_i@.take(s2));
                                    }
                                }
                            }
                        }
                        proof {
                            assert(covered(out@, n as int, orig, name_i@.take(s as int)));
                        }
                    }
                    s += 1;
                }
                proof {
                    assert forall|k2: int, s2: int|
                        0 <= k2 < i + 1 && !orig[k2].is_dir && 0 <= s2 < orig[k2].name@.len() && (
                        #[trigger] orig[k2].name@[s2]) == '/' implies covered(
                        out@,
                        n as int,
                        orig,
                        orig[k2].name@.take(s2),
                    ) by {
                        if k2 == i {
                            assert(name_i@[s2] == '/');
                        }
                    }
                }
            }
            i += 1;
        }
        proof {
            assert forall|p: Seq<char>| #[trigger] missing_dir(orig, p) implies added_has(
                out@,
                n as int,
                p,
            ) by {
                let k2 = choose|k2: int|
                    0 <= k2 < orig.len() && !orig[k2].is_dir && is_dir_prefix(orig[k2].name@, p);
                let s = choose|s: int|
                    0 <= s < orig[k2].name@.len() && orig[k2].name@[s] == '/' && p
                        == orig[k2].name@.take(s);
                assert(orig[k2].name@[s] == '/');
                assert(covered(out@, n as int, orig, orig[k2].name@.take(s)));
            }
        }
        out
    }
}

} // verus!
