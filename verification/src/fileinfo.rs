//! File records: metadata, per-path information, and listing trees.
//!
//! [`FileMeta`] holds what one metadata fetch yields; [`FileInfo`] is the
//! record the application shows for one path; [`FileEntry`] pairs a record
//! with host-chosen extra data and child entries, which lets a directory
//! listing stand as a tree of plain values.  [`read_dir_deep`] flattens such
//! a tree to a bounded depth, level entries first, exactly as the listing
//! functions of the host present it.

use vstd::prelude::*;

use crate::exts::is_image;
use crate::exts::is_image_ext;
use crate::exts::is_movie;
use crate::exts::is_movie_ext;
use crate::exts::ascii_lower;
use crate::exts::is_image_ignore_case;
use crate::exts::is_movie_ignore_case;
use crate::pathstr::ext_chars;
use crate::pathstr::file_name_chars;
use crate::pathstr::parent_chars;
use crate::pathstr::extension_of;
use crate::pathstr::file_name_of;
use crate::pathstr::parent_of;

verus! {

/// What one filesystem metadata fetch yields, as plain values.
#[derive(Clone, Copy, Debug, PartialEq, Eq, Structural)]
pub struct FileMeta {
    pub is_dir: bool,
    pub is_file: bool,
    pub is_symlink: bool,
    /// Seconds since the epoch; `0` when unavailable.
    pub modified: u64,
    /// Seconds since the epoch; `0` when unavailable.
    pub created: u64,
    pub size: u64,
    pub is_image: bool,
    pub is_movie: bool,
}

impl Default for FileMeta {
    /// The record of a path whose metadata could not be read.
    fn default() -> (r: FileMeta)
        ensures
            r == (FileMeta {
                is_dir: false,
                is_file: false,
                is_symlink: false,
                modified: 0,
                created: 0,
                size: 0,
                is_image: false,
                is_movie: false,
            }),
    {
        FileMeta {
            is_dir: false,
            is_file: false,
            is_symlink: false,
            modified: 0,
            created: 0,
            size: 0,
            is_image: false,
            is_movie: false,
        }
    }
}

impl FileMeta {
    /// A record assembled from one metadata fetch, classifying the file by
    /// its extension with ASCII case ignored.
    pub fn from_parts(
        is_dir: bool,
        is_file: bool,
        is_symlink: bool,
        modified: u64,
        created: u64,
        size: u64,
        extension: &str,
    ) -> (r: FileMeta)
        ensures
            r.is_dir == is_dir,
            r.is_file == is_file,
            r.is_symlink == is_symlink,
            r.modified == modified,
            r.created == created,
            r.size == size,
            r.is_image == is_image_ext(ascii_lower(extension@)),
            r.is_movie == is_movie_ext(ascii_lower(extension@)),
    {
        FileMeta {
            is_dir,
            is_file,
            is_symlink,
            modified,
            created,
            size,
            is_image: is_image_ignore_case(extension),
            is_movie: is_movie_ignore_case(extension),
        }
    }
}

/// The record the application keeps for one path.
pub struct FileInfo {
    pub path: String,
    pub dir: String,
    pub file_name: String,
    pub extension: String,
    /// Seconds since the epoch; `0` when unavailable.
    pub modified: u64,
    /// Seconds since the epoch; `0` when unavailable.
    pub created: u64,
    pub is_dir: bool,
    pub is_file: bool,
    pub is_image: bool,
    pub is_movie: bool,
}

/// [`FileInfo`] with its strings as character sequences.
#[verifier::ext_equal]
pub struct FileInfoView {
    pub path: Seq<char>,
    pub dir: Seq<char>,
    pub file_name: Seq<char>,
    pub extension: Seq<char>,
    pub modified: u64,
    pub created: u64,
    pub is_dir: bool,
    pub is_file: bool,
    pub is_image: bool,
    pub is_movie: bool,
}

impl View for FileInfo {
    type V = FileInfoView;

    open spec fn view(&self) -> FileInfoView {
        FileInfoView {
            path: self.path@,
            dir: self.dir@,
            file_name: self.file_name@,
            extension: self.extension@,
            modified: self.modified,
            created: self.created,
            is_dir: self.is_dir,
            is_file: self.is_file,
            is_image: self.is_image,
            is_movie: self.is_movie,
        }
    }
}

impl Clone for FileInfo {
    fn clone(&self) -> (r: FileInfo)
        ensures
            r == *self,
    {
        FileInfo {
            path: self.path.clone(),
            dir: self.dir.clone(),
            file_name: self.file_name.clone(),
            extension: self.extension.clone(),
            modified: self.modified,
            created: self.created,
            is_dir: self.is_dir,
            is_file: self.is_file,
            is_image: self.is_image,
            is_movie: self.is_movie,
        }
    }
}

impl Default for FileInfo {
    /// A record with empty strings and every flag off.
    fn default() -> (r: FileInfo)
        ensures
            r@.path == Seq::<char>::empty(),
            r@.dir == Seq::<char>::empty(),
            r@.file_name == Seq::<char>::empty(),
            r@.extension == Seq::<char>::empty(),
            r.modified == 0,
            r.created == 0,
            !r.is_dir,
            !r.is_file,
            !r.is_image,
            !r.is_movie,
    {
        FileInfo {
            path: String::new(),
            dir: String::new(),
            file_name: String::new(),
            extension: String::new(),
            modified: 0,
            created: 0,
            is_dir: false,
            is_file: false,
            is_image: false,
            is_movie: false,
        }
    }
}

/// The record for `path`, taking what only a metadata fetch can know from
/// `meta` and deriving the rest from the path's characters.
pub fn str_to_fileinfo(path: &str, meta: &FileMeta) -> (r: FileInfo)
    ensures
        r@.path == path@,
        r@.dir == parent_chars(path@),
        r@.file_name == file_name_chars(path@),
        r@.extension == ext_chars(file_name_chars(path@)),
        r.modified == meta.modified,
        r.created == meta.created,
        r.is_dir == meta.is_dir,
        r.is_file == meta.is_file,
        r.is_image == is_image_ext(ext_chars(file_name_chars(path@))),
        r.is_movie == is_movie_ext(ext_chars(file_name_chars(path@))),
{
    let file_name = file_name_of(path);
    let extension = extension_of(file_name.as_str());
    let dir = parent_of(path);
    let image = is_image(extension.as_str());
    let movie = is_movie(extension.as_str());
    FileInfo {
        path: String::from_str(path),
        dir,
        file_name,
        extension,
        modified: meta.modified,
        created: meta.created,
        is_dir: meta.is_dir,
        is_file: meta.is_file,
        is_image: image,
        is_movie: movie,
    }
}

/// A file record together with host-chosen extra data and child entries.
pub struct FileEntry<T> {
    pub info: FileInfo,
    pub meta: T,
    pub children: Vec<FileEntry<T>>,
}

impl<T> FileEntry<T> {
    /// An entry without children.
    pub fn new(info: FileInfo, meta: T) -> (r: FileEntry<T>)
        ensures
            r.info == info,
            r.meta == meta,
            r.children@ == Seq::<FileEntry<T>>::empty(),
    {
        FileEntry { info, meta, children: Vec::new() }
    }
}

/// The records of one listing level, in order.
pub open spec fn level_infos<T>(es: Seq<FileEntry<T>>) -> Seq<FileInfo> {
    es.map_values(|e: FileEntry<T>| e.info)
}

/// What one entry contributes below its own level: nothing for a plain file,
/// the flattened subtree for a directory.
pub open spec fn child_infos<T>(e: FileEntry<T>, max: nat, d: nat) -> Seq<FileInfo>
    decreases max - d, 0nat,
        when d < max
{
    if e.info.is_dir {
        level_infos(e.children@) + kids_infos(e.children@, max, d + 1)
    } else {
        Seq::empty()
    }
}

/// The flattened subtrees of every directory among `es`, in order, for
/// levels below `d`, stopping at depth `max`.
pub open spec fn kids_infos<T>(es: Seq<FileEntry<T>>, max: nat, d: nat) -> Seq<FileInfo>
    decreases max - d, es.len() + 1,
{
    if d >= max || es.len() == 0 {
        Seq::empty()
    } else {
        child_infos(es.first(), max, d) + kids_infos(es.drop_first(), max, d)
    }
}

/// The whole flattened listing: the level's records first, then, depth
/// allowing, the flattened subtree of each directory in level order.
pub open spec fn deep_infos<T>(es: Seq<FileEntry<T>>, max: nat) -> Seq<FileInfo> {
    level_infos(es) + kids_infos(es, max, 0)
}

proof fn lemma_kids_snoc<T>(es: Seq<FileEntry<T>>, e: FileEntry<T>, max: nat, d: nat)
    requires
        d < max,
    ensures
        kids_infos(es.push(e), max, d) == kids_infos(es, max, d) + child_infos(e, max, d),
    decreases es.len(),
{
    if es.len() == 0 {
        assert(es.push(e).first() == e);
        assert(es.push(e).drop_first() =~= Seq::<FileEntry<T>>::empty());
        assert(kids_infos(es.push(e), max, d) == child_infos(e, max, d) + kids_infos(
            es.push(e).drop_first(),
            max,
            d,
        ));
        assert(kids_infos(Seq::<FileEntry<T>>::empty(), max, d) == Seq::<FileInfo>::empty());
        assert(kids_infos(es.push(e), max, d) =~= kids_infos(es, max, d) + child_infos(e, max, d));
    } else {
        assert(es.push(e).first() == es.first());
        assert(es.push(e).drop_first() =~= es.drop_first().push(e));
        lemma_kids_snoc(es.drop_first(), e, max, d);
        assert(kids_infos(es.push(e), max, d) == child_infos(es.first(), max, d) + kids_infos(
            es.drop_first().push(e),
            max,
            d,
        ));
        assert(kids_infos(es, max, d) == child_infos(es.first(), max, d) + kids_infos(
            es.drop_first(),
            max,
            d,
        ));
        assert(kids_infos(es.push(e), max, d) =~= kids_infos(es, max, d) + child_infos(e, max, d));
    }
}

fn push_level<T>(es: &Vec<FileEntry<T>>, out: &mut Vec<FileInfo>)
    ensures
        final(out)@ == old(out)@ + level_infos(es@),
{
    proof {
        assert(old(out)@ + level_infos(es@.take(0)) =~= old(out)@);
    }
    let mut i: usize = 0;
    while i < es.len()
        invariant
            0 <= i <= es@.len(),
            out@ == old(out)@ + level_infos(es@.take(i as int)),
        decreases es@.len() - i,
    {
        let info = es[i].info.clone();
        out.push(info);
        i += 1;
        proof {
            assert(out@ =~= old(out)@ + level_infos(es@.take(i as int)));
        }
    }
    proof {
        assert(es@.take(es@.len() as int) =~= es@);
    }
}

fn push_kids<T>(es: &Vec<FileEntry<T>>, max: usize, d: usize, out: &mut Vec<FileInfo>)
    requires
        d <= max,
    ensures
        final(out)@ == old(out)@ + kids_infos(es@, max as nat, d as nat),
    decreases max - d,
{
    if d >= max {
        proof {
            assert(old(out)@ + kids_infos(es@, max as nat, d as nat) =~= old(out)@);
        }
        return ;
    }
    proof {
        assert(old(out)@ + kids_infos(es@.take(0), max as nat, d as nat) =~= old(out)@);
    }
    let mut i: usize = 0;
    while i < es.len()
        invariant
            0 <= i <= es@.len(),
            d < max,
            out@ == old(out)@ + kids_infos(es@.take(i as int), max as nat, d as nat),
        decreases es@.len() - i,
    {
        if es[i].info.is_dir {
            push_level(&es[i].children, out);
            push_kids(&es[i].children, max, d + 1, out);
        }
        proof {
            assert(es@.take(i + 1) =~= es@.take(i as int).push(es@[i as int]));
            lemma_kids_snoc(es@.take(i as int), es@[i as int], max as nat, d as nat);
            assert(out@ =~= old(out)@ + kids_infos(es@.take(i + 1), max as nat, d as nat));
        }
        i += 1;
    }
    proof {
        assert(es@.take(es@.len() as int) =~= es@);
    }
}

/// Flatten a listing tree to depth `deep`: the level's records first, then
/// each directory's flattened subtree, in level order.  Depth `0` lists the
/// given level alone.
pub fn read_dir_deep<T>(entries: &Vec<FileEntry<T>>, deep: usize) -> (r: Vec<FileInfo>)
    ensures
        r@ == deep_infos(entries@, deep as nat),
{
    let mut out: Vec<FileInfo> = Vec::new();
    push_level(entries, &mut out);
    push_kids(entries, deep, 0, &mut out);
    proof {
        assert(out@ =~= deep_infos(entries@, deep as nat));
    }
    out
}

} // verus!
