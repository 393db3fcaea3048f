use filer_core::exts::is_image;
use filer_core::exts::is_image_ignore_case;
use filer_core::exts::is_movie;
use filer_core::exts::is_movie_ignore_case;
use filer_core::exts::is_zip;
use filer_core::exts::str_eq;
use filer_core::exts::str_eq_lower;
use filer_core::fileinfo::FileEntry;
use filer_core::fileinfo::FileInfo;
use filer_core::fileinfo::FileMeta;
use filer_core::fileinfo::read_dir_deep;
use filer_core::fileinfo::str_to_fileinfo;
use filer_core::pathstr::extension_of;
use filer_core::pathstr::file_name_of;
use filer_core::pathstr::parent_of;
use filer_core::pathstr::OptionPathEx;
use filer_core::pathstr::PathEx;

#[test]
fn test_str_eq() {
    assert!(str_eq("", ""));
    assert!(str_eq("abc", "abc"));
    assert!(!str_eq("abc", "abd"));
    assert!(!str_eq("abc", "ab"));
    assert!(str_eq("日本語", "日本語"));
    assert!(!str_eq("日本語", "日本誤"));
}

#[test]
fn test_str_eq_lower() {
    assert!(str_eq_lower("JPeG", "jpeg"));
    assert!(str_eq_lower("mp4", "mp4"));
    assert!(!str_eq_lower("jpeg", "JPEG"));
    assert!(!str_eq_lower("jpg", "jpeg"));
}

#[test]
fn test_is_movie() {
    for ext in ["mp4", "mpeg", "mpg", "avi", "mov"] {
        assert!(is_movie(ext), "{ext} is a movie");
    }
    assert!(!is_movie("mkv"));
    assert!(!is_movie("MP4"));
    assert!(is_movie_ignore_case("MP4"));
    assert!(!is_movie_ignore_case("mkv"));
}

#[test]
fn test_is_image() {
    for ext in ["jpeg", "jpg", "gif", "webp", "png"] {
        assert!(is_image(ext), "{ext} is an image");
    }
    assert!(!is_image("bmp"));
    assert!(!is_image("PNG"));
    assert!(is_image_ignore_case("PnG"));
    assert!(!is_image_ignore_case("bmp"));
}

#[test]
fn test_is_zip() {
    assert!(is_zip("zip"));
    assert!(!is_zip("rar"));
    assert!(!is_zip(""));
}

#[test]
fn test_to_string_ex() {
    assert_eq!("a\\b\\c.txt".to_string_ex(), "a/b/c.txt");
    assert_eq!("a/b".to_string_ex(), "a/b");
    assert_eq!(String::from("x\\y/").to_string_ex(), "x/y/");
    assert_eq!("".to_string_ex(), "");
}

#[test]
fn test_remove_ends_separator() {
    assert_eq!("a/b/".remove_ends_separator(), "a/b");
    assert_eq!("a\\b\\".remove_ends_separator(), "a/b");
    assert_eq!("a/b///".remove_ends_separator(), "a/b");
    assert_eq!("///".remove_ends_separator(), "");
    assert_eq!("a".remove_ends_separator(), "a");
}

#[test]
fn test_option_to_string_ex() {
    assert_eq!(Some(String::from("p\\q")).to_string_ex(), "p/q");
    assert_eq!(None::<String>.to_string_ex(), "");
}

#[test]
fn test_path_components() {
    assert_eq!(file_name_of("a/b/c.txt"), "c.txt");
    assert_eq!(file_name_of("c.txt"), "c.txt");
    // Trailing separators do not hide the last component.
    assert_eq!(file_name_of("a/b/"), "b");
    assert_eq!(file_name_of("a//b"), "b");
    assert_eq!(file_name_of("/"), "");
    assert_eq!(parent_of("a/b/c.txt"), "a/b");
    assert_eq!(parent_of("c.txt"), "");
    // A rooted path keeps its root as the parent.
    assert_eq!(parent_of("/c.txt"), "/");
    assert_eq!(parent_of("a/b/"), "a");
    assert_eq!(parent_of("a//b"), "a");
    assert_eq!(extension_of("c.tar.gz"), "gz");
    assert_eq!(extension_of("c"), "");
    assert_eq!(extension_of(".gitignore"), "");
    assert_eq!(extension_of("a."), "");
}

#[test]
fn test_file_meta_default() {
    let m = FileMeta::default();
    assert!(!m.is_dir && !m.is_file && !m.is_symlink);
    assert_eq!((m.modified, m.created, m.size), (0, 0, 0));
    assert!(!m.is_image && !m.is_movie);
}

#[test]
fn test_file_meta_from_parts() {
    let m = FileMeta::from_parts(false, true, false, 11, 22, 33, "JPG");
    assert!(m.is_file && !m.is_dir);
    assert_eq!((m.modified, m.created, m.size), (11, 22, 33));
    assert!(m.is_image);
    assert!(!m.is_movie);
    let m2 = FileMeta::from_parts(true, false, false, 0, 0, 0, "");
    assert!(m2.is_dir && !m2.is_image && !m2.is_movie);
}

#[test]
fn test_str_to_fileinfo() {
    let meta = FileMeta::from_parts(false, true, false, 100, 200, 5, "png");
    let info = str_to_fileinfo("pics/cat.PNG", &meta);
    assert_eq!(info.path, "pics/cat.PNG");
    assert_eq!(info.dir, "pics");
    assert_eq!(info.file_name, "cat.PNG");
    assert_eq!(info.extension, "PNG");
    assert_eq!(info.modified, 100);
    assert_eq!(info.created, 200);
    assert!(info.is_file && !info.is_dir);
    // The record classifies by the extension as spelt.
    assert!(!info.is_image && !info.is_movie);

    let info2 = str_to_fileinfo("movie.mp4", &FileMeta::default());
    assert_eq!(info2.dir, "");
    assert_eq!(info2.file_name, "movie.mp4");
    assert_eq!(info2.extension, "mp4");
    assert!(info2.is_movie && !info2.is_image);
}

#[test]
fn test_fileinfo_default_and_clone() {
    let d = FileInfo::default();
    assert_eq!(d.path, "");
    assert_eq!(d.file_name, "");
    assert!(!d.is_dir && !d.is_file && !d.is_image && !d.is_movie);
    let mut c = d.clone();
    assert_eq!(c.path, d.path);
    c.path = String::from("changed");
    assert_eq!(d.path, "");
}

fn entry(path: &str, is_dir: bool, children: Vec<FileEntry<()>>) -> FileEntry<()> {
    let meta = FileMeta {
        is_dir,
        is_file: !is_dir,
        is_symlink: false,
        modified: 0,
        created: 0,
        size: 0,
        is_image: false,
        is_movie: false,
    };
    let mut e = FileEntry::new(str_to_fileinfo(path, &meta), ());
    e.children = children;
    e
}

#[test]
fn test_read_dir_deep_tree() {
    // root level: a file and two directories, one of them with a nested
    // directory of its own.
    let tree = vec![
        entry("top.txt", false, vec![]),
        entry(
            "d1",
            true,
            vec![
                entry("d1/inner.txt", false, vec![]),
                entry("d1/d2", true, vec![entry("d1/d2/deep.txt", false, vec![])]),
            ],
        ),
        entry("d3", true, vec![entry("d3/last.txt", false, vec![])]),
    ];

    let paths = |infos: Vec<FileInfo>| -> Vec<String> {
        infos.into_iter().map(|i| i.path).collect()
    };

    // Depth 0: the level alone.
    assert_eq!(paths(read_dir_deep(&tree, 0)), vec!["top.txt", "d1", "d3"]);

    // Depth 1: each directory's own listing follows, in level order.
    assert_eq!(
        paths(read_dir_deep(&tree, 1)),
        vec!["top.txt", "d1", "d3", "d1/inner.txt", "d1/d2", "d3/last.txt"]
    );

    // Depth 2: the nested directory's listing is reached too.
    assert_eq!(
        paths(read_dir_deep(&tree, 2)),
        vec!["top.txt", "d1", "d3", "d1/inner.txt", "d1/d2", "d1/d2/deep.txt", "d3/last.txt"]
    );
}
