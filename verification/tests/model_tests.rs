use rsfm::fs::{compute_renamed_path, derive_ext, derive_name, find_last, is_valid_name, EntryKind,
    FileData, IconId};

fn plain(path: &str, kind: EntryKind) -> FileData {
    FileData::new(path.to_string(), kind, None)
}

#[test]
fn name_is_the_final_path_component() {
    assert_eq!(derive_name("/home/user/a.txt"), "a.txt");
    assert_eq!(derive_name("a.txt"), "a.txt");
    assert_eq!(derive_name("/home/user"), "user");
}

#[test]
fn name_falls_back_to_the_raw_path() {
    // No final component: the raw path string stands in.
    assert_eq!(derive_name("/"), "/");
    assert_eq!(derive_name(""), "");
    assert_eq!(derive_name("dir/"), "dir/");
}

#[test]
fn extension_is_the_suffix_after_the_last_dot() {
    assert_eq!(derive_ext("a.txt"), Some("txt".to_string()));
    assert_eq!(derive_ext("archive.tar.gz"), Some("gz".to_string()));
    assert_eq!(derive_ext("noext"), None);
    assert_eq!(derive_ext(".bashrc"), Some("bashrc".to_string()));
    assert_eq!(derive_ext("trailing."), Some(String::new()));
}

#[test]
fn find_last_reports_the_rightmost_occurrence() {
    assert_eq!(find_last("a/b/c", '/'), Some(3));
    assert_eq!(find_last("abc", '/'), None);
    assert_eq!(find_last("/", '/'), Some(0));
}

#[test]
fn entry_derives_name_and_extension() {
    let fd = plain("/home/user/notes.txt", EntryKind::File);
    assert_eq!(fd.name().as_str(), "notes.txt");
    assert_eq!(fd.path().as_str(), "/home/user/notes.txt");
    assert_eq!(fd.ext.as_deref(), Some("txt"));
    assert_eq!(fd.file_ty(), EntryKind::File);
}

#[test]
fn rename_replaces_the_final_component() {
    let mut fd = plain("/home/user/a.txt", EntryKind::File);
    fd.rename("b.md");
    assert_eq!(fd.path().as_str(), "/home/user/b.md");
    assert_eq!(fd.name().as_str(), "b.md");
    assert_eq!(fd.ext.as_deref(), Some("md"));
    // the kind is what construction recorded; a rename never re-stats
    assert_eq!(fd.file_ty(), EntryKind::File);
}

#[test]
fn renamed_path_of_a_bare_name() {
    assert_eq!(compute_renamed_path("old.txt", "new.txt"), "new.txt");
    assert_eq!(compute_renamed_path("/home/a", "b"), "/home/b");
}

#[test]
fn valid_names_have_no_separator() {
    assert!(is_valid_name("b.txt"));
    assert!(!is_valid_name(""));
    assert!(!is_valid_name("a/b"));
}

#[test]
fn icons_follow_kind_and_well_known_names() {
    assert_eq!(plain("/tmp/x", EntryKind::File).icon(), IconId::File);
    assert_eq!(plain("/tmp/x", EntryKind::Directory).icon(), IconId::Folder);
    assert_eq!(plain("/home/user/Home", EntryKind::Directory).icon(), IconId::House);
    assert_eq!(plain("/home/user/Desktop", EntryKind::Directory).icon(), IconId::DotsNine);
    assert_eq!(plain("/home/user/Downloads", EntryKind::Directory).icon(), IconId::Download);
    assert_eq!(plain("/tmp/x", EntryKind::Unknown).icon(), IconId::SealWarning);
    let link = FileData::new(
        "/tmp/l".to_string(),
        EntryKind::Symlink,
        Some(Box::new(plain("/tmp/target", EntryKind::File))),
    );
    assert_eq!(link.icon(), IconId::Link);
}

#[test]
fn linked_follows_one_hop() {
    let target = plain("/data/real", EntryKind::Directory);
    let link = FileData::new("/tmp/l".to_string(), EntryKind::Symlink, Some(Box::new(target)));
    assert_eq!(link.linked().unwrap().name().as_str(), "real");
    assert_eq!(link.rec_linked().unwrap().file_ty(), EntryKind::Directory);
    assert_eq!(link.rec_linked_file_ty(), Some(EntryKind::Directory));

    let broken = plain("/tmp/dangling", EntryKind::Symlink);
    assert!(broken.linked().is_none());
    assert_eq!(broken.rec_linked_file_ty(), None);

    let file = plain("/tmp/f", EntryKind::File);
    assert!(file.linked().is_none());
}

#[test]
fn rec_linked_stops_two_hops_out() {
    let terminal = plain("/data/end", EntryKind::File);
    let middle = FileData::new(
        "/tmp/mid".to_string(),
        EntryKind::Symlink,
        Some(Box::new(terminal)),
    );
    let outer = FileData::new("/tmp/out".to_string(), EntryKind::Symlink, Some(Box::new(middle)));
    // symlink -> symlink -> file: the terminal type two hops deep is visible
    assert_eq!(outer.rec_linked().unwrap().name().as_str(), "end");
    assert_eq!(outer.rec_linked_file_ty(), Some(EntryKind::File));
}
