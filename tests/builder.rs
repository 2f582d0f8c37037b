use std::path::{Path, PathBuf};
use test_dir::{random_name, DirBuilder, EntryKind, FileType, FsOp, PathError, TestDir};

fn fixture(base: &str) -> TestDir {
    let setup = TestDir::temp(base, &random_name());
    let existed: Vec<bool> = (0..setup.ancestors().len()).map(|i| i > 0).collect();
    setup.finish(existed)
}

fn created_dir(ops: &[FsOp]) -> Option<String> {
    match ops {
        [FsOp::CreateDirAll(p)] => Some(p.clone()),
        _ => None,
    }
}

fn written_file(ops: &[FsOp]) -> Option<(String, Vec<u8>)> {
    match ops.last() {
        Some(FsOp::WriteFile(p, b)) => Some((p.clone(), b.clone())),
        _ => None,
    }
}

#[test]
fn test_testdir_path() {
    let str_path = "a/b/c/d/e";

    let mut dir = fixture("/tmp");
    let ops = dir.create(str_path, FileType::Dir);

    let mut root = PathBuf::from(dir.root());
    let path = Path::new(str_path);

    root.push(path);

    assert_eq!(PathBuf::from(dir.path(str_path)), root);
    assert_eq!(created_dir(&ops), Some(dir.path(str_path)));
}

#[test]
fn test_testdir_create() {
    let mut dir = fixture("/tmp");

    let name = "dir";
    let ops = dir.create(name, FileType::Dir);
    assert_eq!(created_dir(&ops), Some(dir.path(name)));
    assert_eq!(dir.get_dirs().last(), Some(&dir.path(name)));

    let name = "empty";
    let ops = dir.create(name, FileType::EmptyFile);
    let (file, bytes) = written_file(&ops).unwrap();
    assert_eq!(file, dir.path(name));
    assert_eq!(bytes.len(), 0);

    let name = "random";
    let len = 1024;
    let ops = dir.create(name, FileType::RandomFile(len));
    let (file, bytes) = written_file(&ops).unwrap();
    assert_eq!(file, dir.path(name));
    assert_eq!(bytes.len() as u64, len as u64);

    let name = "zero";
    let len = 1024;
    let ops = dir.create(name, FileType::ZeroFile(len));
    let (file, bytes) = written_file(&ops).unwrap();
    assert_eq!(file, dir.path(name));
    assert_eq!(bytes.len() as u64, len as u64);
    assert!(bytes.iter().all(|b| *b == b'0'));
}

#[test]
fn test_testdir_remove() {
    let mut dir = fixture("/tmp");

    let name = "test_file";
    let ops = dir.create(name, FileType::EmptyFile);
    assert_eq!(written_file(&ops).map(|(p, _)| p), Some(dir.path(name)));

    let ops = dir.remove(name, EntryKind::File);
    assert!(matches!(&ops[..], [FsOp::RemoveFile(p)] if *p == dir.path(name)));
}

#[test]
fn create_makes_missing_parents() {
    let mut dir = fixture("/tmp");
    let ops = dir.create("x/y/z", FileType::EmptyFile);
    assert_eq!(ops.len(), 2);
    assert!(matches!(&ops[0], FsOp::CreateDirAll(p) if *p == dir.path("x/y")));
    assert_eq!(written_file(&ops), Some((dir.path("x/y/z"), vec![])));
    assert_eq!(dir.get_dirs(), &vec![dir.path("x/y")]);
    assert_eq!(dir.get_files(), &vec![dir.path("x/y/z")]);
}

#[test]
fn file_at_top_creates_root_with_separator() {
    let mut dir = fixture("/tmp");
    let ops = dir.create("f", FileType::ZeroFile(3));
    assert!(matches!(&ops[0], FsOp::CreateDirAll(p) if *p == format!("{}/", dir.root())));
    assert_eq!(written_file(&ops), Some((dir.path("f"), b"000".to_vec())));
}

#[test]
fn remove_directory_missing_and_other() {
    let dir = fixture("/tmp");
    let ops = dir.remove("d", EntryKind::Dir);
    assert!(matches!(&ops[..], [FsOp::RemoveDirAll(p)] if *p == dir.path("d")));
    assert!(dir.remove("gone", EntryKind::Missing).is_empty());
    assert!(dir.remove("fifo", EntryKind::Other).is_empty());
}

#[test]
fn path_touches_nothing() {
    let dir = fixture("/tmp");
    assert_eq!(dir.path("a/b"), format!("{}/a/b", dir.root()));
    assert!(dir.get_files().is_empty());
    assert!(dir.get_dirs().is_empty());
}

#[test]
fn end_to_end_plan() {
    let mut dir = fixture("/tmp");
    let a = dir.create("test/dir", FileType::Dir);
    let b = dir.create("test/file", FileType::EmptyFile);
    let c = dir.create("test/random_file", FileType::RandomFile(100));
    let d = dir.create("otherdir/zero_file", FileType::ZeroFile(100));
    assert_eq!(created_dir(&a), Some(dir.path("test/dir")));
    assert_eq!(written_file(&b), Some((dir.path("test/file"), vec![])));
    let (p, bytes) = written_file(&c).unwrap();
    assert_eq!(p, dir.path("test/random_file"));
    assert_eq!(bytes.len(), 100);
    assert_eq!(written_file(&d), Some((dir.path("otherdir/zero_file"), vec![b'0'; 100])));
    assert_eq!(
        dir.get_files(),
        &vec![dir.path("test/file"), dir.path("test/random_file"), dir.path("otherdir/zero_file")]
    );
    assert_eq!(
        dir.get_dirs(),
        &vec![dir.path("test/dir"), dir.path("test"), dir.path("test"), dir.path("otherdir")]
    );
    assert_eq!(dir.scope().boundary(), dir.root());
}

#[test]
fn create_in_uses_the_given_parent() {
    let mut dir = fixture("/tmp");
    let ops = dir.create_in("f", FileType::EmptyFile, None);
    assert_eq!(ops.len(), 1);
    assert_eq!(written_file(&ops), Some((dir.path("f"), vec![])));
    assert!(dir.get_dirs().is_empty());

    let ops = dir.create_in("p/q", FileType::ZeroFile(2), Some("p".to_string()));
    assert_eq!(ops.len(), 2);
    assert!(matches!(&ops[0], FsOp::CreateDirAll(p) if *p == dir.path("p")));
    assert_eq!(written_file(&ops), Some((dir.path("p/q"), b"00".to_vec())));
    assert_eq!(dir.get_dirs(), &vec![dir.path("p")]);
    assert_eq!(dir.get_files(), &vec![dir.path("f"), dir.path("p/q")]);

    let ops = dir.create_in("d", FileType::Dir, Some("ignored".to_string()));
    assert_eq!(created_dir(&ops), Some(dir.path("d")));
}

#[test]
fn absolute_paths_are_refused() {
    let mut dir = fixture("/tmp");
    assert_eq!(dir.try_create("/etc/x", FileType::EmptyFile).err(), Some(PathError::Absolute));
    assert!(dir.get_files().is_empty());
    assert!(dir.get_dirs().is_empty());
    assert_eq!(dir.try_remove("/etc", EntryKind::Dir).err(), Some(PathError::Absolute));
    let ops = dir.try_create("ok", FileType::Dir).unwrap();
    assert_eq!(created_dir(&ops), Some(dir.path("ok")));
    let ops = dir.try_remove("ok", EntryKind::Dir).unwrap();
    assert!(matches!(&ops[..], [FsOp::RemoveDirAll(p)] if *p == dir.path("ok")));
}

#[test]
fn populated_fixture_keeps_its_boundary() {
    let mut dir = fixture("/tmp");
    let before = dir.scope().boundary();
    dir.create("a/b", FileType::ZeroFile(1));
    dir.create("c", FileType::Dir);
    assert_eq!(dir.scope().boundary(), before);
    assert!(matches!(dir.teardown(), FsOp::RemoveDirAll(p) if p == dir.root()));
}
