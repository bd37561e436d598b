use libjvm::filesys::file::{File, FsError, SeekFrom};
use libjvm::filesys::fs::FileSystem;
use libjvm::filesys::store::InMemoryBackend;

#[test]
fn test_os_fs() {
    // The working directory is read-only where these tests run, so the
    // disk-backed file system is rooted in the temporary directory; the
    // paths below the root are unchanged.
    let mut setup = FileSystem::new_os_fs_at("/tmp");
    let _ = setup.create_dir("tests");
    let _ = setup.create_dir("tests/resources");
    let mut f = setup.create("tests/resources/file1").unwrap();
    f.write(&"hello world".as_bytes().to_vec());
    setup.flush_file("tests/resources/file1", &f).unwrap();

    let fs = FileSystem::new_os_fs_at("/tmp");
    let mut f = fs.open("tests/resources/file1").unwrap();
    let content = String::from_utf8(f.read_to_end()).unwrap();
    assert_eq!("hello world", content);

    let mut cleanup = FileSystem::new_os_fs_at("/tmp");
    cleanup.remove_file("tests/resources/file1").unwrap();
    let _ = cleanup.remove_dir("tests/resources");
    let _ = cleanup.remove_dir("tests");
}

#[test]
fn test_base_path_fs() {
    let mut setup = FileSystem::new_os_fs_at("/tmp");
    let _ = setup.create_dir("tests");
    let _ = setup.create_dir("tests/resources");
    let mut f = setup.create("tests/resources/file1").unwrap();
    f.write(&"hello world".as_bytes().to_vec());
    setup.flush_file("tests/resources/file1", &f).unwrap();

    let fs = FileSystem::new_base_path_fs(FileSystem::new_os_fs_at("/tmp"), "tests/resources");
    let mut f = fs.open("file1").unwrap();
    let content = String::from_utf8(f.read_to_end()).unwrap();
    assert_eq!("hello world", content);

    let mut cleanup = FileSystem::new_os_fs_at("/tmp");
    cleanup.remove_file("tests/resources/file1").unwrap();
    let _ = cleanup.remove_dir("tests/resources");
    let _ = cleanup.remove_dir("tests");
}

#[test]
fn test_create_write_open_read_file() {
    let mut fs = InMemoryBackend::new();
    let path = "test.txt";
    {
        let mut f = fs.create(path).unwrap();
        f.write(&format!("some number: {}\n", 7).as_bytes().to_vec());
        fs.save(path, &f.data);
    }
    let mut f = fs.open(path).unwrap();
    let actual = String::from_utf8(f.read_to_end()).unwrap();
    assert_eq!("some number: 7\n", actual);
}

#[test]
fn test_exists_remove_file() {
    let mut fs = InMemoryBackend::new();
    let path = "test.txt";
    assert!(!fs.path_exists(path));
    fs.create(path).unwrap();
    assert!(fs.path_exists(path));
    fs.remove_file(path).unwrap();
    assert!(!fs.path_exists(path));
}

#[test]
fn mem_test_move() {
    let mut fs = InMemoryBackend::new();
    let old_path = "old.txt";
    let new_path = "new.txt";
    assert!(!fs.path_exists(old_path));
    assert!(!fs.path_exists(new_path));

    fs.create(old_path).unwrap();
    assert!(fs.path_exists(old_path));
    assert!(!fs.path_exists(new_path));

    fs.move_path(old_path, new_path).unwrap();
    assert!(!fs.path_exists(old_path));
    assert!(fs.path_exists(new_path));
}

#[test]
fn test_in_memory_file_system_round_trip() {
    let mut fs = FileSystem::new_in_memory_fs();
    assert_eq!(Ok(false), fs.path_exists("a.txt"));
    let mut f = fs.create("a.txt").unwrap();
    f.write(&vec![1, 2, 3]);
    fs.flush_file("a.txt", &f).unwrap();
    assert_eq!(Ok(true), fs.path_exists("a.txt"));
    let mut g = fs.open("a.txt").unwrap();
    assert_eq!(vec![1, 2, 3], g.read_to_end());
    assert_eq!(Err(FsError::AlreadyExists), fs.create("a.txt").map(|_| ()));
    fs.remove_file("a.txt").unwrap();
    assert_eq!(Ok(false), fs.path_exists("a.txt"));
}

#[test]
fn test_copy_on_write_shields_the_fallback() {
    let mut under = FileSystem::new_in_memory_fs();
    let mut f = under.create("shared.txt").unwrap();
    f.write(&"below".as_bytes().to_vec());
    under.flush_file("shared.txt", &f).unwrap();

    let mut cow = FileSystem::new_copy_on_write_fs(under);
    // Reads fall through.
    let mut r = cow.open("shared.txt").unwrap();
    assert_eq!("below", String::from_utf8(r.read_to_end()).unwrap());
    // Writes land in the layer and shadow the fallback.
    r.write(&" and above".as_bytes().to_vec());
    cow.flush_file("shared.txt", &r).unwrap();
    let mut r2 = cow.open("shared.txt").unwrap();
    assert_eq!("below and above", String::from_utf8(r2.read_to_end()).unwrap());
    // A fresh path exists only once created.
    assert_eq!(Ok(false), cow.path_exists("only-here.txt"));
    cow.create("only-here.txt").unwrap();
    assert_eq!(Ok(true), cow.path_exists("only-here.txt"));
    // Moving and removal are not tracked by the copy-on-write layer yet, and
    // only there.
    assert_eq!(Err(FsError::NotSupported), cow.remove_file("only-here.txt"));
    assert_eq!(Err(FsError::NotSupported), cow.remove_dir("only-here.txt"));
    assert_eq!(Err(FsError::NotSupported), cow.move_path("only-here.txt", "elsewhere.txt"));
}

#[test]
fn test_file_read_write_seek() {
    let mut f = File::new(vec![10, 20, 30, 40]);
    assert_eq!(vec![10, 20], f.read(2));
    assert_eq!(vec![30, 40], f.read(10));
    assert_eq!(Vec::<u8>::new(), f.read(1));
    assert_eq!(Ok(1), f.seek(SeekFrom::Start(1)));
    assert_eq!(vec![20, 30, 40], f.read_to_end());
    assert_eq!(Ok(2), f.seek(SeekFrom::End(-2)));
    assert_eq!(vec![30, 40], f.read_to_end());
    assert_eq!(Ok(2), f.seek(SeekFrom::Start(2)));
    assert_eq!(Ok(1), f.seek(SeekFrom::Current(-1)));
    assert_eq!(Err(FsError::InvalidInput), f.seek(SeekFrom::Current(-5)));
    f.write(&vec![50]);
    assert_eq!(vec![20, 30, 40, 50], f.read_to_end());
}

