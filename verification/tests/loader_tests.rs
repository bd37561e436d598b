use libjvm::filesys::fs::FileSystem;
use libjvm::vm::classloader::{
    BootstrapClassLoader, Class, ClassLoader, ClassPath, ClassPathEntry, load_class_from_bytes,
};

fn push_u16(v: &mut Vec<u8>, x: u16) {
    v.extend_from_slice(&x.to_be_bytes());
}

fn push_u32(v: &mut Vec<u8>, x: u32) {
    v.extend_from_slice(&x.to_be_bytes());
}

/// The byte stream of a minimal class named `Test1`: an empty class body.
fn test1_class_bytes() -> Vec<u8> {
    let mut v: Vec<u8> = Vec::new();
    push_u32(&mut v, 0xCAFEBABE);
    push_u16(&mut v, 0);
    push_u16(&mut v, 61);
    push_u16(&mut v, 3);
    v.push(7); // Class, name at slot 2
    push_u16(&mut v, 2);
    v.push(1); // Utf8 "Test1"
    push_u16(&mut v, 5);
    v.extend_from_slice("Test1".as_bytes());
    push_u16(&mut v, 0x0021);
    push_u16(&mut v, 1); // this
    push_u16(&mut v, 0); // super
    push_u16(&mut v, 0);
    push_u16(&mut v, 0);
    push_u16(&mut v, 0);
    push_u16(&mut v, 0);
    v
}

#[test]
fn test_load_class() {
    // The working directory is read-only where these tests run: the loader
    // and its fixture class file are rooted in the temporary directory.
    let mut setup = FileSystem::new_os_fs_at("/tmp");
    let _ = setup.create_dir("tests");
    let _ = setup.create_dir("tests/resources");
    let _ = setup.create_dir("tests/resources/vm");
    let _ = setup.create_dir("tests/resources/vm/classloader");
    let mut f = setup.create("tests/resources/vm/classloader/Test1.class").unwrap();
    f.write(&test1_class_bytes());
    setup.flush_file("tests/resources/vm/classloader/Test1.class", &f).unwrap();

    let base: vfs::VfsPath = vfs::VfsPath::new(vfs::PhysicalFS::new("/tmp"));
    let mut class_loader = BootstrapClassLoader::new(
        base,
        ClassPath::from(vec![ClassPathEntry::Dir("tests/resources/vm/classloader".into())]),
    );
    let res = class_loader.find_or_load_class("Test1");
    assert!(res.is_some());
    let class = res.unwrap();
    assert_eq!("Test1".as_bytes(), class.name().as_slice());

    let again = class_loader.find_class("Test1");
    assert!(again.is_some());

    // A second load is a cache hit: the class file on disk is gone by then,
    // so only the cache can answer.
    let mut gone = FileSystem::new_os_fs_at("/tmp");
    gone.remove_file("tests/resources/vm/classloader/Test1.class").unwrap();
    let hit = class_loader.find_or_load_class("Test1");
    assert!(hit.is_some());
    assert_eq!("Test1".as_bytes(), hit.unwrap().name().as_slice());

    let mut cleanup = FileSystem::new_os_fs_at("/tmp");
    cleanup.remove_dir("tests/resources/vm/classloader").unwrap();
    cleanup.remove_dir("tests/resources/vm").unwrap();
    let _ = cleanup.remove_dir("tests/resources");
    let _ = cleanup.remove_dir("tests");
}

#[test]
fn test_load_class_from_bytes() {
    let c: Class = load_class_from_bytes(test1_class_bytes()).unwrap();
    assert_eq!("Test1".as_bytes(), c.name().as_slice());
    assert_eq!(0xCAFEBABE, c.class_file.magic);
    assert_eq!(1, c.class_file.this_class);

    assert!(load_class_from_bytes(vec![0, 1, 2, 3, 4, 5]).is_none());
}

#[test]
fn test_class_path_entries() {
    let mut cp = ClassPath::from(vec![]);
    assert_eq!(0, cp.entries().len());
    cp.add_entry(ClassPathEntry::Dir("somewhere".into()));
    cp.add_entry(ClassPathEntry::JarFile("thing.jar".into()));
    assert_eq!(2, cp.entries().len());
    assert_eq!(&ClassPathEntry::Dir("somewhere".into()), &cp.entries()[0]);
    assert_eq!(&ClassPathEntry::JarFile("thing.jar".into()), &cp.entries()[1]);
}

#[test]
fn test_class_path_entry_from_path() {
    // "tests" is a directory of this crate; a made-up name is not.
    assert_eq!(ClassPathEntry::Dir("tests".into()), ClassPathEntry::from_path("tests"));
    assert_eq!(
        ClassPathEntry::JarFile("no-such-thing.jar".into()),
        ClassPathEntry::from_path("no-such-thing.jar")
    );
}
