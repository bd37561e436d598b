use vstd::prelude::*;

use std::rc::Rc;

use crate::classfile::err::ClassFileParseError;
use crate::classfile::grammar::sp_class_file;
use crate::classfile::pool::sp_slot_get;
use crate::classfile::reader::Reader;
use crate::classfile::types::{ClassFile, ClassFileV, ConstantPoolInfo, CpInfoV, cf_view};
use crate::filesys::osfs::{concat_str, join_with_slash, map_vfs_error, os_root, vfs_exists,
    vfs_is_dir, vfs_join, vfs_read_all};
use vstd::string::StringSliceAdditionalSpecFns;

verus! {

/// One entry of the class path: a directory of loose class files, or an
/// archive (archives cannot be opened yet).
#[derive(Debug, PartialEq, Eq)]
pub enum ClassPathEntry {
    Dir(String),
    JarFile(String),
}

impl ClassPathEntry {
    /// Classifies a path string by what stands on disk: a directory entry
    /// when the path is a directory there, an archive entry otherwise. Which
    /// of the two comes back depends on the disk; the path string itself is
    /// kept either way.
    pub fn from_path(path: &str) -> (r: ClassPathEntry)
        ensures
            match r {
                ClassPathEntry::Dir(s) => s@ == path@,
                ClassPathEntry::JarFile(s) => s@ == path@,
            },
    {
        let root = os_root();
        let is_dir = match vfs_join(&root, path) {
            Ok(p) => match vfs_is_dir(&p) {
                Ok(b) => b,
                Err(_) => false,
            },
            Err(_) => false,
        };
        if is_dir {
            ClassPathEntry::Dir(path.to_owned())
        } else {
            ClassPathEntry::JarFile(path.to_owned())
        }
    }
}

/// The ordered list of places a class may be loaded from.
pub struct ClassPath {
    pub items: Vec<ClassPathEntry>,
}

impl ClassPath {
    pub fn from(items: Vec<ClassPathEntry>) -> (r: Self)
        ensures
            r.items == items,
    {
        ClassPath { items }
    }

    pub fn entries(&self) -> (r: &Vec<ClassPathEntry>)
        ensures
            r == &self.items,
    {
        &self.items
    }

    pub fn add_entry(&mut self, entry: ClassPathEntry)
        ensures
            final(self).items@ == old(self).items@.push(entry),
    {
        self.items.push(entry);
    }
}

/// The name a decoded class declares for itself: its self reference resolved
/// through the pool to a byte string, when both hops land on the expected
/// entry kinds.
pub open spec fn sp_class_name(cf: ClassFileV) -> Option<Seq<u8>> {
    match sp_slot_get(cf.cp_info, cf.this_class) {
        Some(CpInfoV::ClassInfo { name_index }) => match sp_slot_get(cf.cp_info, name_index) {
            Some(CpInfoV::Utf8Info { length, bytes }) => Some(bytes),
            _ => None,
        },
        _ => None,
    }
}

/// A loaded class: the decoded class file and its resolved name, kept as the
/// raw bytes of the pool's name entry (empty when the self reference does
/// not resolve).
pub struct Class {
    pub name: Vec<u8>,
    pub class_file: ClassFile,
}

impl Class {
    /// Wraps a decoded class file, resolving its name once.
    pub fn from(class_file: ClassFile) -> (r: Class)
        ensures
            r.class_file == class_file,
            r.name@ == match sp_class_name(cf_view(class_file)) {
                Some(n) => n,
                None => Seq::<u8>::empty(),
            },
    {
        let name: Vec<u8> = match class_file.cp_info.get(class_file.this_class) {
            Some(ConstantPoolInfo::ClassInfo { name_index }) => {
                let ni = *name_index;
                match class_file.cp_info.get(ni) {
                    Some(ConstantPoolInfo::Utf8Info { length: _, bytes }) => {
                        crate::filesys::store::copy_bytes(bytes)
                    },
                    _ => Vec::new(),
                }
            },
            _ => Vec::new(),
        };
        Class { name, class_file }
    }

    /// The class's resolved name, as bytes.
    pub fn name(&self) -> (r: &Vec<u8>)
        ensures
            r == &self.name,
    {
        &self.name
    }
}

/// Decodes a class from raw bytes and resolves its name: the decoding part
/// of loading, separated from every disk concern. Succeeds exactly when the
/// byte stream decodes.
pub fn load_class_from_bytes(bytes: Vec<u8>) -> (r: Option<Class>)
    ensures
        match r {
            Some(c) => {
                &&& sp_class_file(bytes@) matches Ok((cf, k)) && cf_view(c.class_file) == cf
                &&& c.name@ == match sp_class_name(cf_view(c.class_file)) {
                    Some(n) => n,
                    None => Seq::<u8>::empty(),
                }
            },
            None => sp_class_file(bytes@) is Err,
        },
{
    let mut rd = Reader::new(bytes);
    match ClassFile::parse(&mut rd) {
        Ok(cf) => Some(Class::from(cf)),
        Err(_) => None,
    }
}

fn bytes_match(a: &Vec<u8>, w: &[u8]) -> (r: bool)
    ensures
        r == (a@ == w@),
{
    if a.len() != w.len() {
        proof {
            assert(a@ != w@);
        }
        return false;
    }
    let mut i: usize = 0;
    while i < w.len()
        invariant
            a@.len() == w@.len(),
            i <= w@.len(),
            forall|j: int| 0 <= j < i ==> a@[j] == w@[j],
        decreases w@.len() - i,
    {
        if a[i] != w[i] {
            return false;
        }
        i = i + 1;
    }
    proof {
        assert(a@ =~= w@);
    }
    true
}

/// Relies on `Rc::clone`: the clone is the same shared handle, pointing at
/// the same class value.
#[verifier::external_body]
fn rc_clone_class(rc: &Rc<Class>) -> (r: Rc<Class>)
    ensures
        r == *rc,
{
    rc.clone()
}

/// How a class loader is asked for classes: adding search entries, looking a
/// loaded class up in the cache, and loading one on a miss. The cache grows
/// by at most the one class a load adds, and a hit never decodes again.
pub trait ClassLoader {
    /// The classes this loader has loaded so far, in load order.
    spec fn cached(&self) -> Seq<Rc<Class>>;

    /// The search entries this loader walks, in order.
    spec fn search_entries(&self) -> Seq<ClassPathEntry>;

    fn add_entry(&mut self, entry: ClassPathEntry)
        ensures
            final(self).search_entries() == old(self).search_entries().push(entry),
            final(self).cached() == old(self).cached();

    /// Answers a cached class of the given name, and nothing else: `None`
    /// exactly when no cached class carries the name.
    fn find_class(&self, name: &str) -> (r: Option<Rc<Class>>)
        ensures
            match r {
                Some(c) => self.cached().contains(c) && c.name@ == name.spec_bytes(),
                None => forall|i: int|
                    0 <= i < self.cached().len() ==> (#[trigger] self.cached()[i]).name@
                        != name.spec_bytes(),
            };

    /// Answers the cached class of the given name, or loads one: on a cache
    /// hit the cache is unchanged and the decoder never runs; on a miss,
    /// whatever the search turns up, either nothing was loadable and the
    /// cache is unchanged, or exactly one class - decoded by the class-file
    /// grammar from some byte stream, its name resolved through its own
    /// pool - is appended to the cache and returned. The search entries are
    /// never changed.
    fn find_or_load_class(&mut self, name: &str) -> (r: Option<Rc<Class>>)
        ensures
            final(self).search_entries() == old(self).search_entries(),
            match r {
                Some(c) => {
                    ||| (final(self).cached() == old(self).cached() && old(self).cached().contains(
                        c,
                    ) && c.name@ == name.spec_bytes())
                    ||| (final(self).cached() == old(self).cached().push(c) && (exists|
                        bytes: Seq<u8>,
                    |
                        {
                            &&& (#[trigger] sp_class_file(bytes)) is Ok
                            &&& cf_view(c.class_file) == sp_class_file(bytes)->Ok_0.0
                        }) && c.name@ == (match sp_class_name(cf_view(c.class_file)) {
                        Some(n) => n,
                        None => Seq::<u8>::empty(),
                    }))
                },
                None => final(self).cached() == old(self).cached(),
            };
}

/// The bootstrap loader: walks its class path for `<name>.class` below its
/// file-system root, decodes what it finds, and caches every loaded class
/// for the lifetime of the loader.
pub struct BootstrapClassLoader {
    pub fs: vfs::VfsPath,
    pub class_path: ClassPath,
    pub loaded_classes: Vec<Rc<Class>>,
}

impl BootstrapClassLoader {
    pub fn new(fs: vfs::VfsPath, class_path: ClassPath) -> (r: Self)
        ensures
            r.class_path == class_path,
            r.loaded_classes@.len() == 0,
    {
        BootstrapClassLoader { fs, class_path, loaded_classes: Vec::new() }
    }
}

impl ClassLoader for BootstrapClassLoader {
    open spec fn cached(&self) -> Seq<Rc<Class>> {
        self.loaded_classes@
    }

    open spec fn search_entries(&self) -> Seq<ClassPathEntry> {
        self.class_path.items@
    }

    fn add_entry(&mut self, entry: ClassPathEntry) {
        self.class_path.add_entry(entry);
    }

    fn find_class(&self, name: &str) -> (r: Option<Rc<Class>>) {
        let nb = name.as_bytes();
        let mut i: usize = 0;
        while i < self.loaded_classes.len()
            invariant
                i <= self.loaded_classes@.len(),
                nb@ == name.spec_bytes(),
                forall|j: int|
                    0 <= j < i ==> (#[trigger] self.loaded_classes@[j]).name@
                        != name.spec_bytes(),
            decreases self.loaded_classes@.len() - i,
        {
            if bytes_match(&self.loaded_classes[i].name, nb) {
                let c = rc_clone_class(&self.loaded_classes[i]);
                proof {
                    assert(self.loaded_classes@.contains(c));
                }
                return Some(c);
            }
            i = i + 1;
        }
        None
    }

    fn find_or_load_class(&mut self, name: &str) -> Option<Rc<Class>> {
        match self.find_class(name) {
            Some(c) => {
                return Some(c);
            },
            None => {},
        }
        let path = concat_str(name, ".class");
        let mut found: Option<Vec<u8>> = None;
        let mut i: usize = 0;
        while i < self.class_path.items.len()
            invariant
                i <= self.class_path.items@.len(),
            decreases self.class_path.items@.len() - i,
        {
            let entry_path = match &self.class_path.items[i] {
                ClassPathEntry::Dir(s) => s,
                // Archive entries cannot be opened yet; they never match.
                ClassPathEntry::JarFile(_) => {
                    i = i + 1;
                    continue ;
                },
            };
            let full = join_with_slash(entry_path.as_str(), path.as_str());
            let joined = match vfs_join(&self.fs, full.as_str()) {
                Ok(p) => p,
                Err(_) => {
                    i = i + 1;
                    continue ;
                },
            };
            let here = match vfs_exists(&joined) {
                Ok(b) => b,
                Err(_) => false,
            };
            if here {
                match vfs_read_all(&joined) {
                    Ok(bytes) => {
                        found = Some(bytes);
                    },
                    Err(_) => {
                        return None;
                    },
                }
            }
            i = i + 1;
        }
        let bytes = match found {
            Some(b) => b,
            None => {
                return None;
            },
        };
        let ghost loaded_bytes = bytes@;
        let class = match load_class_from_bytes(bytes) {
            Some(c) => c,
            None => {
                return None;
            },
        };
        let rc = Rc::new(class);
        let rc2 = rc_clone_class(&rc);
        self.loaded_classes.push(rc);
        proof {
            assert(sp_class_file(loaded_bytes) is Ok);
        }
        Some(rc2)
    }
}

} // verus!
