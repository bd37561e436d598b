use vstd::prelude::*;

use crate::filesys::file::{File, FsError};

verus! {

// The in-memory backend keeps its paths in a prefix tree of the outside
// crate. The tree is opaque here: its contents are named as a map from the
// path's characters to a stored index, and every operation the backend uses
// goes through one trusted wrapper whose contract says what the crate's own
// source shows for that method.

#[verifier::external_type_specification]
#[verifier::external_body]
#[verifier::reject_recursive_types(K)]
#[verifier::reject_recursive_types(V)]
pub struct ExPrefixMap<K, V>(prefix_tree::PrefixMap<K, V>);

/// What a prefix tree of byte-string keys holds, keyed by the characters of
/// the path that was inserted. Distinct character sequences have distinct
/// byte encodings, so the keying is faithful.
pub uninterp spec fn prefix_map_view(m: prefix_tree::PrefixMap<u8, usize>) -> Map<Seq<char>, nat>;

/// Relies on `PrefixMap::new`: the fresh map is empty.
#[verifier::external_body]
fn pm_new() -> (r: prefix_tree::PrefixMap<u8, usize>)
    ensures
        prefix_map_view(r) =~= Map::empty(),
{
    prefix_tree::PrefixMap::new()
}

/// Relies on `PrefixMap::get`: answers the value stored at the key.
#[verifier::external_body]
fn pm_get(m: &prefix_tree::PrefixMap<u8, usize>, key: &str) -> (r: Option<usize>)
    ensures
        match r {
            Some(v) => prefix_map_view(*m).contains_key(key@) && prefix_map_view(*m)[key@]
                == v as nat,
            None => !prefix_map_view(*m).contains_key(key@),
        },
{
    m.get(key).copied()
}

/// Relies on `PrefixMap::insert`: stores the value, answering what the key
/// held before.
#[verifier::external_body]
fn pm_insert(m: &mut prefix_tree::PrefixMap<u8, usize>, key: &str, value: usize) -> (r: Option<
    usize,
>)
    ensures
        prefix_map_view(*final(m)) == prefix_map_view(*old(m)).insert(key@, value as nat),
        match r {
            Some(v) => prefix_map_view(*old(m)).contains_key(key@) && prefix_map_view(*old(m))[
                key@
            ] == v as nat,
            None => !prefix_map_view(*old(m)).contains_key(key@),
        },
{
    m.insert(key, value)
}

/// Relies on `PrefixMap::remove`: takes the key out, answering what it held.
#[verifier::external_body]
fn pm_remove(m: &mut prefix_tree::PrefixMap<u8, usize>, key: &str) -> (r: Option<usize>)
    ensures
        prefix_map_view(*final(m)) == prefix_map_view(*old(m)).remove(key@),
        match r {
            Some(v) => prefix_map_view(*old(m)).contains_key(key@) && prefix_map_view(*old(m))[
                key@
            ] == v as nat,
            None => !prefix_map_view(*old(m)).contains_key(key@),
        },
{
    m.remove(key)
}

/// Relies on `PrefixMap::contains_key`.
#[verifier::external_body]
fn pm_contains(m: &prefix_tree::PrefixMap<u8, usize>, key: &str) -> (r: bool)
    ensures
        r == prefix_map_view(*m).contains_key(key@),
{
    m.contains_key(key)
}

#[verifier::external_type_specification]
#[verifier::external_body]
#[verifier::reject_recursive_types(T)]
pub struct ExPrefixSet<T>(prefix_tree::PrefixSet<T>);

/// What a prefix tree of byte-string members holds, as the characters of
/// each inserted path.
pub uninterp spec fn prefix_set_view(m: prefix_tree::PrefixSet<u8>) -> Set<Seq<char>>;

/// Relies on `PrefixSet::new`: the fresh set is empty.
#[verifier::external_body]
fn ps_new() -> (m: prefix_tree::PrefixSet<u8>)
    ensures
        prefix_set_view(m) == Set::<Seq<char>>::empty(),
{
    prefix_tree::PrefixSet::new()
}

/// Relies on `PrefixSet::contains`.
#[verifier::external_body]
fn ps_contains(m: &prefix_tree::PrefixSet<u8>, key: &str) -> (r: bool)
    ensures
        r == prefix_set_view(*m).contains(key@),
{
    m.contains(key)
}

/// Relies on `PrefixSet::insert`.
#[verifier::external_body]
fn ps_insert(m: &mut prefix_tree::PrefixSet<u8>, key: &str)
    ensures
        prefix_set_view(*final(m)) == prefix_set_view(*old(m)).insert(key@),
{
    m.insert(key);
}

/// Relies on `PrefixSet::remove`.
#[verifier::external_body]
fn ps_remove(m: &mut prefix_tree::PrefixSet<u8>, key: &str)
    ensures
        prefix_set_view(*final(m)) == prefix_set_view(*old(m)).remove(key@),
{
    m.remove(key);
}

/// A deleted-path set over the prefix tree, for the copy-on-write layer.
pub struct DeletedPaths {
    pub inner: prefix_tree::PrefixSet<u8>,
}

impl DeletedPaths {
    pub open spec fn view_set(&self) -> Set<Seq<char>> {
        prefix_set_view(self.inner)
    }

    pub fn new() -> (r: Self)
        ensures
            r.view_set() == Set::<Seq<char>>::empty(),
    {
        DeletedPaths { inner: ps_new() }
    }

    pub fn contains(&self, key: &str) -> (r: bool)
        ensures
            r == self.view_set().contains(key@),
    {
        ps_contains(&self.inner, key)
    }

    pub fn insert(&mut self, key: &str)
        ensures
            final(self).view_set() == old(self).view_set().insert(key@),
    {
        ps_insert(&mut self.inner, key);
    }

    pub fn remove(&mut self, key: &str)
        ensures
            final(self).view_set() == old(self).view_set().remove(key@),
    {
        ps_remove(&mut self.inner, key);
    }
}

/// One entry of the in-memory file system: a file's bytes, or a directory.
#[derive(Debug, PartialEq, Eq)]
pub enum InMemEntry {
    FileData(Vec<u8>),
    Dir,
}

/// The mathematical shape of one entry.
pub enum EntryV {
    FileData(Seq<u8>),
    Dir,
}

pub open spec fn entry_view(e: InMemEntry) -> EntryV {
    match e {
        InMemEntry::FileData(d) => EntryV::FileData(d@),
        InMemEntry::Dir => EntryV::Dir,
    }
}

/// The in-memory backend: a map from paths to entries. Paths are plain
/// strings with no hierarchy of their own; creating a file needs no parent
/// directory. Entries are stored in a growing arena, and the prefix tree
/// maps each live path to its arena slot.
pub struct InMemoryBackend {
    pub index: prefix_tree::PrefixMap<u8, usize>,
    pub entries: Vec<InMemEntry>,
}

impl InMemoryBackend {
    /// Every indexed slot lies inside the arena.
    pub open spec fn wf(&self) -> bool {
        forall|k: Seq<char>| #[trigger]
            prefix_map_view(self.index).contains_key(k) ==> prefix_map_view(self.index)[k]
                < self.entries@.len()
    }

    /// What the backend holds: each live path's entry.
    pub open spec fn contents(&self) -> Map<Seq<char>, EntryV> {
        Map::new(
            |k: Seq<char>| prefix_map_view(self.index).contains_key(k),
            |k: Seq<char>| entry_view(self.entries@[prefix_map_view(self.index)[k] as int]),
        )
    }

    pub fn new() -> (r: Self)
        ensures
            r.wf(),
            r.contents() =~= Map::<Seq<char>, EntryV>::empty(),
    {
        InMemoryBackend { index: pm_new(), entries: Vec::new() }
    }

    pub fn path_exists(&self, path: &str) -> (r: bool)
        requires
            self.wf(),
        ensures
            r == self.contents().contains_key(path@),
    {
        pm_contains(&self.index, path)
    }

    /// Opens the file at `path` for reading, as a buffered copy of its
    /// bytes. A directory or a missing path is not found.
    pub fn open(&self, path: &str) -> (r: Result<File, FsError>)
        requires
            self.wf(),
        ensures
            match r {
                Ok(f) => self.contents().contains_key(path@) && self.contents()[path@]
                    == EntryV::FileData(f.data@) && f.pos == 0,
                Err(e) => e == FsError::NotFound && !(self.contents().contains_key(path@)
                    && self.contents()[path@] is FileData),
            },
    {
        match pm_get(&self.index, path) {
            None => Err(FsError::NotFound),
            Some(i) => match &self.entries[i] {
                InMemEntry::Dir => Err(FsError::NotFound),
                InMemEntry::FileData(d) => Ok(File::new(copy_bytes(d))),
            },
        }
    }

    /// Creates an empty file, unless the path is already taken.
    pub fn create(&mut self, path: &str) -> (r: Result<File, FsError>)
        requires
            old(self).wf(),
        ensures
            final(self).wf(),
            match r {
                Ok(f) => {
                    &&& !old(self).contents().contains_key(path@)
                    &&& final(self).contents() == old(self).contents().insert(
                        path@,
                        EntryV::FileData(Seq::empty()),
                    )
                    &&& f.data@ == Seq::<u8>::empty()
                    &&& f.pos == 0
                },
                Err(e) => {
                    &&& e == FsError::AlreadyExists
                    &&& old(self).contents().contains_key(path@)
                    &&& final(self).contents() == old(self).contents()
                    &&& *final(self) == *old(self)
                },
            },
    {
        if pm_contains(&self.index, path) {
            return Err(FsError::AlreadyExists);
        }
        let slot = self.entries.len();
        self.entries.push(InMemEntry::FileData(Vec::new()));
        pm_insert(&mut self.index, path, slot);
        proof {
            assert(final(self).contents() =~= old(self).contents().insert(
                path@,
                EntryV::FileData(Seq::empty()),
            ));
        }
        Ok(File::new(Vec::new()))
    }

    /// Creates a directory entry, unless the path is already taken.
    pub fn create_dir(&mut self, path: &str) -> (r: Result<(), FsError>)
        requires
            old(self).wf(),
        ensures
            final(self).wf(),
            match r {
                Ok(()) => {
                    &&& !old(self).contents().contains_key(path@)
                    &&& final(self).contents() == old(self).contents().insert(path@, EntryV::Dir)
                },
                Err(e) => {
                    &&& e == FsError::AlreadyExists
                    &&& old(self).contents().contains_key(path@)
                    &&& *final(self) == *old(self)
                },
            },
    {
        if pm_contains(&self.index, path) {
            return Err(FsError::AlreadyExists);
        }
        let slot = self.entries.len();
        self.entries.push(InMemEntry::Dir);
        pm_insert(&mut self.index, path, slot);
        proof {
            assert(final(self).contents() =~= old(self).contents().insert(path@, EntryV::Dir));
        }
        Ok(())
    }

    /// Moves an entry to a new path, replacing whatever was there.
    pub fn move_path(&mut self, from: &str, to: &str) -> (r: Result<(), FsError>)
        requires
            old(self).wf(),
        ensures
            final(self).wf(),
            match r {
                Ok(()) => {
                    &&& old(self).contents().contains_key(from@)
                    &&& final(self).contents() == old(self).contents().remove(from@).insert(
                        to@,
                        old(self).contents()[from@],
                    )
                },
                Err(e) => {
                    &&& e == FsError::AlreadyExists
                    &&& !old(self).contents().contains_key(from@)
                    &&& *final(self) == *old(self)
                },
            },
    {
        let slot = match pm_get(&self.index, from) {
            None => {
                return Err(FsError::AlreadyExists);
            },
            Some(i) => i,
        };
        pm_remove(&mut self.index, from);
        pm_insert(&mut self.index, to, slot);
        proof {
            assert(final(self).contents() =~= old(self).contents().remove(from@).insert(
                to@,
                old(self).contents()[from@],
            ));
        }
        Ok(())
    }

    /// Removes a file; a directory at the path is rejected.
    pub fn remove_file(&mut self, path: &str) -> (r: Result<(), FsError>)
        requires
            old(self).wf(),
        ensures
            final(self).wf(),
            match r {
                Ok(()) => {
                    &&& old(self).contents().contains_key(path@)
                    &&& old(self).contents()[path@] is FileData
                    &&& final(self).contents() == old(self).contents().remove(path@)
                },
                Err(e) => {
                    &&& *final(self) == *old(self)
                    &&& if !old(self).contents().contains_key(path@) {
                        e == FsError::AlreadyExists
                    } else {
                        old(self).contents()[path@] is Dir && e == FsError::InvalidInput
                    }
                },
            },
    {
        let slot = match pm_get(&self.index, path) {
            None => {
                return Err(FsError::AlreadyExists);
            },
            Some(i) => i,
        };
        match &self.entries[slot] {
            InMemEntry::Dir => Err(FsError::InvalidInput),
            InMemEntry::FileData(_) => {
                pm_remove(&mut self.index, path);
                proof {
                    assert(final(self).contents() =~= old(self).contents().remove(path@));
                }
                Ok(())
            },
        }
    }

    /// Removes a directory; a file at the path is rejected.
    pub fn remove_dir(&mut self, path: &str) -> (r: Result<(), FsError>)
        requires
            old(self).wf(),
        ensures
            final(self).wf(),
            match r {
                Ok(()) => {
                    &&& old(self).contents().contains_key(path@)
                    &&& old(self).contents()[path@] is Dir
                    &&& final(self).contents() == old(self).contents().remove(path@)
                },
                Err(e) => {
                    &&& e == FsError::InvalidInput
                    &&& *final(self) == *old(self)
                    &&& !(old(self).contents().contains_key(path@) && old(self).contents()[path@]
                        is Dir)
                },
            },
    {
        let slot = match pm_get(&self.index, path) {
            None => {
                return Err(FsError::InvalidInput);
            },
            Some(i) => i,
        };
        match &self.entries[slot] {
            InMemEntry::FileData(_) => Err(FsError::InvalidInput),
            InMemEntry::Dir => {
                pm_remove(&mut self.index, path);
                proof {
                    assert(final(self).contents() =~= old(self).contents().remove(path@));
                }
                Ok(())
            },
        }
    }

    /// Stores a file's bytes at the path, creating or replacing whatever
    /// entry was there.
    pub fn save(&mut self, path: &str, data: &Vec<u8>)
        requires
            old(self).wf(),
        ensures
            final(self).wf(),
            final(self).contents() == old(self).contents().insert(path@, EntryV::FileData(data@)),
    {
        let slot = self.entries.len();
        self.entries.push(InMemEntry::FileData(copy_bytes(data)));
        pm_insert(&mut self.index, path, slot);
        proof {
            assert(final(self).contents() =~= old(self).contents().insert(
                path@,
                EntryV::FileData(data@),
            ));
        }
    }
}

impl InMemoryBackend {
    /// Stores a directory entry at the path, replacing whatever was there.
    pub fn put_dir(&mut self, path: &str)
        requires
            old(self).wf(),
        ensures
            final(self).wf(),
            final(self).contents() == old(self).contents().insert(path@, EntryV::Dir),
    {
        let slot = self.entries.len();
        self.entries.push(InMemEntry::Dir);
        pm_insert(&mut self.index, path, slot);
        proof {
            assert(final(self).contents() =~= old(self).contents().insert(path@, EntryV::Dir));
        }
    }
}

/// A fresh vector with the same bytes.
pub fn copy_bytes(v: &Vec<u8>) -> (r: Vec<u8>)
    ensures
        r@ == v@,
{
    let mut out: Vec<u8> = Vec::new();
    let mut i: usize = 0;
    while i < v.len()
        invariant
            i <= v@.len(),
            out@ == v@.subrange(0, i as int),
        decreases v@.len() - i,
    {
        out.push(v[i]);
        i = i + 1;
        proof {
            assert(out@ =~= v@.subrange(0, i as int));
        }
    }
    proof {
        assert(v@.subrange(0, v@.len() as int) =~= v@);
    }
    out
}

} // verus!
