use vstd::prelude::*;

use crate::filesys::file::{File, FsError};
use crate::filesys::osfs::{
    join_with_slash, map_vfs_error, os_root, os_root_at, vfs_create_dir, vfs_exists, vfs_join,
    vfs_move_file, vfs_read_all, vfs_remove_dir, vfs_remove_file, vfs_write_all,
};
use crate::filesys::store::{DeletedPaths, EntryV, InMemoryBackend};

verus! {

/// The operating-system backend: a root over the working directory; every
/// operation resolves its path below that root and goes to the real disk.
pub struct OsBackend {
    pub root: vfs::VfsPath,
}

/// The copy-on-write backend: reads fall through to the underlying file
/// system, writes land in a private in-memory layer, and removed paths are
/// remembered so that they stay gone.
pub struct CopyOnWriteBackend {
    pub deleted_paths: DeletedPaths,
    pub layer: InMemoryBackend,
    pub fallback: Box<FileSystem>,
}

/// Which backend a file system runs on. The base-path backend resolves
/// every operation below its base, moving and removal included: a view that
/// redirected reads below the base but moved or removed entries outside it
/// would not be a view of anything, so the prefixing is deliberately uniform.
pub enum Backend {
    Os(OsBackend),
    InMemory(InMemoryBackend),
    BasePath { base: String, under: Box<FileSystem> },
    CopyOnWrite(CopyOnWriteBackend),
}

/// A file system: one backend behind a uniform path-string interface. The
/// in-memory, base-path and copy-on-write backends have an exact
/// mathematical model; the operating-system backend's behaviour belongs to
/// the disk, so nothing is promised of it beyond its interface shape.
pub struct FileSystem {
    pub backend: Backend,
}

impl FileSystem {
    pub open spec fn wf(&self) -> bool
        decreases self,
    {
        match self.backend {
            Backend::InMemory(st) => st.wf(),
            Backend::Os(_) => true,
            Backend::BasePath { base, under } => under.wf(),
            Backend::CopyOnWrite(c) => c.layer.wf() && c.fallback.wf(),
        }
    }

    /// The map this file system holds, when one can be stated: the in-memory
    /// store's contents; a base-path view of the underlying model; or the
    /// copy-on-write composition of layer, deletions and fallback. The
    /// operating-system backend has no model.
    pub open spec fn model(&self) -> Option<Map<Seq<char>, EntryV>>
        decreases self,
    {
        match self.backend {
            Backend::InMemory(st) => Some(st.contents()),
            Backend::Os(_) => None,
            Backend::BasePath { base, under } => match under.model() {
                None => None,
                Some(m) => Some(
                    Map::new(
                        |k: Seq<char>| m.contains_key(base@ + seq!['/'] + k),
                        |k: Seq<char>| m[base@ + seq!['/'] + k],
                    ),
                ),
            },
            Backend::CopyOnWrite(c) => match c.fallback.model() {
                None => None,
                Some(mf) => Some(
                    Map::new(
                        |k: Seq<char>|
                            !c.deleted_paths.view_set().contains(k) && (
                            c.layer.contents().contains_key(k) || mf.contains_key(k)),
                        |k: Seq<char>|
                            if c.layer.contents().contains_key(k) {
                                c.layer.contents()[k]
                            } else {
                                mf[k]
                            },
                    ),
                ),
            },
        }
    }

    /// Whether moving and removal are implemented on this backend chain:
    /// everything supports them except the copy-on-write layer, which does
    /// not track them yet.
    pub open spec fn supports_removal(&self) -> bool
        decreases self,
    {
        match self.backend {
            Backend::CopyOnWrite(_) => false,
            Backend::BasePath { base, under } => under.supports_removal(),
            _ => true,
        }
    }

    /// A file system on the real disk, rooted at the working directory.
    pub fn new_os_fs() -> (r: FileSystem)
        ensures
            r.wf(),
            r.model() is None,
    {
        FileSystem { backend: Backend::Os(OsBackend { root: os_root() }) }
    }

    /// A file system on the real disk, rooted at the named directory; every
    /// path is resolved below that root.
    pub fn new_os_fs_at(root: &str) -> (r: FileSystem)
        ensures
            r.wf(),
            r.model() is None,
    {
        FileSystem { backend: Backend::Os(OsBackend { root: os_root_at(root) }) }
    }

    /// A file system held entirely in memory, starting empty.
    pub fn new_in_memory_fs() -> (r: FileSystem)
        ensures
            r.wf(),
            r.model() == Some(Map::<Seq<char>, EntryV>::empty()),
    {
        let r = FileSystem { backend: Backend::InMemory(InMemoryBackend::new()) };
        proof {
            assert(r.model()->0 =~= Map::<Seq<char>, EntryV>::empty());
        }
        r
    }

    /// A view of `underlying` with every path resolved below `path`.
    pub fn new_base_path_fs(underlying: FileSystem, path: &str) -> (r: FileSystem)
        requires
            underlying.wf(),
        ensures
            r.wf(),
            r.backend matches Backend::BasePath { base, under } && base@ == path@ && *under
                == underlying,
    {
        FileSystem {
            backend: Backend::BasePath { base: path.to_owned(), under: Box::new(underlying) },
        }
    }

    /// A copy-on-write layer over `underlying`: reads fall through, writes
    /// stay in memory, and the underlying file system is never changed.
    pub fn new_copy_on_write_fs(underlying: FileSystem) -> (r: FileSystem)
        requires
            underlying.wf(),
        ensures
            r.wf(),
            r.backend matches Backend::CopyOnWrite(c) && *c.fallback == underlying
                && c.layer.contents() =~= Map::<Seq<char>, EntryV>::empty()
                && c.deleted_paths.view_set() =~= Set::<Seq<char>>::empty(),
    {
        FileSystem {
            backend: Backend::CopyOnWrite(
                CopyOnWriteBackend {
                    deleted_paths: DeletedPaths::new(),
                    layer: InMemoryBackend::new(),
                    fallback: Box::new(underlying),
                },
            ),
        }
    }

    /// Whether a file or directory lives at `path`.
    pub fn path_exists(&self, path: &str) -> (r: Result<bool, FsError>)
        requires
            self.wf(),
        ensures
            match self.model() {
                Some(m) => r == Ok::<bool, FsError>(m.contains_key(path@)),
                None => true,
            },
        decreases self,
    {
        match &self.backend {
            Backend::InMemory(st) => Ok(st.path_exists(path)),
            Backend::Os(ob) => {
                let p = match vfs_join(&ob.root, path) {
                    Ok(p) => p,
                    Err(e) => {
                        return Err(map_vfs_error(e));
                    },
                };
                match vfs_exists(&p) {
                    Ok(b) => Ok(b),
                    Err(e) => Err(map_vfs_error(e)),
                }
            },
            Backend::BasePath { base, under } => {
                let joined = join_with_slash(base.as_str(), path);
                under.path_exists(joined.as_str())
            },
            Backend::CopyOnWrite(c) => {
                if c.deleted_paths.contains(path) {
                    return Ok(false);
                }
                if c.layer.path_exists(path) {
                    return Ok(true);
                }
                c.fallback.path_exists(path)
            },
        }
    }

    /// Opens the file at `path` for reading as a buffered copy of its
    /// bytes. On a modelled file system, succeeds exactly when the model
    /// holds a file there, and delivers exactly that file's bytes.
    pub fn open(&self, path: &str) -> (r: Result<File, FsError>)
        requires
            self.wf(),
        ensures
            r matches Ok(f) ==> f.pos == 0,
            match self.model() {
                Some(m) => match r {
                    Ok(f) => m.contains_key(path@) && m[path@] == EntryV::FileData(f.data@)
                        && f.pos == 0,
                    Err(e) => e == FsError::NotFound && !(m.contains_key(path@) && m[path@]
                        is FileData),
                },
                None => true,
            },
        decreases self,
    {
        match &self.backend {
            Backend::InMemory(st) => st.open(path),
            Backend::Os(ob) => {
                let p = match vfs_join(&ob.root, path) {
                    Ok(p) => p,
                    Err(e) => {
                        return Err(map_vfs_error(e));
                    },
                };
                match vfs_read_all(&p) {
                    Ok(bytes) => Ok(File::new(bytes)),
                    Err(e) => Err(map_vfs_error(e)),
                }
            },
            Backend::BasePath { base, under } => {
                let joined = join_with_slash(base.as_str(), path);
                under.open(joined.as_str())
            },
            Backend::CopyOnWrite(c) => {
                if c.deleted_paths.contains(path) {
                    return Err(FsError::NotFound);
                }
                if c.layer.path_exists(path) {
                    return c.layer.open(path);
                }
                match c.fallback.open(path) {
                    Ok(f) => Ok(f),
                    Err(_) => Err(FsError::NotFound),
                }
            },
        }
    }

    /// Creates an empty file at `path`. On a modelled file system, succeeds
    /// exactly when the path is free, and afterwards the model holds an
    /// empty file there.
    pub fn create(&mut self, path: &str) -> (r: Result<File, FsError>)
        requires
            old(self).wf(),
        ensures
            final(self).wf(),
            match old(self).model() {
                Some(m) => {
                    &&& final(self).model() is Some
                    &&& match r {
                        Ok(f) => !m.contains_key(path@) && final(self).model()->0 =~= m.insert(
                            path@,
                            EntryV::FileData(Seq::empty()),
                        ) && f.data@ == Seq::<u8>::empty() && f.pos == 0,
                        Err(e) => e == FsError::AlreadyExists && m.contains_key(path@) && final(self).model()->0 =~= m,
                    }
                },
                None => true,
            },
        decreases *old(self),
    {
        let ghost pre = *old(self);
        let ghost mut j: Seq<char> = Seq::empty();
        let r: Result<File, FsError> = match &mut self.backend {
            Backend::InMemory(st) => st.create(path),
            Backend::Os(ob) => fs_os_create(ob, path),
            Backend::BasePath { base, under } => {
                let joined = join_with_slash(base.as_str(), path);
                proof {
                    j = joined@;
                }
                under.create(joined.as_str())
            },
            Backend::CopyOnWrite(c) => {
                let gone = c.deleted_paths.contains(path);
                if !gone && c.layer.path_exists(path) {
                    Err(FsError::AlreadyExists)
                } else {
                    let fb = if gone {
                        Ok(false)
                    } else {
                        c.fallback.path_exists(path)
                    };
                    match fb {
                        Ok(true) => Err(FsError::AlreadyExists),
                        Err(e) => Err(e),
                        Ok(false) => {
                            c.deleted_paths.remove(path);
                            c.layer.save(path, &Vec::new());
                            Ok(File::new(Vec::new()))
                        },
                    }
                }
            },
        };
        proof {
            glue_two_state(pre, *self, path@, j, GlueOp::Insert(EntryV::FileData(Seq::empty())), r is Ok);
        }
        r
    }

    /// Creates a directory entry at `path`. On a modelled file system,
    /// succeeds exactly when the path is free.
    pub fn create_dir(&mut self, path: &str) -> (r: Result<(), FsError>)
        requires
            old(self).wf(),
        ensures
            final(self).wf(),
            match old(self).model() {
                Some(m) => {
                    &&& final(self).model() is Some
                    &&& match r {
                        Ok(()) => !m.contains_key(path@) && final(self).model()->0 =~= m.insert(
                            path@,
                            EntryV::Dir,
                        ),
                        Err(e) => e == FsError::AlreadyExists && m.contains_key(path@) && final(self).model()->0 =~= m,
                    }
                },
                None => true,
            },
        decreases *old(self),
    {
        let ghost pre = *old(self);
        let ghost mut j: Seq<char> = Seq::empty();
        let r: Result<(), FsError> = match &mut self.backend {
            Backend::InMemory(st) => st.create_dir(path),
            Backend::Os(ob) => fs_os_create_dir(ob, path),
            Backend::BasePath { base, under } => {
                let joined = join_with_slash(base.as_str(), path);
                proof {
                    j = joined@;
                }
                under.create_dir(joined.as_str())
            },
            Backend::CopyOnWrite(c) => {
                let gone = c.deleted_paths.contains(path);
                if !gone && c.layer.path_exists(path) {
                    Err(FsError::AlreadyExists)
                } else {
                    let fb = if gone {
                        Ok(false)
                    } else {
                        c.fallback.path_exists(path)
                    };
                    match fb {
                        Ok(true) => Err(FsError::AlreadyExists),
                        Err(e) => Err(e),
                        Ok(false) => {
                            c.deleted_paths.remove(path);
                            c.layer.put_dir(path);
                            Ok(())
                        },
                    }
                }
            },
        };
        proof {
            glue_two_state(pre, *self, path@, j, GlueOp::Insert(EntryV::Dir), r is Ok);
        }
        r
    }

    /// Writes a file's buffered bytes back to the file system, creating or
    /// replacing the entry at `path`. On the copy-on-write backend the bytes
    /// land in the private layer, never underneath.
    pub fn flush_file(&mut self, path: &str, f: &File) -> (r: Result<(), FsError>)
        requires
            old(self).wf(),
        ensures
            final(self).wf(),
            match old(self).model() {
                Some(m) => {
                    &&& r == Ok::<(), FsError>(())
                    &&& final(self).model() is Some
                    &&& final(self).model()->0 =~= m.insert(path@, EntryV::FileData(f.data@))
                },
                None => true,
            },
        decreases *old(self),
    {
        let ghost pre = *old(self);
        let ghost mut j: Seq<char> = Seq::empty();
        let r: Result<(), FsError> = match &mut self.backend {
            Backend::InMemory(st) => {
                st.save(path, &f.data);
                Ok(())
            },
            Backend::Os(ob) => fs_os_flush(ob, path, f),
            Backend::BasePath { base, under } => {
                let joined = join_with_slash(base.as_str(), path);
                proof {
                    j = joined@;
                }
                under.flush_file(joined.as_str(), f)
            },
            Backend::CopyOnWrite(c) => {
                c.layer.save(path, &f.data);
                c.deleted_paths.remove(path);
                Ok(())
            },
        };
        proof {
            glue_two_state(pre, *self, path@, j, GlueOp::Insert(EntryV::FileData(f.data@)), r is Ok);
        }
        r
    }

    /// Moves the entry at `from` to `to`, replacing whatever was at `to`.
    /// The copy-on-write backend does not support moving yet.
    pub fn move_path(&mut self, from: &str, to: &str) -> (r: Result<(), FsError>)
        requires
            old(self).wf(),
        ensures
            final(self).wf(),
            match old(self).model() {
                Some(m) => {
                    &&& final(self).model() is Some
                    &&& match r {
                        Ok(()) => m.contains_key(from@) && final(self).model()->0 =~= m.remove(
                            from@,
                        ).insert(to@, m[from@]),
                        Err(e) => final(self).model()->0 =~= m && ((e == FsError::NotSupported
                            && !old(self).supports_removal()) || (e == FsError::AlreadyExists
                            && !m.contains_key(from@))),
                    }
                },
                None => true,
            },
        decreases *old(self),
    {
        let ghost pre = *old(self);
        let ghost mut jf: Seq<char> = Seq::empty();
        let ghost mut jt: Seq<char> = Seq::empty();
        let r: Result<(), FsError> = match &mut self.backend {
            Backend::InMemory(st) => st.move_path(from, to),
            Backend::Os(ob) => fs_os_move(ob, from, to),
            Backend::BasePath { base, under } => {
                let joined_from = join_with_slash(base.as_str(), from);
                let joined_to = join_with_slash(base.as_str(), to);
                proof {
                    jf = joined_from@;
                    jt = joined_to@;
                }
                under.move_path(joined_from.as_str(), joined_to.as_str())
            },
            Backend::CopyOnWrite(_) => Err(FsError::NotSupported),
        };
        proof {
            glue_move(pre, *self, from@, to@, jf, jt, r is Ok);
        }
        r
    }

    /// Removes the file at `path`. The copy-on-write backend does not
    /// support removal yet.
    pub fn remove_file(&mut self, path: &str) -> (r: Result<(), FsError>)
        requires
            old(self).wf(),
        ensures
            final(self).wf(),
            match old(self).model() {
                Some(m) => {
                    &&& final(self).model() is Some
                    &&& match r {
                        Ok(()) => m.contains_key(path@) && m[path@] is FileData && final(self).model()->0 =~= m.remove(path@),
                        Err(e) => final(self).model()->0 =~= m && ((e == FsError::NotSupported
                            && !old(self).supports_removal()) || (!m.contains_key(path@) && e
                            == FsError::AlreadyExists) || (m.contains_key(path@) && m[path@]
                            is Dir && e == FsError::InvalidInput)),
                    }
                },
                None => true,
            },
        decreases *old(self),
    {
        let ghost pre = *old(self);
        let ghost mut j: Seq<char> = Seq::empty();
        let r: Result<(), FsError> = match &mut self.backend {
            Backend::InMemory(st) => st.remove_file(path),
            Backend::Os(ob) => fs_os_remove_file(ob, path),
            Backend::BasePath { base, under } => {
                let joined = join_with_slash(base.as_str(), path);
                proof {
                    j = joined@;
                }
                under.remove_file(joined.as_str())
            },
            Backend::CopyOnWrite(_) => Err(FsError::NotSupported),
        };
        proof {
            glue_two_state(pre, *self, path@, j, GlueOp::Remove, r is Ok);
        }
        r
    }

    /// Removes the directory at `path`. The copy-on-write backend does not
    /// support removal yet.
    pub fn remove_dir(&mut self, path: &str) -> (r: Result<(), FsError>)
        requires
            old(self).wf(),
        ensures
            final(self).wf(),
            match old(self).model() {
                Some(m) => {
                    &&& final(self).model() is Some
                    &&& match r {
                        Ok(()) => m.contains_key(path@) && m[path@] is Dir && final(self).model()->0 =~= m.remove(path@),
                        Err(e) => final(self).model()->0 =~= m && ((e == FsError::NotSupported
                            && !old(self).supports_removal()) || (e == FsError::InvalidInput && !(
                        m.contains_key(path@) && m[path@] is Dir))),
                    }
                },
                None => true,
            },
        decreases *old(self),
    {
        let ghost pre = *old(self);
        let ghost mut j: Seq<char> = Seq::empty();
        let r: Result<(), FsError> = match &mut self.backend {
            Backend::InMemory(st) => st.remove_dir(path),
            Backend::Os(ob) => fs_os_remove_dir(ob, path),
            Backend::BasePath { base, under } => {
                let joined = join_with_slash(base.as_str(), path);
                proof {
                    j = joined@;
                }
                under.remove_dir(joined.as_str())
            },
            Backend::CopyOnWrite(_) => Err(FsError::NotSupported),
        };
        proof {
            glue_two_state(pre, *self, path@, j, GlueOp::Remove, r is Ok);
        }
        r
    }
}

/// The change a successful operation makes to a modelled file system.
pub enum GlueOp {
    Insert(EntryV),
    Remove,
}

/// Appending behind a common prefix is injective: equal results mean equal
/// appended parts.
proof fn lemma_prefix_cancel(a: Seq<char>, b: Seq<char>, c: Seq<char>)
    ensures
        (a + b == a + c) ==> b == c,
{
    if a + b == a + c {
        assert(b =~= (a + b).subrange(a.len() as int, (a + b).len() as int));
        assert(c =~= (a + c).subrange(a.len() as int, (a + c).len() as int));
    }
}

/// Carries the effect of one operation on a base-path or copy-on-write
/// backend's inner state up to the composed model: an insert or remove below
/// the prefix is the same insert or remove of the outer path, and an
/// untouched inner state leaves the outer model alone.
proof fn glue_two_state(pre: FileSystem, post: FileSystem, path: Seq<char>, j: Seq<char>, op: GlueOp, ok: bool)
    requires
        match (pre.backend, post.backend) {
            (Backend::BasePath { base: b1, under: u1 }, Backend::BasePath { base: b2, under: u2 }) => {
                b1 == b2 && j == b1@ + seq!['/'] + path && (match (u1.model(), u2.model()) {
                    (Some(m1), Some(m2)) => {
                        if ok {
                            match op {
                                GlueOp::Insert(v) => m2 == m1.insert(j, v),
                                GlueOp::Remove => m2 == m1.remove(j),
                            }
                        } else {
                            m2 == m1
                        }
                    },
                    (None, _) => true,
                    (Some(_), None) => false,
                })
            },
            (Backend::CopyOnWrite(c1), Backend::CopyOnWrite(c2)) => {
                c1.fallback == c2.fallback && (if ok {
                    match op {
                        GlueOp::Insert(v) => c2.layer.contents() == c1.layer.contents().insert(
                            path,
                            v,
                        ) && c2.deleted_paths.view_set() == c1.deleted_paths.view_set().remove(
                            path,
                        ),
                        GlueOp::Remove => false,
                    }
                } else {
                    c2.layer.contents() == c1.layer.contents()
                        && c2.deleted_paths.view_set() == c1.deleted_paths.view_set()
                })
            },
            (Backend::InMemory(_), Backend::InMemory(_)) => true,
            (Backend::Os(_), Backend::Os(_)) => true,
            _ => false,
        },
    ensures
        pre.model() is Some && pre.backend is BasePath ==> post.model() is Some,
        pre.model() is Some && pre.backend is CopyOnWrite ==> post.model() is Some,
        match (pre.backend, post.backend) {
            (Backend::BasePath { base: b1, under: u1 }, Backend::BasePath { base: b2, under: u2 }) => {
                pre.model() is Some ==> {
                    &&& (u1.model()->0.contains_key(j) == pre.model()->0.contains_key(path))
                    &&& (u1.model()->0.contains_key(j) ==> u1.model()->0[j] == pre.model()->0[path])
                    &&& if ok {
                        match op {
                            GlueOp::Insert(v) => post.model()->0 =~= pre.model()->0.insert(path, v),
                            GlueOp::Remove => post.model()->0 =~= pre.model()->0.remove(path),
                        }
                    } else {
                        post.model()->0 =~= pre.model()->0
                    }
                }
            },
            (Backend::CopyOnWrite(c1), Backend::CopyOnWrite(c2)) => {
                pre.model() is Some ==> {
                    if ok {
                        match op {
                            GlueOp::Insert(v) => post.model()->0 =~= pre.model()->0.insert(path, v),
                            GlueOp::Remove => true,
                        }
                    } else {
                        post.model()->0 =~= pre.model()->0
                    }
                }
            },
            _ => true,
        },
{
    match (pre.backend, post.backend) {
        (Backend::BasePath { base: b1, under: u1 }, Backend::BasePath { base: b2, under: u2 }) => {
            if pre.model() is Some {
                let b = b1@ + seq!['/'];
                assert forall|k: Seq<char>| #[trigger] (b + k) == b + path implies k == path by {
                    lemma_prefix_cancel(b, k, path);
                }
                if ok {
                    match op {
                        GlueOp::Insert(v) => {
                            assert(post.model()->0 =~= pre.model()->0.insert(path, v));
                        },
                        GlueOp::Remove => {
                            assert(post.model()->0 =~= pre.model()->0.remove(path));
                        },
                    }
                } else {
                    assert(post.model()->0 =~= pre.model()->0);
                }
            }
        },
        (Backend::CopyOnWrite(c1), Backend::CopyOnWrite(c2)) => {
            if pre.model() is Some {
                if ok {
                    match op {
                        GlueOp::Insert(v) => {
                            assert(post.model()->0 =~= pre.model()->0.insert(path, v));
                        },
                        GlueOp::Remove => {},
                    }
                } else {
                    assert(post.model()->0 =~= pre.model()->0);
                }
            }
        },
        _ => {},
    }
}

/// As `glue_two_state`, for the two-path move operation.
proof fn glue_move(pre: FileSystem, post: FileSystem, from: Seq<char>, to: Seq<char>, jf: Seq<char>, jt: Seq<char>, ok: bool)
    requires
        match (pre.backend, post.backend) {
            (Backend::BasePath { base: b1, under: u1 }, Backend::BasePath { base: b2, under: u2 }) => {
                b1 == b2 && jf == b1@ + seq!['/'] + from && jt == b1@ + seq!['/'] + to && (match (
                u1.model(), u2.model()) {
                    (Some(m1), Some(m2)) => {
                        if ok {
                            m1.contains_key(jf) && m2 == m1.remove(jf).insert(jt, m1[jf])
                        } else {
                            m2 == m1
                        }
                    },
                    (None, _) => true,
                    (Some(_), None) => false,
                })
            },
            (Backend::CopyOnWrite(c1), Backend::CopyOnWrite(c2)) => !ok && c1 == c2,
            (Backend::InMemory(_), Backend::InMemory(_)) => true,
            (Backend::Os(_), Backend::Os(_)) => true,
            _ => false,
        },
    ensures
        pre.model() is Some && pre.backend is BasePath ==> post.model() is Some,
        pre.model() is Some && pre.backend is CopyOnWrite ==> post.model() is Some,
        match (pre.backend, post.backend) {
            (Backend::BasePath { base: b1, under: u1 }, Backend::BasePath { base: b2, under: u2 }) => {
                pre.model() is Some ==> {
                    &&& (u1.model()->0.contains_key(jf) == pre.model()->0.contains_key(from))
                    &&& (u1.model()->0.contains_key(jf) ==> u1.model()->0[jf] == pre.model()->0[
                        from
                    ])
                    &&& if ok {
                        post.model()->0 =~= pre.model()->0.remove(from).insert(
                            to,
                            pre.model()->0[from],
                        )
                    } else {
                        post.model()->0 =~= pre.model()->0
                    }
                }
            },
            (Backend::CopyOnWrite(c1), Backend::CopyOnWrite(c2)) => {
                pre.model() is Some && !ok ==> post.model()->0 =~= pre.model()->0
            },
            _ => true,
        },
{
    match (pre.backend, post.backend) {
        (Backend::BasePath { base: b1, under: u1 }, Backend::BasePath { base: b2, under: u2 }) => {
            if pre.model() is Some {
                let b = b1@ + seq!['/'];
                assert forall|k: Seq<char>| #[trigger] (b + k) == b + from implies k == from by {
                    lemma_prefix_cancel(b, k, from);
                }
                assert forall|k: Seq<char>| #[trigger] (b + k) == b + to implies k == to by {
                    lemma_prefix_cancel(b, k, to);
                }
                if ok {
                    assert(post.model()->0 =~= pre.model()->0.remove(from).insert(
                        to,
                        pre.model()->0[from],
                    ));
                } else {
                    assert(post.model()->0 =~= pre.model()->0);
                }
            }
        },
        _ => {},
    }
}

/// Creates an empty file on the real disk, unless the path is taken.
fn fs_os_create(ob: &OsBackend, path: &str) -> (r: Result<File, FsError>) {
    let p = match vfs_join(&ob.root, path) {
        Ok(p) => p,
        Err(e) => {
            return Err(map_vfs_error(e));
        },
    };
    match vfs_exists(&p) {
        Ok(true) => {
            return Err(FsError::AlreadyExists);
        },
        Ok(false) => {},
        Err(e) => {
            return Err(map_vfs_error(e));
        },
    }
    let empty: Vec<u8> = Vec::new();
    match vfs_write_all(&p, &empty) {
        Ok(()) => Ok(File::new(Vec::new())),
        Err(e) => Err(map_vfs_error(e)),
    }
}

/// Creates a directory on the real disk.
fn fs_os_create_dir(ob: &OsBackend, path: &str) -> (r: Result<(), FsError>) {
    let p = match vfs_join(&ob.root, path) {
        Ok(p) => p,
        Err(e) => {
            return Err(map_vfs_error(e));
        },
    };
    match vfs_create_dir(&p) {
        Ok(()) => Ok(()),
        Err(e) => Err(map_vfs_error(e)),
    }
}

/// Writes a buffered file's bytes to the real disk.
fn fs_os_flush(ob: &OsBackend, path: &str, f: &File) -> (r: Result<(), FsError>) {
    let p = match vfs_join(&ob.root, path) {
        Ok(p) => p,
        Err(e) => {
            return Err(map_vfs_error(e));
        },
    };
    match vfs_write_all(&p, &f.data) {
        Ok(()) => Ok(()),
        Err(e) => Err(map_vfs_error(e)),
    }
}

/// Renames a file on the real disk.
fn fs_os_move(ob: &OsBackend, from: &str, to: &str) -> (r: Result<(), FsError>) {
    let pf = match vfs_join(&ob.root, from) {
        Ok(p) => p,
        Err(e) => {
            return Err(map_vfs_error(e));
        },
    };
    let pt = match vfs_join(&ob.root, to) {
        Ok(p) => p,
        Err(e) => {
            return Err(map_vfs_error(e));
        },
    };
    match vfs_move_file(&pf, &pt) {
        Ok(()) => Ok(()),
        Err(e) => Err(map_vfs_error(e)),
    }
}

/// Removes a file on the real disk.
fn fs_os_remove_file(ob: &OsBackend, path: &str) -> (r: Result<(), FsError>) {
    let p = match vfs_join(&ob.root, path) {
        Ok(p) => p,
        Err(e) => {
            return Err(map_vfs_error(e));
        },
    };
    match vfs_remove_file(&p) {
        Ok(()) => Ok(()),
        Err(e) => Err(map_vfs_error(e)),
    }
}

/// Removes a directory on the real disk.
fn fs_os_remove_dir(ob: &OsBackend, path: &str) -> (r: Result<(), FsError>) {
    let p = match vfs_join(&ob.root, path) {
        Ok(p) => p,
        Err(e) => {
            return Err(map_vfs_error(e));
        },
    };
    match vfs_remove_dir(&p) {
        Ok(()) => Ok(()),
        Err(e) => Err(map_vfs_error(e)),
    }
}

} // verus!
