use vstd::prelude::*;

use crate::filesys::file::FsError;

use vstd::string::StringExecFns;

verus! {

// The operating-system backend. All real disk access goes through the
// outside virtual-file-system crate; each call the backend makes has one
// trusted wrapper here. Nothing is promised about what the disk holds:
// callers state what holds of every outcome.

#[verifier::external_type_specification]
#[verifier::external_body]
pub struct ExVfsPath(vfs::VfsPath);

#[verifier::external_type_specification]
#[verifier::external_body]
pub struct ExVfsError(vfs::VfsError);

/// Relies on `VfsPath::new` and `PhysicalFS::new`: a root path over the
/// process's working directory.
#[verifier::external_body]
pub(crate) fn os_root() -> vfs::VfsPath {
    vfs::VfsPath::new(vfs::PhysicalFS::new("."))
}

/// Relies on `VfsPath::new` and `PhysicalFS::new`: a root path over the
/// named directory.
#[verifier::external_body]
pub(crate) fn os_root_at(path: &str) -> vfs::VfsPath {
    vfs::VfsPath::new(vfs::PhysicalFS::new(path))
}

/// Relies on `VfsError::kind`: maps each error kind of the outside crate to
/// this library's corresponding error, one arm per kind.
#[verifier::external_body]
pub(crate) fn map_vfs_error(e: vfs::VfsError) -> FsError {
    match e.kind() {
        vfs::error::VfsErrorKind::FileNotFound => FsError::NotFound,
        vfs::error::VfsErrorKind::DirectoryExists => FsError::AlreadyExists,
        vfs::error::VfsErrorKind::FileExists => FsError::AlreadyExists,
        vfs::error::VfsErrorKind::InvalidPath => FsError::InvalidInput,
        vfs::error::VfsErrorKind::NotSupported => FsError::NotSupported,
        vfs::error::VfsErrorKind::IoError(_) => FsError::Other,
        vfs::error::VfsErrorKind::Other(_) => FsError::Other,
    }
}

/// Relies on `VfsPath::join`: appends a path below the root, rejecting
/// invalid segments.
#[verifier::external_body]
pub(crate) fn vfs_join(root: &vfs::VfsPath, path: &str) -> Result<vfs::VfsPath, vfs::VfsError> {
    root.join(path)
}

/// Relies on `VfsPath::exists`.
#[verifier::external_body]
pub(crate) fn vfs_exists(p: &vfs::VfsPath) -> Result<bool, vfs::VfsError> {
    p.exists()
}

/// Relies on `VfsPath::open_file` and `std::io::Read::read_to_end`: the
/// file's bytes, whole.
#[verifier::external_body]
pub(crate) fn vfs_read_all(p: &vfs::VfsPath) -> Result<Vec<u8>, vfs::VfsError> {
    let mut f = p.open_file()?;
    let mut buf: Vec<u8> = Vec::new();
    f.read_to_end(&mut buf).map_err(vfs::VfsError::from)?;
    Ok(buf)
}

/// Relies on `VfsPath::create_file` and `std::io::Write::write_all`: the
/// bytes become the file's whole content.
#[verifier::external_body]
pub(crate) fn vfs_write_all(p: &vfs::VfsPath, data: &Vec<u8>) -> Result<(), vfs::VfsError> {
    let mut f = p.create_file()?;
    f.write_all(data).map_err(vfs::VfsError::from)?;
    f.flush().map_err(vfs::VfsError::from)
}

/// Relies on `VfsPath::create_dir`.
#[verifier::external_body]
pub(crate) fn vfs_create_dir(p: &vfs::VfsPath) -> Result<(), vfs::VfsError> {
    p.create_dir()
}

/// Relies on `VfsPath::move_file`.
#[verifier::external_body]
pub(crate) fn vfs_move_file(from: &vfs::VfsPath, to: &vfs::VfsPath) -> Result<
    (),
    vfs::VfsError,
> {
    from.move_file(to)
}

/// Relies on `VfsPath::remove_file`.
#[verifier::external_body]
pub(crate) fn vfs_remove_file(p: &vfs::VfsPath) -> Result<(), vfs::VfsError> {
    p.remove_file()
}

/// Relies on `VfsPath::remove_dir`.
#[verifier::external_body]
pub(crate) fn vfs_remove_dir(p: &vfs::VfsPath) -> Result<(), vfs::VfsError> {
    p.remove_dir()
}

/// Relies on `VfsPath::is_dir`.
#[verifier::external_body]
pub(crate) fn vfs_is_dir(p: &vfs::VfsPath) -> Result<bool, vfs::VfsError> {
    p.is_dir()
}

/// Glues two strings together.
pub(crate) fn concat_str(a: &str, b: &str) -> (r: String)
    ensures
        r@ == a@ + b@,
{
    let mut r = a.to_owned();
    r.append(b);
    r
}

/// Joins two path pieces with one separating slash.
pub(crate) fn join_with_slash(base: &str, path: &str) -> (r: String)
    ensures
        r@ == base@ + seq!['/'] + path@,
{
    let mut r = base.to_owned();
    r.append("/");
    r.append(path);
    proof {
        reveal_strlit("/");
        assert("/"@ =~= seq!['/']);
        assert(r@ =~= base@ + seq!['/'] + path@);
    }
    r
}

} // verus!
