//! The OS filesystem capability, behind trusted wrappers.
//!
//! Every path operation of a transaction goes through an opened
//! `cap_std::fs::Dir`: a capability handle that resolves relative paths
//! inside its own subtree and refuses paths that escape it. The wrappers
//! here are the only places where the library calls into the operating
//! system; each one converts its arguments and its result and does
//! nothing else.

use vstd::prelude::*;

use crate::error::Error;
use crate::transactions::paths::is_absolute_path;
use cap_std::fs::MetadataExt;
use cap_std::fs::PermissionsExt;

verus! {

/// Directory capability handles are `cap_std::fs::Dir` values; the type
/// itself stays opaque.
#[verifier::external_type_specification]
#[verifier::external_body]
pub struct ExDir(cap_std::fs::Dir);

/// Open files are `cap_std::fs::File` values; the type itself stays
/// opaque.
#[verifier::external_type_specification]
#[verifier::external_body]
pub struct ExFile(cap_std::fs::File);

/// What kind of object a path names.
#[derive(Debug, Clone, Copy, PartialEq, Eq, Structural)]
pub enum PathKind {
    /// A regular file.
    File,
    /// A directory.
    Directory,
    /// Anything else (a socket, a device, ...).
    Other,
}

/// The metadata of a path that the transaction logic reads.
#[derive(Debug, Clone, Copy)]
pub struct PathMeta {
    /// The kind of object.
    pub kind: PathKind,
    /// The full mode bits.
    pub mode: u32,
    /// The numeric owner id.
    pub uid: u32,
    /// The numeric group id.
    pub gid: u32,
}

/// Relies on `cap_std::fs::Dir::open_ambient_dir`: opens a directory by
/// ambient path and returns a capability confined to it.
#[verifier::external_body]
pub(crate) fn dir_open_ambient(path: &str) -> (r: Result<cap_std::fs::Dir, Error>)
    ensures
        r is Err ==> r->Err_0 is IO,
{
    match cap_std::fs::Dir::open_ambient_dir(path, cap_std::ambient_authority()) {
        Ok(dir) => Ok(dir),
        Err(err) => Err(Error::IO(err)),
    }
}

/// Relies on `cap_std::fs::Dir::rename`: renames `from` (relative to
/// `from_dir`) to `to` (relative to `to_dir`), replacing `to` if
/// present. An absolute path is refused by the capability's own
/// resolution (every root component is an escape attempt).
#[verifier::external_body]
pub(crate) fn dir_rename(
    from_dir: &cap_std::fs::Dir,
    from: &str,
    to_dir: &cap_std::fs::Dir,
    to: &str,
) -> (r: Result<(), Error>)
    ensures
        r is Err ==> r->Err_0 is IO,
        is_absolute_path(from@) || is_absolute_path(to@) ==> r is Err,
{
    match from_dir.rename(from, to_dir, to) {
        Ok(()) => Ok(()),
        Err(err) => Err(Error::IO(err)),
    }
}

/// Relies on `cap_std::fs::Dir::hard_link`: creates `dst` as a hard link
/// to `src`, both relative to `dir`; an absolute path on either side is
/// refused by the capability's own resolution.
#[verifier::external_body]
pub(crate) fn dir_hard_link(dir: &cap_std::fs::Dir, src: &str, dst: &str) -> (r: Result<
    (),
    Error,
>)
    ensures
        r is Err ==> r->Err_0 is IO,
        is_absolute_path(src@) || is_absolute_path(dst@) ==> r is Err,
{
    match dir.hard_link(src, dir, dst) {
        Ok(()) => Ok(()),
        Err(err) => Err(Error::IO(err)),
    }
}

/// Relies on `cap_std::fs::Dir::symlink`: creates the symlink `link`
/// (relative to `dir`; an absolute link path is refused by the
/// capability's own resolution) whose target reads `original`, which is
/// recorded, not resolved.
#[verifier::external_body]
pub(crate) fn dir_symlink(dir: &cap_std::fs::Dir, original: &str, link: &str) -> (r: Result<
    (),
    Error,
>)
    ensures
        r is Err ==> r->Err_0 is IO,
        is_absolute_path(link@) ==> r is Err,
{
    match dir.symlink(original, link) {
        Ok(()) => Ok(()),
        Err(err) => Err(Error::IO(err)),
    }
}

/// Relies on `cap_std::fs::Dir::create_dir`: creates one new directory at
/// `path` relative to `dir`; fails if it already exists or if the path
/// is absolute.
#[verifier::external_body]
pub(crate) fn dir_create_dir(dir: &cap_std::fs::Dir, path: &str) -> (r: Result<(), Error>)
    ensures
        r is Err ==> r->Err_0 is IO,
        is_absolute_path(path@) ==> r is Err,
{
    match dir.create_dir(path) {
        Ok(()) => Ok(()),
        Err(err) => Err(Error::IO(err)),
    }
}

/// Relies on `cap_std::fs::Dir::create_dir_all`: creates the directory at
/// `path` relative to `dir` together with any missing parents; an
/// absolute path is refused by the capability's own resolution.
#[verifier::external_body]
pub(crate) fn dir_create_dir_all(dir: &cap_std::fs::Dir, path: &str) -> (r: Result<(), Error>)
    ensures
        r is Err ==> r->Err_0 is IO,
        is_absolute_path(path@) ==> r is Err,
{
    match dir.create_dir_all(path) {
        Ok(()) => Ok(()),
        Err(err) => Err(Error::IO(err)),
    }
}

/// Relies on `cap_std::fs::Dir::remove_file`: removes the file at `path`
/// relative to `dir`; an absolute path is refused by the capability's
/// own resolution.
#[verifier::external_body]
pub(crate) fn dir_remove_file(dir: &cap_std::fs::Dir, path: &str) -> (r: Result<(), Error>)
    ensures
        r is Err ==> r->Err_0 is IO,
        is_absolute_path(path@) ==> r is Err,
{
    match dir.remove_file(path) {
        Ok(()) => Ok(()),
        Err(err) => Err(Error::IO(err)),
    }
}

/// Relies on `cap_std::fs::Dir::remove_dir_all`: removes the directory at
/// `path` relative to `dir` with all of its contents; an absolute path
/// is refused by the capability's own resolution.
#[verifier::external_body]
pub(crate) fn dir_remove_dir_all(dir: &cap_std::fs::Dir, path: &str) -> (r: Result<(), Error>)
    ensures
        r is Err ==> r->Err_0 is IO,
        is_absolute_path(path@) ==> r is Err,
{
    match dir.remove_dir_all(path) {
        Ok(()) => Ok(()),
        Err(err) => Err(Error::IO(err)),
    }
}

/// Relies on `cap_std::fs::Dir::metadata` and the `MetadataExt`
/// accessors: stats `path` relative to `dir`, following symlinks. A
/// missing path is reported as `Ok(None)`; any other failure,
/// including an absolute path (an escape attempt, not a missing path),
/// as an IO error.
#[verifier::external_body]
pub(crate) fn dir_metadata(dir: &cap_std::fs::Dir, path: &str) -> (r: Result<
    Option<PathMeta>,
    Error,
>)
    ensures
        r is Err ==> r->Err_0 is IO,
        is_absolute_path(path@) ==> r is Err,
{
    match dir.metadata(path) {
        Ok(m) => {
            let kind = if m.is_file() {
                PathKind::File
            } else if m.is_dir() {
                PathKind::Directory
            } else {
                PathKind::Other
            };
            Ok(Some(PathMeta { kind, mode: m.mode(), uid: m.uid(), gid: m.gid() }))
        },
        Err(err) if err.kind() == std::io::ErrorKind::NotFound => Ok(None),
        Err(err) => Err(Error::IO(err)),
    }
}

/// Relies on `cap_std::fs::Dir::open`: opens the file at `path` relative
/// to `dir` for reading; an absolute path is refused by the
/// capability's own resolution.
#[verifier::external_body]
pub(crate) fn dir_open_file(dir: &cap_std::fs::Dir, path: &str) -> (r: Result<
    cap_std::fs::File,
    Error,
>)
    ensures
        r is Err ==> r->Err_0 is IO,
        is_absolute_path(path@) ==> r is Err,
{
    match dir.open(path) {
        Ok(f) => Ok(f),
        Err(err) => Err(Error::IO(err)),
    }
}

/// Relies on `cap_std::fs::Dir::create`: creates (or truncates) the file
/// at `path` relative to `dir` for writing; an absolute path is refused
/// by the capability's own resolution.
#[verifier::external_body]
pub(crate) fn dir_create_file(dir: &cap_std::fs::Dir, path: &str) -> (r: Result<
    cap_std::fs::File,
    Error,
>)
    ensures
        r is Err ==> r->Err_0 is IO,
        is_absolute_path(path@) ==> r is Err,
{
    match dir.create(path) {
        Ok(f) => Ok(f),
        Err(err) => Err(Error::IO(err)),
    }
}

/// Relies on `std::io::copy`: streams every byte of `input` into
/// `output`.
#[verifier::external_body]
pub(crate) fn copy_file_bytes(input: &mut cap_std::fs::File, output: &mut cap_std::fs::File) -> (r:
    Result<(), Error>)
    ensures
        r is Err ==> r->Err_0 is IO,
{
    match std::io::copy(input, output) {
        Ok(_) => Ok(()),
        Err(err) => Err(Error::IO(err)),
    }
}

/// Relies on `cap_std::fs::Dir::entries` and `DirEntry::file_name`: the
/// names of the entries of `dir`, in no promised order.
#[verifier::external_body]
pub(crate) fn dir_entry_names(dir: &cap_std::fs::Dir) -> (r: Result<Vec<String>, Error>)
    ensures
        r is Err ==> r->Err_0 is IO || r->Err_0 is Runtime,
{
    let mut names: Vec<String> = Vec::new();
    for entry in dir.entries().map_err(Error::IO)? {
        let name = entry.map_err(Error::IO)?.file_name();
        match name.into_string() {
            Ok(n) => names.push(n),
            Err(_) => return Err(Error::new_runtime("directory entry name is not UTF-8")),
        }
    }
    Ok(names)
}

/// Relies on `cap_std::fs::Dir::set_permissions` with a permission value
/// built by `cap_std::fs::PermissionsExt::from_mode`: sets the mode bits
/// of `path` relative to `dir`; an absolute path is refused by the
/// capability's own resolution.
#[verifier::external_body]
pub(crate) fn dir_set_mode(dir: &cap_std::fs::Dir, path: &str, mode: u32) -> (r: Result<
    (),
    Error,
>)
    ensures
        r is Err ==> r->Err_0 is IO,
        is_absolute_path(path@) ==> r is Err,
{
    match dir.set_permissions(path, cap_std::fs::Permissions::from_mode(mode)) {
        Ok(()) => Ok(()),
        Err(err) => Err(Error::IO(err)),
    }
}

/// Relies on `rustix::fs::chownat` with `SYMLINK_NOFOLLOW`: changes the
/// owner and group of `path` relative to `dir`; a `None` id leaves that
/// side untouched.
#[verifier::external_body]
pub(crate) fn dir_chown(dir: &cap_std::fs::Dir, path: &str, uid: Option<u32>, gid: Option<u32>)
    -> (r: Result<(), Error>)
    ensures
        r is Err ==> r->Err_0 is IO,
{
    let owner = uid.map(rustix::fs::Uid::from_raw);
    let group = gid.map(rustix::fs::Gid::from_raw);
    match rustix::fs::chownat(dir, path, owner, group, rustix::fs::AtFlags::SYMLINK_NOFOLLOW) {
        Ok(()) => Ok(()),
        Err(err) => Err(Error::IO(std::io::Error::from(err))),
    }
}

/// Relies on `nix::unistd::User::from_name`: the numeric id of a user
/// name, `None` when no such user exists.
#[verifier::external_body]
pub(crate) fn lookup_user_id(name: &str) -> (r: Result<Option<u32>, Error>)
    ensures
        r is Err ==> r->Err_0 is IO,
{
    match nix::unistd::User::from_name(name) {
        Ok(Some(user)) => Ok(Some(user.uid.as_raw())),
        Ok(None) => Ok(None),
        Err(err) => Err(Error::IO(std::io::Error::from(err))),
    }
}

/// Relies on `nix::unistd::Group::from_name`: the numeric id of a group
/// name, `None` when no such group exists.
#[verifier::external_body]
pub(crate) fn lookup_group_id(name: &str) -> (r: Result<Option<u32>, Error>)
    ensures
        r is Err ==> r->Err_0 is IO,
{
    match nix::unistd::Group::from_name(name) {
        Ok(Some(group)) => Ok(Some(group.gid.as_raw())),
        Ok(None) => Ok(None),
        Err(err) => Err(Error::IO(std::io::Error::from(err))),
    }
}

/// Relies on `nix::unistd::User::from_uid`: the name of a numeric user
/// id, `None` when no such user exists.
#[verifier::external_body]
pub(crate) fn lookup_user_name(uid: u32) -> (r: Result<Option<String>, Error>)
    ensures
        r is Err ==> r->Err_0 is IO,
{
    match nix::unistd::User::from_uid(nix::unistd::Uid::from_raw(uid)) {
        Ok(Some(user)) => Ok(Some(user.name)),
        Ok(None) => Ok(None),
        Err(err) => Err(Error::IO(std::io::Error::from(err))),
    }
}

/// Relies on `nix::unistd::Group::from_gid`: the name of a numeric group
/// id, `None` when no such group exists.
#[verifier::external_body]
pub(crate) fn lookup_group_name(gid: u32) -> (r: Result<Option<String>, Error>)
    ensures
        r is Err ==> r->Err_0 is IO,
{
    match nix::unistd::Group::from_gid(nix::unistd::Gid::from_raw(gid)) {
        Ok(Some(group)) => Ok(Some(group.name)),
        Ok(None) => Ok(None),
        Err(err) => Err(Error::IO(std::io::Error::from(err))),
    }
}

} // verus!
