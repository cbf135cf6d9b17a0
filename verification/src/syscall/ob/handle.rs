//! Opening and destroying object handles: the path check of an open, what a
//! destroy tears down besides the handle, and the drive behind a volume
//! root handle.

use vstd::prelude::*;
use vstd::string::*;
use crate::syscall::{err_to_u64, spec_err_to_u64, SyscallError};
use crate::syscall::ob::set::{fs_object_path, spec_fs_object_path, GLOBAL_FS_PREFIX};
use crate::vfs::mount::{is_prefix, starts_with};

verus! {

/// An object open: `Inval` for a null path pointer, `Fault` when the path
/// could not be copied in (`path` is `None`), `NoEnt` for an empty path.
pub fn open_path_check(path_ptr: u64, path: Option<&str>) -> (r: Result<(), u64>)
    ensures
        r == (if path_ptr == 0 {
            Err(spec_err_to_u64(SyscallError::Inval))
        } else {
            match path {
                None => Err(spec_err_to_u64(SyscallError::Fault)),
                Some(p) => if p@.len() == 0 {
                    Err(spec_err_to_u64(SyscallError::NoEnt))
                } else {
                    Ok(())
                },
            }
        }),
{
    if path_ptr == 0 {
        return Err(err_to_u64(SyscallError::Inval));
    }
    match path {
        None => Err(err_to_u64(SyscallError::Fault)),
        Some(p) => if p.unicode_len() == 0 {
            Err(err_to_u64(SyscallError::NoEnt))
        } else {
            Ok(())
        },
    }
}

/// The kind of object a destroyed handle refers to, as far as a destroy
/// cares.
#[derive(Clone, Copy, Debug, PartialEq, Eq, Structural)]
pub enum DestroyKind {
    Directory,
    Driver,
    Other,
}

/// What destroying a handle tears down before the handle is closed.
pub struct DestroyPlan {
    /// The volume directory to remove.
    pub remove_dir: Option<String>,
    /// The driver to unload.
    pub unload_driver: Option<String>,
    /// Whether the object leaves the namespace.
    pub remove_from_namespace: bool,
}

/// `name` without one trailing NUL character.
pub open spec fn without_trailing_nul(name: Seq<char>) -> Seq<char> {
    if name.len() > 0 && name.last() == '\0' {
        name.drop_last()
    } else {
        name
    }
}

/// Plans the destroy of an object of kind `kind` named `name`: a volume
/// directory (named under `\Global\FileSystem\` with a path below it) is
/// removed from its volume; a driver is unloaded by its name less a
/// trailing NUL; anything under `\Global\FileSystem\` leaves the namespace.
pub fn destroy_plan(kind: DestroyKind, name: &str) -> (p: DestroyPlan)
    ensures
        match p.remove_dir {
            Some(d) => kind == DestroyKind::Directory && spec_fs_object_path(name@) == Ok::<Seq<char>, u64>(d@),
            None => !(kind == DestroyKind::Directory && spec_fs_object_path(name@) is Ok),
        },
        match p.unload_driver {
            Some(d) => kind == DestroyKind::Driver && d@ == without_trailing_nul(name@),
            None => kind != DestroyKind::Driver,
        },
        p.remove_from_namespace == is_prefix(GLOBAL_FS_PREFIX@, name@),
{
    let mut remove_dir: Option<String> = None;
    let mut unload_driver: Option<String> = None;
    match kind {
        DestroyKind::Directory => {
            match fs_object_path(name) {
                Ok(path) => {
                    remove_dir = Some(path);
                },
                Err(_) => {},
            }
        },
        DestroyKind::Driver => {
            let n = name.unicode_len();
            if n > 0 && name.get_char(n - 1) == '\0' {
                unload_driver = Some(String::from_str(name.substring_char(0, n - 1)));
                assert(name@.subrange(0, n - 1) =~= name@.drop_last());
            } else {
                unload_driver = Some(String::from_str(name));
            }
        },
        DestroyKind::Other => {},
    }
    DestroyPlan {
        remove_dir,
        unload_driver,
        remove_from_namespace: starts_with(name, GLOBAL_FS_PREFIX),
    }
}

/// The drive index behind a volume root handle: `BadF` for a closed handle
/// or one whose object is gone (`object_is_directory` is `None`), `Inval`
/// for a non-directory object or a handle without a drive.
pub fn resolve_handle_drive(open: bool, object_is_directory: Option<bool>, drive: Option<u8>) -> (r: Result<usize, u64>)
    ensures
        r == (if !open {
            Err(spec_err_to_u64(SyscallError::BadF))
        } else {
            match object_is_directory {
                None => Err(spec_err_to_u64(SyscallError::BadF)),
                Some(false) => Err(spec_err_to_u64(SyscallError::Inval)),
                Some(true) => match drive {
                    None => Err(spec_err_to_u64(SyscallError::Inval)),
                    Some(d) => Ok(d as usize),
                },
            }
        }),
{
    if !open {
        return Err(err_to_u64(SyscallError::BadF));
    }
    match object_is_directory {
        None => Err(err_to_u64(SyscallError::BadF)),
        Some(false) => Err(err_to_u64(SyscallError::Inval)),
        Some(true) => match drive {
            None => Err(err_to_u64(SyscallError::Inval)),
            Some(d) => Ok(d as usize),
        },
    }
}

} // verus!
