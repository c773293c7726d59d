use vstd::prelude::*;

use crate::error::{AppError, AppErrorType};
use crate::paths::{
    join_paths, parent_of, path_join, path_parent, path_strip_prefix, strip_path_prefix,
};

verus! {

/// A local file known to the synchronisation.
#[derive(Debug)]
pub struct LocalSyncFileManager {
    pub path: String,
    pub size: u64,
    pub md5: String,
}

impl LocalSyncFileManager {
    /// Whether the file at `path` is already on the drive. Nothing is
    /// recorded yet, so every file is uploaded again.
    pub fn is_file_has_synced(&self, path: &str) -> (r: bool)
        ensures
            !r,
    {
        false
    }
}

/// Root directory of absolute local paths.
pub const ROOT_DIR: &'static str = "/";

/// Where a local file goes on the drive: under `remote_dir`, keeping its
/// whole path when `include_prefix` is set, else its path relative to the
/// parent of the local root `local_root` (its path as it is when the root
/// is relative). `None` when the file does not lie where that rule needs.
pub open spec fn remote_path_spec(
    file: Seq<char>,
    remote_dir: Seq<char>,
    include_prefix: bool,
    local_root: Seq<char>,
) -> Option<Seq<char>> {
    let rel = if include_prefix {
        path_strip_prefix(file, ROOT_DIR@)
    } else if local_root.len() > 0 && local_root[0] == '/' {
        match path_parent(local_root) {
            Some(parent) => path_strip_prefix(file, parent),
            None => None,
        }
    } else {
        Some(file)
    };
    match rel {
        Some(r) => Some(path_join(remote_dir, r)),
        None => None,
    }
}

/// The remote path a scanned local file is uploaded to.
pub fn remote_path_for(file: &str, remote_dir: &str, include_prefix: bool, local_root: &str) -> (r:
    Result<String, AppError>)
    ensures
        match remote_path_spec(file@, remote_dir@, include_prefix, local_root@) {
            Some(p) => r matches Ok(q) && q@ == p,
            None => r matches Err(e) && e.error_type == AppErrorType::Client,
        },
{
    let rel: Option<String> = if include_prefix {
        strip_path_prefix(file, ROOT_DIR)
    } else if local_root.unicode_len() > 0 && local_root.get_char(0) == '/' {
        match parent_of(local_root) {
            Some(parent) => strip_path_prefix(file, parent.as_str()),
            None => None,
        }
    } else {
        Some(file.to_owned())
    };
    match rel {
        Some(r) => Ok(join_paths(remote_dir, r.as_str())),
        None => Err(AppError::new(AppErrorType::Client, "file lies outside the local root", None)),
    }
}

} // verus!
