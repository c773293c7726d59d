use vstd::prelude::*;

use crate::config::Config;

verus! {

/// Command line of the client.
#[derive(Debug)]
pub struct CommandLineArgs {
    pub command: Option<Commands>,
    /// Settings file to use instead of the default one.
    pub config: Option<String>,
    /// Whether to log at debug level.
    pub debug: bool,
    /// Name servers to resolve host names with, separated by commas.
    pub dns: Option<String>,
}

/// Sub-commands of the client.
#[derive(Debug)]
pub enum Commands {
    Auth,
    Download(DownloadArgs),
    Upload(UploadArgs),
    List(ListArgs),
    Remove(RemoveArgs),
    Quota(DiskQuotaArgs),
}

/// Arguments of an upload.
#[derive(Debug)]
pub struct UploadArgs {
    pub recursive: bool,
    /// Local file or directory; the configured local root when absent.
    pub local: Option<String>,
    /// Remote directory; the configured remote root when absent.
    pub remote: Option<String>,
    /// Whether remote paths keep the whole local path.
    pub include_prefix: bool,
}

/// Arguments of a download.
#[derive(Debug)]
pub struct DownloadArgs {
    /// Whether a directory is downloaded file by file.
    pub recursive: bool,
    pub remote: String,
    /// Local directory; the current one when absent.
    pub local: Option<String>,
}

/// Arguments of a listing.
#[derive(Debug)]
pub struct ListArgs {
    pub remote: String,
    pub recursive: bool,
}

/// Arguments of a removal.
#[derive(Debug)]
pub struct RemoveArgs {
    pub remote: String,
    pub recursive: bool,
}

/// Arguments of the quota display.
#[derive(Debug)]
pub struct DiskQuotaArgs {
    pub verbose: bool,
    pub human: bool,
    pub kb: bool,
    pub mb: bool,
    pub gb: bool,
}

/// Roots and prefix rule of an upload.
#[derive(Debug)]
pub struct UploadRoots {
    pub local_root: String,
    pub remote_root: String,
    pub keep_prefix: bool,
}

/// The roots of an upload: the ones given, else the configured ones. The
/// prefix rule comes from the arguments when a local root was given, else
/// from the settings (off when unset).
pub fn upload_roots(args: &UploadArgs, config: &Config) -> (r: UploadRoots)
    ensures
        r.local_root@ == match args.local {
            Some(l) => l@,
            None => config.local_pan.root_path@,
        },
        r.remote_root@ == match args.remote {
            Some(p) => p@,
            None => config.baidu_pan.root_path@,
        },
        r.keep_prefix == match args.local {
            Some(_) => args.include_prefix,
            None => match config.local_pan.include_prefix {
                Some(b) => b,
                None => false,
            },
        },
{
    let local_root = match &args.local {
        Some(l) => l.clone(),
        None => config.local_pan.root_path.clone(),
    };
    let remote_root = match &args.remote {
        Some(p) => p.clone(),
        None => config.baidu_pan.root_path.clone(),
    };
    let keep_prefix = match &args.local {
        Some(_) => args.include_prefix,
        None => match config.local_pan.include_prefix {
            Some(b) => b,
            None => false,
        },
    };
    UploadRoots { local_root, remote_root, keep_prefix }
}

} // verus!
