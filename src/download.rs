use vstd::prelude::*;

use crate::error::{AppError, AppErrorType};
use crate::paths::{ends_with_slash, get_local_path, local_path_spec, parent_of, path_parent};
use crate::text::{concat_str, decimal_digits, u64_to_decimal};

verus! {

/// An entry of a remote directory listing.
#[derive(Debug, Clone)]
pub struct PcsFileItem {
    pub fs_id: u64,
    pub path: String,
    pub server_filename: String,
    pub size: u64,
    pub server_mtime: i64,
    pub server_ctime: i64,
    pub local_mtime: i64,
    pub local_ctime: i64,
    /// 1 for a directory, 0 for a file.
    pub is_dir: i32,
    pub category: i32,
    pub md5: Option<String>,
    pub dir_empty: Option<i32>,
    pub thumbs: Option<Vec<String>>,
}

/// A remote directory listing.
#[derive(Debug)]
pub struct PcsFileListResult {
    pub list: Vec<PcsFileItem>,
    pub guid: i64,
}

/// Metadata of a remote file, with its download link when asked for.
#[derive(Debug)]
pub struct PcsFileMetaInfo {
    pub category: i32,
    pub dlink: Option<String>,
    pub filename: String,
    pub is_dir: i32,
    pub server_ctime: i64,
    pub server_mtime: i64,
    pub size: u64,
}

/// Answer of the metadata call.
#[derive(Debug)]
pub struct PcsFileMetaResult {
    pub list: Vec<PcsFileMetaInfo>,
}

/// What a remote path given for download turned out to be.
#[derive(Debug)]
pub enum RemoteTarget {
    /// A single file, by path.
    File(String),
    /// A directory, with its entries.
    Directory(Vec<PcsFileItem>),
}

/// Decides what a remote path is from the attempt to list it: a listing
/// with entries means a directory; an empty listing or a failed one means
/// a single file. An empty directory is therefore taken for a file.
pub fn resolve_remote_path(remote: &str, listing: Result<PcsFileListResult, AppError>) -> (r:
    RemoteTarget)
    ensures
        match listing {
            Ok(l) => if l.list@.len() > 0 {
                r == RemoteTarget::Directory(l.list)
            } else {
                r matches RemoteTarget::File(p) && p@ == remote@
            },
            Err(_) => r matches RemoteTarget::File(p) && p@ == remote@,
        },
{
    match listing {
        Ok(files) => {
            if files.list.len() == 0 {
                RemoteTarget::File(remote.to_owned())
            } else {
                RemoteTarget::Directory(files.list)
            }
        },
        Err(_) => RemoteTarget::File(remote.to_owned()),
    }
}

/// The directory to list to find the id of the file at `path`. A path
/// that ends with `/` names a directory, which has no id to download; a
/// path without a parent cannot be looked up either.
pub fn fs_id_lookup_dir(path: &str) -> (r: Result<String, AppError>)
    ensures
        path@.len() > 0 && path@.last() == '/' ==> (r matches Err(e) && e.error_type
            == AppErrorType::Unknown && e.message@ == "目录不支持获取fsid"@),
        !(path@.len() > 0 && path@.last() == '/') ==> match path_parent(path@) {
            Some(p) => r matches Ok(d) && d@ == p,
            None => r matches Err(e) && e.error_type == AppErrorType::Unknown && e.message@
                == "未找到文件 "@ + path@,
        },
{
    if ends_with_slash(path) {
        return Err(AppError::new(AppErrorType::Unknown, "目录不支持获取fsid", None));
    }
    match parent_of(path) {
        Some(p) => Ok(p),
        None => {
            let msg = concat_str("未找到文件 ", path);
            Err(AppError::new(AppErrorType::Unknown, msg.as_str(), None))
        },
    }
}

/// The id of the first entry of a listing whose path is `path`.
pub fn find_fs_id(listing: &PcsFileListResult, path: &str) -> (r: Result<u64, AppError>)
    ensures
        r is Ok <==> exists|i: int|
            0 <= i < listing.list@.len() && (#[trigger] listing.list@[i]).path@ == path@,
        r matches Ok(id) ==> exists|i: int|
            0 <= i < listing.list@.len() && (#[trigger] listing.list@[i]).path@ == path@
                && listing.list@[i].fs_id == id && forall|j: int|
                0 <= j < i ==> (#[trigger] listing.list@[j]).path@ != path@,
        r matches Err(e) ==> e.error_type == AppErrorType::Unknown && e.message@ == "未找到文件 "@
            + path@,
{
    let target = path.to_owned();
    let n = listing.list.len();
    let mut i: usize = 0;
    while i < n
        invariant
            n == listing.list@.len(),
            target@ == path@,
            i <= n,
            forall|j: int| 0 <= j < i ==> (#[trigger] listing.list@[j]).path@ != path@,
        decreases n - i,
    {
        if listing.list[i].path.eq(&target) {
            return Ok(listing.list[i].fs_id);
        }
        i = i + 1;
    }
    let msg = concat_str("未找到文件 ", path);
    Err(AppError::new(AppErrorType::Unknown, msg.as_str(), None))
}

/// The download link of the file with id `fs_id` from its metadata: the
/// first entry's link; an empty answer or an entry without a link is an
/// error that names the id.
pub fn download_link_of(meta: PcsFileMetaResult, fs_id: u64) -> (r: Result<String, AppError>)
    ensures
        meta.list@.len() == 0 ==> (r matches Err(e) && e.error_type == AppErrorType::Unknown
            && e.message@ == "未找到文件 "@ + decimal_digits(fs_id as nat)),
        meta.list@.len() > 0 && meta.list@[0].dlink is None ==> (r matches Err(e)
            && e.error_type == AppErrorType::Unknown && e.message@ == "未找到文件下载链接 "@
            + decimal_digits(fs_id as nat)),
        meta.list@.len() > 0 && meta.list@[0].dlink is Some ==> (r matches Ok(l) && l
            == meta.list@[0].dlink->Some_0),
{
    if meta.list.len() == 0 {
        let msg = concat_str("未找到文件 ", u64_to_decimal(fs_id).as_str());
        return Err(AppError::new(AppErrorType::Unknown, msg.as_str(), None));
    }
    let mut list = meta.list;
    let first = list.swap_remove(0);
    match first.dlink {
        Some(link) => Ok(link),
        None => {
            let msg = concat_str("未找到文件下载链接 ", u64_to_decimal(fs_id).as_str());
            Err(AppError::new(AppErrorType::Unknown, msg.as_str(), None))
        },
    }
}

/// The address a download link is fetched from: the link with the access
/// token appended.
pub fn download_url(link: &str, access_token: &str) -> (r: String)
    ensures
        r@ == link@ + "&access_token="@ + access_token@,
{
    let s = concat_str(link, "&access_token=");
    concat_str(s.as_str(), access_token)
}

/// One file of a directory download.
#[derive(Debug)]
pub struct DownloadJob {
    pub fs_id: u64,
    pub remote_path: String,
    pub server_filename: String,
    pub local_path: String,
}

/// The entries of a listing that are files, in listing order.
pub open spec fn files_only(s: Seq<PcsFileItem>) -> Seq<PcsFileItem>
    decreases s.len(),
{
    if s.len() == 0 {
        Seq::empty()
    } else {
        let rest = files_only(s.drop_last());
        if s.last().is_dir == 1 {
            rest
        } else {
            rest.push(s.last())
        }
    }
}

/// `job` downloads `item` into `local` (or the current directory).
pub open spec fn is_job_for(job: DownloadJob, item: PcsFileItem, local: Option<Seq<char>>) -> bool {
    &&& job.fs_id == item.fs_id
    &&& job.remote_path@ == item.path@
    &&& job.server_filename@ == item.server_filename@
    &&& job.local_path@ == local_path_spec(item.path@, local)
}

/// Best-effort download of a directory's files: one job per entry that is
/// not a directory, in listing order. A failed file is recorded and the
/// batch goes on with the next one.
pub struct DirectoryDownload {
    jobs: Vec<DownloadJob>,
    succeeded: usize,
    failures: Vec<(String, AppError)>,
}

impl DirectoryDownload {
    /// Every recorded result belongs to a planned job.
    pub closed spec fn wf(&self) -> bool {
        self.succeeded + self.failures@.len() <= self.jobs@.len()
    }

    /// The planned jobs.
    pub closed spec fn spec_jobs(&self) -> Seq<DownloadJob> {
        self.jobs@
    }

    /// Files downloaded so far.
    pub closed spec fn spec_succeeded(&self) -> nat {
        self.succeeded as nat
    }

    /// Files that failed so far, with their names and errors.
    pub closed spec fn spec_failures(&self) -> Seq<(String, AppError)> {
        self.failures@
    }

    /// Results recorded so far.
    pub open spec fn spec_done(&self) -> nat {
        self.spec_succeeded() + self.spec_failures().len()
    }

    /// Plans the download of the entries of a directory into `local`.
    pub fn new(files: &Vec<PcsFileItem>, local: Option<&String>) -> (r: Self)
        ensures
            r.spec_jobs().len() == files_only(files@).len(),
            forall|i: int|
                0 <= i < r.spec_jobs().len() ==> is_job_for(
                    #[trigger] r.spec_jobs()[i],
                    files_only(files@)[i],
                    match local {
                        Some(p) => Some(p@),
                        None => None,
                    },
                ),
            r.spec_succeeded() == 0,
            r.spec_failures().len() == 0,
            r.wf(),
    {
        let ghost lp = match local {
            Some(p) => Some(p@),
            None => None,
        };
        let mut jobs: Vec<DownloadJob> = Vec::new();
        let n = files.len();
        let mut i: usize = 0;
        while i < n
            invariant
                n == files@.len(),
                i <= n,
                lp == match local {
                    Some(p) => Some(p@),
                    None => None::<Seq<char>>,
                },
                jobs@.len() == files_only(files@.subrange(0, i as int)).len(),
                forall|k: int|
                    0 <= k < jobs@.len() ==> is_job_for(
                        #[trigger] jobs@[k],
                        files_only(files@.subrange(0, i as int))[k],
                        lp,
                    ),
            decreases n - i,
        {
            let item = &files[i];
            assert(files@.subrange(0, i + 1).drop_last() =~= files@.subrange(0, i as int));
            assert(files@.subrange(0, i + 1).last() == files@[i as int]);
            if item.is_dir != 1 {
                let job = DownloadJob {
                    fs_id: item.fs_id,
                    remote_path: item.path.clone(),
                    server_filename: item.server_filename.clone(),
                    local_path: get_local_path(item.path.as_str(), local),
                };
                jobs.push(job);
            }
            i = i + 1;
        }
        assert(files@.subrange(0, n as int) =~= files@);
        DirectoryDownload { jobs, succeeded: 0, failures: Vec::new() }
    }

    /// The job to run next, if any is left.
    pub fn next_job(&self) -> (r: Option<&DownloadJob>)
        requires
            self.wf(),
        ensures
            self.spec_done() < self.spec_jobs().len() ==> r == Some(
                &self.spec_jobs()[self.spec_done() as int],
            ),
            self.spec_done() >= self.spec_jobs().len() ==> r is None,
    {
        let n = self.jobs.len();
        let k = self.succeeded + self.failures.len();
        if k < n {
            Some(&self.jobs[k])
        } else {
            None
        }
    }

    /// Records the result of the job that ran; a failure is kept with the
    /// file's name and the batch moves on to the next job all the same.
    /// With no job left, nothing changes.
    pub fn record(&mut self, result: Result<(), AppError>)
        requires
            old(self).wf(),
        ensures
            final(self).wf(),
            final(self).spec_jobs() == old(self).spec_jobs(),
            old(self).spec_done() < old(self).spec_jobs().len() ==> final(self).spec_done()
                == old(self).spec_done() + 1,
            old(self).spec_done() < old(self).spec_jobs().len() ==> match result {
                Ok(()) => final(self).spec_succeeded() == old(self).spec_succeeded() + 1
                    && final(self).spec_failures() == old(self).spec_failures(),
                Err(e) => final(self).spec_succeeded() == old(self).spec_succeeded()
                    && final(self).spec_failures() == old(self).spec_failures().push(
                    (
                        old(self).spec_jobs()[old(self).spec_done() as int].server_filename,
                        e,
                    ),
                ),
            },
            old(self).spec_done() >= old(self).spec_jobs().len() ==> final(self).spec_succeeded()
                == old(self).spec_succeeded() && final(self).spec_failures() == old(
                self,
            ).spec_failures(),
    {
        let n = self.jobs.len();
        let k = self.succeeded + self.failures.len();
        if k >= n {
            return;
        }
        match result {
            Ok(()) => {
                self.succeeded = self.succeeded + 1;
            },
            Err(e) => {
                let name = self.jobs[k].server_filename.clone();
                self.failures.push((name, e));
            },
        }
    }

    /// Files downloaded.
    pub fn succeeded(&self) -> (r: usize)
        ensures
            r == self.spec_succeeded(),
    {
        self.succeeded
    }

    /// Files that failed.
    pub fn failed(&self) -> (r: usize)
        ensures
            r == self.spec_failures().len(),
    {
        self.failures.len()
    }

    /// The failed files' names and errors, in the order they ran.
    pub fn failures(&self) -> (r: &Vec<(String, AppError)>)
        ensures
            r@ == self.spec_failures(),
    {
        &self.failures
    }

    /// Whether every planned job has a recorded result.
    pub fn is_done(&self) -> (r: bool)
        requires
            self.wf(),
        ensures
            r == (self.spec_done() >= self.spec_jobs().len()),
    {
        let n = self.jobs.len();
        self.succeeded + self.failures.len() >= n
    }
}

} // verus!
