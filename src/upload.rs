use vstd::prelude::*;

use crate::error::{AppError, AppErrorType};
use crate::manifest::{
    block_count, block_len, block_start, lemma_block_count, lemma_block_in_file,
    PcsFileSliceInfo,
};
use crate::paths::{join_paths, path_has_prefix, path_join, path_starts_with};
use crate::progress::{PartProgress, ProgressInfo};

verus! {

/// Host that receives block bytes when the server names no data node.
pub const PREFIX_FILE_SERVER: &'static str = "https://d.pcs.baidu.com";

/// What to do when the target remote path already exists.
#[derive(Debug, Clone, Copy, PartialEq, Eq, Structural)]
pub enum PcsUploadPolicy {
    /// Fail.
    Fail,
    /// Rename the new file.
    Rename,
    /// Overwrite the existing file.
    Overwrite,
    /// Keep both, as a new copy.
    NewCopy,
}

/// Conflict code sent with the prepare and merge calls.
pub open spec fn rtype_spec(policy: PcsUploadPolicy) -> i32 {
    match policy {
        PcsUploadPolicy::Rename => 1,
        PcsUploadPolicy::NewCopy => 2,
        PcsUploadPolicy::Overwrite => 3,
        PcsUploadPolicy::Fail => 3,
    }
}

/// The conflict code of a policy: rename 1, new copy 2, overwrite and fail 3.
pub fn rtype_of(policy: PcsUploadPolicy) -> (r: i32)
    ensures
        r == rtype_spec(policy),
{
    match policy {
        PcsUploadPolicy::Rename => 1,
        PcsUploadPolicy::NewCopy => 2,
        _ => 3,
    }
}

/// JSON text of a list of strings, as `serde_json` writes it.
pub uninterp spec fn json_string_array(v: Seq<Seq<char>>) -> Seq<char>;

/// The texts of a list of strings.
pub open spec fn string_views(v: Seq<String>) -> Seq<Seq<char>> {
    v.map_values(|s: String| s@)
}

/// Relies on `serde_json::to_string` on a `Vec<String>`: the JSON array of
/// the strings. It fails only when a `Serialize` impl fails or a map has a
/// key that is not a string, neither of which a list of strings has.
#[verifier::external_body]
pub(crate) fn strings_to_json(v: &Vec<String>) -> (r: String)
    ensures
        r@ == json_string_array(string_views(v@)),
{
    serde_json::to_string(v).unwrap_or_default()
}

/// Answer of the prepare call: the upload session.
#[derive(Debug)]
pub struct PcsFileSlicePrepareResult {
    /// Remote path; the server may rewrite it, and may leave it out.
    pub path: String,
    /// Id of the upload session.
    pub upload_id: String,
    /// Server status flag.
    pub return_type: i32,
    /// Indices of the blocks the server still needs.
    pub block_list: Vec<i32>,
}

/// A data node that receives block bytes.
#[derive(Debug)]
pub struct Server {
    pub server: String,
}

/// Answer of the locate call: the data nodes for this session.
#[derive(Debug)]
pub struct UploadServerResult {
    pub client_ip: String,
    pub host: String,
    pub request_id: Option<String>,
    pub server_time: i64,
    pub sl: Option<String>,
    pub servers: Vec<Server>,
    pub bak_servers: Vec<Server>,
}

/// Metadata of an uploaded file, as the merge call answers it.
#[derive(Debug)]
pub struct PcsFileUploadResult {
    pub path: String,
    pub size: u64,
    pub ctime: i64,
    pub mtime: i64,
    pub md5: Option<String>,
    pub fs_id: u64,
}

/// The data node chosen from a locate answer: the first primary, else the
/// first backup, else the default host.
pub open spec fn chosen_server(target: UploadServerResult) -> Seq<char> {
    if target.servers@.len() > 0 {
        target.servers@[0].server@
    } else if target.bak_servers@.len() > 0 {
        target.bak_servers@[0].server@
    } else {
        PREFIX_FILE_SERVER@
    }
}

/// Chooses the data node that receives every block of a transfer.
pub fn select_upload_server(target: &UploadServerResult) -> (r: String)
    ensures
        r@ == chosen_server(*target),
{
    if target.servers.len() > 0 {
        target.servers[0].server.clone()
    } else if target.bak_servers.len() > 0 {
        target.bak_servers[0].server.clone()
    } else {
        PREFIX_FILE_SERVER.to_owned()
    }
}

/// Keeps the session the prepare call answered, with the path that was
/// sent when the server left its own out.
pub fn fill_prepare_path(task: PcsFileSlicePrepareResult, pcs_path: &str) -> (r:
    PcsFileSlicePrepareResult)
    ensures
        r.path@ == if task.path@.len() == 0 {
            pcs_path@
        } else {
            task.path@
        },
        r.upload_id == task.upload_id,
        r.return_type == task.return_type,
        r.block_list == task.block_list,
{
    if task.path.as_str().is_empty() {
        PcsFileSlicePrepareResult {
            path: pcs_path.to_owned(),
            upload_id: task.upload_id,
            return_type: task.return_type,
            block_list: task.block_list,
        }
    } else {
        task
    }
}

/// Form of the prepare call.
#[derive(Debug)]
pub struct PrecreateRequest {
    pub path: String,
    pub size: u64,
    /// Always 0: a file.
    pub is_dir: i32,
    /// JSON array of the block digests.
    pub block_list: String,
    /// Always 1.
    pub auto_init: i32,
    pub rtype: i32,
    pub content_md5: String,
    pub slice_md5: String,
    pub local_ctime: i64,
    pub local_mtime: i64,
}

/// Query of the locate call.
#[derive(Debug)]
pub struct LocateUploadRequest {
    pub path: String,
    pub upload_id: String,
}

/// One block to send: `progress.uploaded_bytes` is its offset in the file,
/// `progress.current_part_bytes` its length, `progress.current_part` its
/// index.
#[derive(Debug)]
pub struct BlockUploadRequest {
    pub local_file: String,
    pub server: String,
    pub path: String,
    pub upload_id: String,
    pub progress: ProgressInfo,
}

/// Form of the merge call.
#[derive(Debug)]
pub struct MergeRequest {
    pub path: String,
    pub size: u64,
    pub block_list: String,
    pub upload_id: String,
    pub rtype: i32,
    pub local_ctime: i64,
    pub local_mtime: i64,
    /// Always 1: keep versions.
    pub is_revision: i32,
    /// Always 2: batch upload.
    pub mode: i32,
}

/// Builds the form of the prepare call for a file described by `fs`.
pub fn precreate_request(fs: &PcsFileSliceInfo, pcs_path: &str, policy: PcsUploadPolicy) -> (q:
    PrecreateRequest)
    ensures
        q.path@ == pcs_path@,
        q.size == fs.size,
        q.is_dir == 0,
        q.block_list@ == json_string_array(string_views(fs.block_list@)),
        q.auto_init == 1,
        q.rtype == rtype_spec(policy),
        q.content_md5@ == fs.content_md5@,
        q.slice_md5@ == fs.slice_md5@,
        q.local_ctime == fs.ctime,
        q.local_mtime == fs.mtime,
{
    PrecreateRequest {
        path: pcs_path.to_owned(),
        size: fs.size,
        is_dir: 0,
        block_list: strings_to_json(&fs.block_list),
        auto_init: 1,
        rtype: rtype_of(policy),
        content_md5: fs.content_md5.clone(),
        slice_md5: fs.slice_md5.clone(),
        local_ctime: fs.ctime,
        local_mtime: fs.mtime,
    }
}

/// Builds the form of the merge call: the digests the server reported, in
/// block order, for the session `task`.
pub fn merge_request(
    task: &PcsFileSlicePrepareResult,
    fs: &PcsFileSliceInfo,
    hashes: &Vec<String>,
    policy: PcsUploadPolicy,
) -> (q: MergeRequest)
    ensures
        q.path@ == task.path@,
        q.size == fs.size,
        q.block_list@ == json_string_array(string_views(hashes@)),
        q.upload_id@ == task.upload_id@,
        q.rtype == rtype_spec(policy),
        q.local_ctime == fs.ctime,
        q.local_mtime == fs.mtime,
        q.is_revision == 1,
        q.mode == 2,
{
    MergeRequest {
        path: task.path.clone(),
        size: fs.size,
        block_list: strings_to_json(hashes),
        upload_id: task.upload_id.clone(),
        rtype: rtype_of(policy),
        local_ctime: fs.ctime,
        local_mtime: fs.mtime,
        is_revision: 1,
        mode: 2,
    }
}

/// Phases of one chunked upload. `Idle` waits for the prepare answer;
/// `Prepared` locates the data node and sends blocks in order;
/// `BlocksUploaded` waits for the merge answer. `Merged` and `Failed` are
/// final.
#[derive(Debug, Clone, Copy, PartialEq, Eq, Structural)]
pub enum UploadPhase {
    Idle,
    Prepared,
    BlocksUploaded,
    Merged,
    Failed,
}

/// What the remote side answered to the last action.
pub enum UploadEvent {
    Prepared(Result<PcsFileSlicePrepareResult, AppError>),
    ServerLocated(Result<UploadServerResult, AppError>),
    BlockUploaded(Result<String, AppError>),
    Merged(Result<PcsFileUploadResult, AppError>),
}

/// What to do next.
pub enum UploadAction {
    Precreate(PrecreateRequest),
    LocateServer(LocateUploadRequest),
    UploadBlock(BlockUploadRequest),
    Merge(MergeRequest),
    Finished(Result<PcsFileUploadResult, AppError>),
}

/// The progress report that describes block `i` of a file of `size`
/// bytes: where it starts, which block it is and how long it is.
pub open spec fn block_progress(size: u64, block_size: u64, i: int) -> ProgressInfo {
    ProgressInfo {
        total_bytes: size,
        uploaded_bytes: block_start(block_size as int, i) as u64,
        current_part: i as u32,
        current_part_bytes: block_len(size as int, block_size as int, i) as u64,
    }
}

/// Decisions of one chunked upload: prepare, locate a data node, send every
/// block in order, merge. Any failure ends the transfer; the merge is asked
/// for only once every block was accepted. An empty file has no block: once
/// the data node is located the merge is asked for at once, with an empty
/// digest list, and the server's answer (a refusal, as a server error) is
/// the result.
pub struct UploadTransfer {
    phase: UploadPhase,
    pcs_path: String,
    policy: PcsUploadPolicy,
    fs: PcsFileSliceInfo,
    block_size: u64,
    task: Option<PcsFileSlicePrepareResult>,
    server: Option<String>,
    hashes: Vec<String>,
    uploaded_bytes: u64,
}

impl UploadTransfer {
    #[verifier::type_invariant]
    spec fn inv(self) -> bool {
        let count = block_count(self.fs.size as int, self.block_size as int);
        &&& self.block_size > 0
        &&& self.fs.block_list@.len() == count
        &&& count <= u32::MAX
        &&& self.hashes@.len() <= count
        &&& self.uploaded_bytes == if self.hashes@.len() < count {
            block_start(self.block_size as int, self.hashes@.len() as int)
        } else {
            self.fs.size as int
        }
        &&& match self.phase {
            UploadPhase::Idle => self.task is None && self.server is None && self.hashes@.len()
                == 0,
            UploadPhase::Prepared => {
                &&& self.task is Some
                &&& self.server is None ==> self.hashes@.len() == 0
                &&& self.server is Some ==> self.hashes@.len() < count
            },
            UploadPhase::BlocksUploaded => self.task is Some && self.server is Some
                && self.hashes@.len() == count,
            UploadPhase::Merged => self.hashes@.len() == count,
            UploadPhase::Failed => true,
        }
    }

    pub closed spec fn spec_phase(&self) -> UploadPhase {
        self.phase
    }

    /// Digests the server reported for the blocks accepted so far, in
    /// block order.
    pub closed spec fn spec_hashes(&self) -> Seq<String> {
        self.hashes@
    }

    /// Bytes of the blocks accepted so far.
    pub closed spec fn spec_uploaded(&self) -> u64 {
        self.uploaded_bytes
    }

    /// Number of blocks of the file: `ceil(size / block size)`.
    pub open spec fn spec_count(&self) -> int {
        block_count(self.spec_size() as int, self.spec_block_size() as int)
    }

    /// Size of the file.
    pub open spec fn spec_size(&self) -> u64 {
        self.spec_file().size
    }

    /// The file is cut into blocks of a positive size, its description has
    /// one digest per block, and every block index fits a part number.
    pub open spec fn layout_ok(&self) -> bool {
        &&& self.spec_block_size() > 0
        &&& self.spec_file().block_list@.len() == self.spec_count()
        &&& self.spec_count() <= u32::MAX
    }

    pub closed spec fn spec_block_size(&self) -> u64 {
        self.block_size
    }

    pub closed spec fn spec_pcs_path(&self) -> Seq<char> {
        self.pcs_path@
    }

    pub closed spec fn spec_policy(&self) -> PcsUploadPolicy {
        self.policy
    }

    pub closed spec fn spec_file(&self) -> PcsFileSliceInfo {
        self.fs
    }

    pub closed spec fn spec_session(&self) -> Option<PcsFileSlicePrepareResult> {
        self.task
    }

    pub closed spec fn spec_server(&self) -> Option<String> {
        self.server
    }

    /// Starts the upload of the file that `fs` describes, cut into blocks
    /// of `block_size` bytes, to `pcs_path`: gives the transfer and the form
    /// of the prepare call. It refuses, and only refuses, a block size of 0,
    /// a description whose block count does not match the block size, and
    /// more blocks than a block index can number.
    pub fn start(
        fs: PcsFileSliceInfo,
        block_size: u64,
        pcs_path: &str,
        policy: PcsUploadPolicy,
    ) -> (r: Result<(UploadTransfer, PrecreateRequest), AppError>)
        ensures
            r is Ok <==> (block_size > 0 && fs.block_list@.len() == block_count(
                fs.size as int,
                block_size as int,
            ) && block_count(fs.size as int, block_size as int) <= u32::MAX),
            r is Ok ==> {
                let (t, q) = r->Ok_0;
                &&& t.layout_ok()
                &&& t.spec_phase() == UploadPhase::Idle
                &&& t.spec_hashes().len() == 0
                &&& t.spec_uploaded() == 0
                &&& t.spec_file() == fs
                &&& t.spec_block_size() == block_size
                &&& t.spec_policy() == policy
                &&& t.spec_pcs_path() == pcs_path@
                &&& q.path@ == pcs_path@
                &&& q.size == fs.size
                &&& q.is_dir == 0
                &&& q.block_list@ == json_string_array(string_views(fs.block_list@))
                &&& q.auto_init == 1
                &&& q.rtype == rtype_spec(policy)
                &&& q.content_md5@ == fs.content_md5@
                &&& q.slice_md5@ == fs.slice_md5@
                &&& q.local_ctime == fs.ctime
                &&& q.local_mtime == fs.mtime
            },
            r is Err ==> r->Err_0.error_type == AppErrorType::Client,
    {
        if block_size == 0 {
            return Err(AppError::new(AppErrorType::Client, "block size must be positive", None));
        }
        let count: u64 = if fs.size % block_size == 0 {
            fs.size / block_size
        } else {
            assert(block_size >= 2);
            assert(fs.size / block_size < u64::MAX) by (nonlinear_arith)
                requires
                    block_size >= 2,
            ;
            fs.size / block_size + 1
        };
        if count > u32::MAX as u64 || fs.block_list.len() as u64 != count {
            return Err(
                AppError::new(
                    AppErrorType::Client,
                    "block digests do not match the block size",
                    None,
                ),
            );
        }
        proof {
            lemma_block_count(fs.size as int, block_size as int);
            assert(block_start(block_size as int, 0) == 0);
        }
        let q = precreate_request(&fs, pcs_path, policy);
        let t = UploadTransfer {
            phase: UploadPhase::Idle,
            pcs_path: pcs_path.to_owned(),
            policy,
            fs,
            block_size,
            task: None,
            server: None,
            hashes: Vec::new(),
            uploaded_bytes: 0,
        };
        Ok((t, q))
    }

    /// Current phase.
    pub fn phase(&self) -> (r: UploadPhase)
        ensures
            r == self.spec_phase(),
    {
        self.phase
    }

    /// Digests reported so far, in block order.
    pub fn hashes(&self) -> (r: &Vec<String>)
        ensures
            r@ == self.spec_hashes(),
    {
        &self.hashes
    }

    /// Bytes of the blocks accepted so far.
    pub fn uploaded_bytes(&self) -> (r: u64)
        ensures
            r == self.spec_uploaded(),
    {
        self.uploaded_bytes
    }

    fn block_request(
        fs: &PcsFileSliceInfo,
        block_size: u64,
        task: &PcsFileSlicePrepareResult,
        server: &String,
        i: usize,
        offset: u64,
    ) -> (r: BlockUploadRequest)
        requires
            block_size > 0,
            i < block_count(fs.size as int, block_size as int),
            block_count(fs.size as int, block_size as int) <= u32::MAX,
            offset == block_start(block_size as int, i as int),
        ensures
            r.progress == block_progress(fs.size, block_size, i as int),
            r.local_file@ == fs.path@,
            r.server@ == server@,
            r.path@ == task.path@,
            r.upload_id@ == task.upload_id@,
    {
        proof {
            lemma_block_in_file(fs.size as int, block_size as int, i as int);
        }
        let len: u64 = if fs.size - offset < block_size {
            fs.size - offset
        } else {
            block_size
        };
        BlockUploadRequest {
            local_file: fs.path.clone(),
            server: server.clone(),
            path: task.path.clone(),
            upload_id: task.upload_id.clone(),
            progress: ProgressInfo {
                total_bytes: fs.size,
                uploaded_bytes: offset,
                current_part: i as u32,
                current_part_bytes: len,
            },
        }
    }

    fn fail(self, e: AppError) -> (r: (UploadTransfer, UploadAction))
        ensures
            r.0.spec_phase() == if self.spec_phase() == UploadPhase::Merged {
                UploadPhase::Merged
            } else {
                UploadPhase::Failed
            },
            r.0.spec_hashes() == self.spec_hashes(),
            r.0.spec_uploaded() == self.spec_uploaded(),
            r.0.spec_file() == self.spec_file(),
            r.0.spec_block_size() == self.spec_block_size(),
            r.0.spec_policy() == self.spec_policy(),
            r.0.spec_pcs_path() == self.spec_pcs_path(),
            r.0.spec_session() == self.spec_session(),
            r.0.spec_server() == self.spec_server(),
            r.1 matches UploadAction::Finished(Err(f)) && f == e,
    {
        proof {
            use_type_invariant(&self);
        }
        let phase = if self.phase == UploadPhase::Merged {
            UploadPhase::Merged
        } else {
            UploadPhase::Failed
        };
        (UploadTransfer { phase, ..self }, UploadAction::Finished(Err(e)))
    }

    /// Ends the block phase: asks for the merge of the reported digests.
    fn ask_merge(self) -> (r: (UploadTransfer, UploadAction))
        requires
            self.spec_phase() == UploadPhase::BlocksUploaded,
        ensures
            r.0 == self,
            r.1 matches UploadAction::Merge(q) && {
                let task = self.spec_session()->Some_0;
                &&& q.path@ == task.path@
                &&& q.size == self.spec_size()
                &&& q.block_list@ == json_string_array(string_views(self.spec_hashes()))
                &&& q.upload_id@ == task.upload_id@
                &&& q.rtype == rtype_spec(self.spec_policy())
                &&& q.local_ctime == self.spec_file().ctime
                &&& q.local_mtime == self.spec_file().mtime
                &&& q.is_revision == 1
                &&& q.mode == 2
            },
    {
        proof {
            use_type_invariant(&self);
        }
        let q = merge_request(self.task.as_ref().unwrap(), &self.fs, &self.hashes, self.policy);
        (self, UploadAction::Merge(q))
    }

    /// Stops the transfer between two steps, at the caller's request: an
    /// unfinished transfer fails with a client error and asks for nothing
    /// more; the blocks already sent stay on the server.
    pub fn cancel(self) -> (r: (UploadTransfer, UploadAction))
        ensures
            r.0.spec_hashes() == self.spec_hashes(),
            r.0.spec_phase() == if self.spec_phase() == UploadPhase::Merged {
                UploadPhase::Merged
            } else {
                UploadPhase::Failed
            },
            r.1 matches UploadAction::Finished(Err(e)) && e.error_type == AppErrorType::Client,
    {
        self.fail(AppError::new(AppErrorType::Client, "upload cancelled", None))
    }

    /// The transfer waits for an answer of this kind.
    pub open spec fn expects(&self, event: UploadEvent) -> bool {
        match event {
            UploadEvent::Prepared(_) => self.spec_phase() == UploadPhase::Idle,
            UploadEvent::ServerLocated(_) => self.spec_phase() == UploadPhase::Prepared
                && self.spec_server() is None,
            UploadEvent::BlockUploaded(_) => self.spec_phase() == UploadPhase::Prepared
                && self.spec_server() is Some,
            UploadEvent::Merged(_) => self.spec_phase() == UploadPhase::BlocksUploaded,
        }
    }

    /// Takes the answer to the last action and decides the next one.
    ///
    /// A failure answer, or an answer the transfer does not wait for, ends
    /// it. Blocks go out in ascending order, each with its offset and
    /// length in the file, all to the data node chosen once. The digest the
    /// server reports for a block is kept in block order, and the merge is
    /// asked for only once every block has been accepted.
    pub fn step(self, event: UploadEvent) -> (r: (UploadTransfer, UploadAction))
        ensures
            r.0.layout_ok(),
            r.0.spec_hashes().len() <= r.0.spec_count(),
            self.expects(event) && is_acceptance(event) ==> if r.0.spec_hashes().len()
                < r.0.spec_count() {
                r.1 is UploadBlock
            } else {
                r.1 is Merge
            },
            r.0.spec_file() == self.spec_file(),
            r.0.spec_block_size() == self.spec_block_size(),
            r.0.spec_policy() == self.spec_policy(),
            r.0.spec_pcs_path() == self.spec_pcs_path(),
            !self.expects(event) ==> {
                &&& r.1 matches UploadAction::Finished(Err(_))
                &&& r.0.spec_hashes() == self.spec_hashes()
                &&& r.0.spec_phase() == if self.spec_phase() == UploadPhase::Merged {
                    UploadPhase::Merged
                } else {
                    UploadPhase::Failed
                }
            },
            self.expects(event) && event_error(event) is Some ==> {
                &&& r.1 == UploadAction::Finished(Err(event_error(event)->Some_0))
                &&& r.0.spec_phase() == UploadPhase::Failed
                &&& r.0.spec_hashes() == self.spec_hashes()
            },
            self.expects(event) ==> (event matches UploadEvent::Prepared(Ok(task)) ==> {
                &&& r.0.spec_phase() == UploadPhase::Prepared
                &&& r.0.spec_session() is Some
                &&& r.0.spec_session()->Some_0.path@ == if task.path@.len() == 0 {
                    self.spec_pcs_path()
                } else {
                    task.path@
                }
                &&& r.0.spec_session()->Some_0.upload_id == task.upload_id
                &&& r.1 matches UploadAction::LocateServer(q)
                &&& q.path@ == r.0.spec_session()->Some_0.path@
                &&& q.upload_id@ == task.upload_id@
            }),
            self.expects(event) ==> (event matches UploadEvent::ServerLocated(Ok(target)) ==> {
                &&& r.0.spec_server() is Some
                &&& r.0.spec_server()->Some_0@ == chosen_server(target)
            }),
            self.expects(event) ==> (event matches UploadEvent::BlockUploaded(Ok(m))
                ==> r.0.spec_hashes() == self.spec_hashes().push(m)),
            !(event is BlockUploaded) ==> r.0.spec_hashes() == self.spec_hashes(),
            self.expects(event) ==> (event matches UploadEvent::Merged(Ok(res)) ==> {
                &&& r.1 == UploadAction::Finished(Ok(res))
                &&& r.0.spec_phase() == UploadPhase::Merged
            }),
            self.spec_server() is Some && r.0.spec_phase() != UploadPhase::Failed
                ==> r.0.spec_server() == self.spec_server(),
            self.spec_phase() != UploadPhase::Idle && r.0.spec_phase() != UploadPhase::Failed
                ==> r.0.spec_session() == self.spec_session(),
            r.1 is UploadBlock ==> {
                let q = r.1->UploadBlock_0;
                let task = r.0.spec_session()->Some_0;
                &&& r.0.spec_phase() == UploadPhase::Prepared
                &&& r.0.spec_session() is Some
                &&& r.0.spec_server() is Some
                &&& r.0.spec_hashes().len() < r.0.spec_count()
                &&& q.progress == block_progress(
                    self.spec_size(),
                    self.spec_block_size(),
                    r.0.spec_hashes().len() as int,
                )
                &&& q.local_file@ == self.spec_file().path@
                &&& q.server@ == r.0.spec_server()->Some_0@
                &&& q.path@ == task.path@
                &&& q.upload_id@ == task.upload_id@
            },
            r.1 is Merge ==> {
                let q = r.1->Merge_0;
                let task = r.0.spec_session()->Some_0;
                &&& r.0.spec_phase() == UploadPhase::BlocksUploaded
                &&& r.0.spec_session() is Some
                &&& r.0.spec_hashes().len() == r.0.spec_count()
                &&& q.block_list@ == json_string_array(string_views(r.0.spec_hashes()))
                &&& q.path@ == task.path@
                &&& q.upload_id@ == task.upload_id@
                &&& q.size == self.spec_size()
                &&& q.rtype == rtype_spec(self.spec_policy())
                &&& q.local_ctime == self.spec_file().ctime
                &&& q.local_mtime == self.spec_file().mtime
                &&& q.is_revision == 1
                &&& q.mode == 2
            },
            r.1 matches UploadAction::Finished(Ok(_)) ==> self.spec_phase()
                == UploadPhase::BlocksUploaded && r.0.spec_phase() == UploadPhase::Merged,
            !(r.1 is Precreate),
            r.0.spec_uploaded() >= self.spec_uploaded(),
            r.0.spec_phase() == UploadPhase::Merged ==> r.0.spec_hashes().len()
                == r.0.spec_count() && r.0.spec_uploaded() == self.spec_size(),
            r.0.spec_hashes().len() == r.0.spec_count() ==> r.0.spec_uploaded()
                == self.spec_size(),
            r.0.spec_hashes().len() < r.0.spec_count() ==> r.0.spec_uploaded() == block_start(
                self.spec_block_size() as int,
                r.0.spec_hashes().len() as int,
            ),
    {
        proof {
            use_type_invariant(&self);
        }
        match event {
            UploadEvent::Prepared(res) => {
                if self.phase != UploadPhase::Idle {
                    return self.fail(unexpected_answer());
                }
                match res {
                    Ok(task) => {
                        let task = fill_prepare_path(task, self.pcs_path.as_str());
                        let q = LocateUploadRequest {
                            path: task.path.clone(),
                            upload_id: task.upload_id.clone(),
                        };
                        (
                            UploadTransfer {
                                phase: UploadPhase::Prepared,
                                task: Some(task),
                                ..self
                            },
                            UploadAction::LocateServer(q),
                        )
                    },
                    Err(e) => self.fail(e),
                }
            },
            UploadEvent::ServerLocated(res) => {
                if self.phase != UploadPhase::Prepared || self.server.is_some() {
                    return self.fail(unexpected_answer());
                }
                match res {
                    Ok(target) => {
                        let server = select_upload_server(&target);
                        if self.fs.block_list.len() == 0 {
                            let t = UploadTransfer {
                                phase: UploadPhase::BlocksUploaded,
                                server: Some(server),
                                ..self
                            };
                            t.ask_merge()
                        } else {
                            proof {
                                assert(block_start(self.block_size as int, 0) == 0);
                            }
                            let q = Self::block_request(
                                &self.fs,
                                self.block_size,
                                self.task.as_ref().unwrap(),
                                &server,
                                0,
                                0,
                            );
                            (
                                UploadTransfer { server: Some(server), ..self },
                                UploadAction::UploadBlock(q),
                            )
                        }
                    },
                    Err(e) => self.fail(e),
                }
            },
            UploadEvent::BlockUploaded(res) => {
                if self.phase != UploadPhase::Prepared || self.server.is_none() {
                    return self.fail(unexpected_answer());
                }
                match res {
                    Ok(md5) => {
                        let i: usize = self.hashes.len();
                        let offset: u64 = self.uploaded_bytes;
                        proof {
                            lemma_block_in_file(
                                self.fs.size as int,
                                self.block_size as int,
                                i as int,
                            );
                        }
                        let len: u64 = if self.fs.size - offset < self.block_size {
                            self.fs.size - offset
                        } else {
                            self.block_size
                        };
                        let next_offset: u64 = offset + len;
                        let count: usize = self.fs.block_list.len();
                        let mut hashes = self.hashes;
                        hashes.push(md5);
                        if i + 1 < count {
                            let q = Self::block_request(
                                &self.fs,
                                self.block_size,
                                self.task.as_ref().unwrap(),
                                self.server.as_ref().unwrap(),
                                i + 1,
                                next_offset,
                            );
                            (
                                UploadTransfer { hashes, uploaded_bytes: next_offset, ..self },
                                UploadAction::UploadBlock(q),
                            )
                        } else {
                            let t = UploadTransfer {
                                phase: UploadPhase::BlocksUploaded,
                                hashes,
                                uploaded_bytes: next_offset,
                                ..self
                            };
                            t.ask_merge()
                        }
                    },
                    Err(e) => self.fail(e),
                }
            },
            UploadEvent::Merged(res) => {
                if self.phase != UploadPhase::BlocksUploaded {
                    return self.fail(unexpected_answer());
                }
                match res {
                    Ok(done) => (
                        UploadTransfer { phase: UploadPhase::Merged, ..self },
                        UploadAction::Finished(Ok(done)),
                    ),
                    Err(e) => self.fail(e),
                }
            },
        }
    }
}

/// A located data node or an accepted block: answers after which the
/// transfer sends the next block, or asks for the merge once none is left.
pub open spec fn is_acceptance(event: UploadEvent) -> bool {
    match event {
        UploadEvent::ServerLocated(Ok(_)) => true,
        UploadEvent::BlockUploaded(Ok(_)) => true,
        _ => false,
    }
}

/// The error an answer carries, if it is a failure.
pub open spec fn event_error(event: UploadEvent) -> Option<AppError> {
    match event {
        UploadEvent::Prepared(Err(e)) => Some(e),
        UploadEvent::ServerLocated(Err(e)) => Some(e),
        UploadEvent::BlockUploaded(Err(e)) => Some(e),
        UploadEvent::Merged(Err(e)) => Some(e),
        _ => None,
    }
}

fn unexpected_answer() -> (r: AppError)
    ensures
        r.error_type == AppErrorType::Client,
{
    AppError::new(AppErrorType::Client, "answer out of order for this upload", None)
}

/// Block progress never goes back and ends at the file's size: each
/// block's report starts where the blocks before it end, covers the
/// block's bytes, ends no later than any later block starts, and the last
/// block's report ends at the size of the file.
pub proof fn lemma_block_progress_monotone(size: u64, block_size: u64, i: int, j: int)
    requires
        block_size > 0,
        0 <= i < j < block_count(size as int, block_size as int),
    ensures
        block_progress(size, block_size, i).uploaded_bytes <= block_progress(
            size,
            block_size,
            i,
        ).running_total(),
        block_progress(size, block_size, i).running_total() <= block_progress(
            size,
            block_size,
            j,
        ).uploaded_bytes,
        block_progress(
            size,
            block_size,
            block_count(size as int, block_size as int) - 1,
        ).running_total() == size,
{
    let n = size as int;
    let bs = block_size as int;
    let count = block_count(n, bs);
    lemma_block_in_file(n, bs, i);
    lemma_block_in_file(n, bs, j);
    lemma_block_in_file(n, bs, count - 1);
    assert((i + 1) * bs <= j * bs) by (nonlinear_arith)
        requires
            i + 1 <= j,
            bs > 0,
    ;
}

/// Directory under which the single-shot upload accepts files.
pub const APPS_DIR: &'static str = "/apps";

/// Where a single-shot upload stores a file: the path itself when it lies
/// under `/apps/<app name>`, else the path moved under that directory.
pub open spec fn single_upload_path_spec(app_name: Seq<char>, pcs_path: Seq<char>) -> Option<
    Seq<char>,
> {
    let base = path_join(APPS_DIR@, app_name);
    if path_starts_with(pcs_path, base) {
        Some(pcs_path)
    } else if pcs_path.len() > 0 && pcs_path[0] == '/' {
        Some(path_join(base, pcs_path.subrange(1, pcs_path.len() as int)))
    } else {
        None
    }
}

/// The remote path of a single-shot upload of `pcs_path` by application
/// `app_name`. A path outside the application's directory that is not
/// absolute cannot be moved under it and is refused.
pub fn single_upload_path(app_name: &str, pcs_path: &str) -> (r: Result<String, AppError>)
    ensures
        match single_upload_path_spec(app_name@, pcs_path@) {
            Some(p) => r matches Ok(q) && q@ == p,
            None => r matches Err(e) && e.error_type == AppErrorType::Client,
        },
{
    let base = join_paths(APPS_DIR, app_name);
    if path_has_prefix(pcs_path, base.as_str()) {
        return Ok(pcs_path.to_owned());
    }
    let n = pcs_path.unicode_len();
    if n > 0 && pcs_path.get_char(0) == '/' {
        let rest = pcs_path.substring_char(1, n);
        Ok(join_paths(base.as_str(), rest))
    } else {
        Err(AppError::new(AppErrorType::Client, "remote path must be absolute", None))
    }
}

/// Conflict flag of the single-shot upload: 0 fail, 2 new copy, anything
/// else overwrite.
pub open spec fn ondup_spec(when_exists: i8) -> Seq<char> {
    if when_exists == 0 {
        "fail"@
    } else if when_exists == 2 {
        "newcopy"@
    } else {
        "overwrite"@
    }
}

/// The conflict flag sent with a single-shot upload.
pub fn ondup_of(when_exists: i8) -> (r: &'static str)
    ensures
        r@ == ondup_spec(when_exists),
{
    match when_exists {
        0 => "fail",
        1 => "overwrite",
        2 => "newcopy",
        _ => "overwrite",
    }
}

/// Chunk reports stay inside their block: the running total of a counter
/// made for block `i` lies between the block's start and its end, so no
/// report of block `i` passes the start of a later block; once the last
/// block has been counted in full, the running total is the file's size.
pub proof fn lemma_chunk_reports_in_block(size: u64, block_size: u64, i: int, c: PartProgress)
    requires
        block_size > 0,
        0 <= i < block_count(size as int, block_size as int),
        c.in_range(),
        c.spec_base() == block_progress(size, block_size, i).uploaded_bytes,
        c.spec_part_len() == block_progress(size, block_size, i).current_part_bytes,
    ensures
        block_start(block_size as int, i) <= c.spec_base() + c.spec_sent() <= block_start(
            block_size as int,
            i,
        ) + block_len(size as int, block_size as int, i),
        forall|j: int|
            i < j < block_count(size as int, block_size as int) ==> c.spec_base() + c.spec_sent()
                <= #[trigger] block_start(block_size as int, j),
        i == block_count(size as int, block_size as int) - 1 && c.spec_sent()
            == c.spec_part_len() ==> c.spec_base() + c.spec_sent() == size,
{
    let n = size as int;
    let bs = block_size as int;
    let count = block_count(n, bs);
    lemma_block_in_file(n, bs, i);
    assert forall|j: int| i < j < count implies c.spec_base() + c.spec_sent() <= #[trigger] block_start(
        bs,
        j,
    ) by {
        lemma_block_in_file(n, bs, j);
        assert((i + 1) * bs <= j * bs) by (nonlinear_arith)
            requires
                i + 1 <= j,
                bs > 0,
        ;
    }
}

} // verus!
