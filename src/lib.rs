//! Client library for a cloud-drive account: content-addressed slicing of
//! local files, a verified driver of the chunked upload protocol
//! (prepare, per-block upload, merge), progress accounting, download
//! decisions, and the error model shared by all of them.
pub mod account;
pub mod auth;
pub mod cli;
pub mod config;
pub mod digest;
pub mod download;
pub mod error;
pub mod manifest;
pub mod paths;
pub mod progress;
pub mod remote;
pub mod sync;
pub mod text;
pub mod upload;

pub use account::{BaiduPcsApp, PcsAccessToken, PcsUserInfo};
pub use auth::{BaiduPanDeviceAuthClient, DeviceAuthStep, PcsDeviceTicket};
pub use cli::{
    CommandLineArgs, Commands, DiskQuotaArgs, DownloadArgs, ListArgs, RemoveArgs, UploadArgs,
};
pub use config::{BaiduPan, Config, LocalConfig};
pub use download::{
    DirectoryDownload, DownloadJob, PcsFileItem, PcsFileListResult, PcsFileMetaInfo,
    PcsFileMetaResult, RemoteTarget,
};
pub use error::{AppError, AppErrorType, PcsApiError, PcsError};
pub use manifest::{get_file_block_list, PcsFileSliceInfo};
pub use progress::{DownloadProgress, PartProgress, ProgressInfo};
pub use remote::{
    PcsCreateFolderResult, PcsDiskQuota, PcsFileSearchInfo, PcsFileSearchResult, PcsFileTask,
    PcsFileTaskOperationResult,
};
pub use sync::LocalSyncFileManager;
pub use upload::{
    PcsFileSlicePrepareResult, PcsFileUploadResult, PcsUploadPolicy, Server, UploadAction,
    UploadEvent, UploadPhase, UploadServerResult, UploadTransfer,
};
