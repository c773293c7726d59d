use vstd::prelude::*;

use crate::text::concat_str;

verus! {

/// Where an error came from.
#[derive(Debug, PartialEq, Eq, Structural, Clone, Copy)]
pub enum AppErrorType {
    /// Fallback, e.g. a resource that a lookup did not find.
    Unknown,
    /// Transport failure: connection, timeout, TLS.
    Network,
    /// The remote endpoint answered with a failure status.
    Server,
    /// Bad local input, local I/O or arguments.
    Client,
}

/// The error every operation of this library reports.
#[derive(Debug)]
pub struct AppError {
    pub error_type: AppErrorType,
    pub message: String,
    pub errno: Option<i64>,
}

/// Error answer of the authorization endpoints.
#[derive(Debug)]
pub struct PcsError {
    pub error: String,
    pub error_description: String,
}

/// Status part of an answer of the drive endpoints; `errno` 0 means
/// success. An answer that does not parse as a status carries
/// `i32::MIN` and keeps the answer's text in `raw`.
#[derive(Debug)]
pub struct PcsApiError {
    pub errno: i32,
    pub err_msg: Option<String>,
    pub request_id: Option<String>,
    pub raw: String,
}

/// Message of a server error code, for the codes the service documents.
pub open spec fn errno_text(errno: i64) -> Option<Seq<char>> {
    if errno == 2 {
        Some("参数错误"@)
    } else if errno == 6 {
        Some("不允许接入用户数据"@)
    } else if errno == 10 {
        Some("转存文件已经存在"@)
    } else if errno == 11 {
        Some("自己发送的分享"@)
    } else if errno == 12 {
        Some("批量转存出错"@)
    } else if errno == 111 {
        Some("access token 失效"@)
    } else if errno == 255 {
        Some("转存数量太多"@)
    } else if errno == 2131 {
        Some("该分享不存在"@)
    } else if errno == 31023 {
        Some("参数错误"@)
    } else if errno == 31024 {
        Some("没有申请上传权限"@)
    } else if errno == 31034 {
        Some("命中接口频控"@)
    } else if errno == 31061 {
        Some("文件已存在"@)
    } else if errno == 31064 {
        Some("上传路径权限"@)
    } else if errno == 31190 {
        Some("文件不存在"@)
    } else if errno == 31299 {
        Some("第一个分片的大小小于4MB"@)
    } else if errno == 31363 {
        Some("分片缺失"@)
    } else if errno == 31365 {
        Some("文件总大小超限"@)
    } else if errno == -31066 {
        Some("文件不存在"@)
    } else if errno == -1 {
        Some("权益已过期"@)
    } else if errno == -3 {
        Some("文件不存在"@)
    } else if errno == -6 {
        Some("身份验证失败"@)
    } else if errno == -7 {
        Some("文件或目录无权访问"@)
    } else if errno == -8 {
        Some("文件或目录已存在"@)
    } else if errno == -9 {
        Some("文件或目录不存在"@)
    } else if errno == -10 {
        Some("容量不足(云端容量已满)"@)
    } else {
        None
    }
}

/// The text shown for a server error: the documented message of its code
/// when the code is listed, else the server's message.
pub open spec fn translated(msg: Seq<char>, errno: i64) -> Seq<char> {
    if errno_text(errno) is Some {
        errno_text(errno)->Some_0
    } else {
        msg
    }
}

/// The text shown for an error: translated for a server error with a code,
/// the message itself otherwise.
pub open spec fn error_text(e: AppError) -> Seq<char> {
    if e.error_type == AppErrorType::Server && e.errno is Some {
        translated(e.message@, e.errno->Some_0)
    } else {
        e.message@
    }
}

/// `e` is the error that a status answer with a non-zero code stands for.
pub open spec fn is_api_error_of(e: AppError, s: PcsApiError) -> bool {
    &&& e.error_type == AppErrorType::Server
    &&& if s.errno == i32::MIN {
        e.message@ == s.raw@ && e.errno is None
    } else {
        &&& e.message@ == (match s.err_msg {
            Some(m) => m@,
            None => s.raw@,
        })
        &&& e.errno == Some(s.errno as i64)
    }
}

fn errno_message(errno: i64) -> (r: Option<&'static str>)
    ensures
        r is Some <==> errno_text(errno) is Some,
        r is Some ==> r->Some_0@ == errno_text(errno)->Some_0,
{
    match errno {
        2 => Some("参数错误"),
        6 => Some("不允许接入用户数据"),
        10 => Some("转存文件已经存在"),
        11 => Some("自己发送的分享"),
        12 => Some("批量转存出错"),
        111 => Some("access token 失效"),
        255 => Some("转存数量太多"),
        2131 => Some("该分享不存在"),
        31023 => Some("参数错误"),
        31024 => Some("没有申请上传权限"),
        31034 => Some("命中接口频控"),
        31061 => Some("文件已存在"),
        31064 => Some("上传路径权限"),
        31190 => Some("文件不存在"),
        31299 => Some("第一个分片的大小小于4MB"),
        31363 => Some("分片缺失"),
        31365 => Some("文件总大小超限"),
        -31066 => Some("文件不存在"),
        -1 => Some("权益已过期"),
        -3 => Some("文件不存在"),
        -6 => Some("身份验证失败"),
        -7 => Some("文件或目录无权访问"),
        -8 => Some("文件或目录已存在"),
        -9 => Some("文件或目录不存在"),
        -10 => Some("容量不足(云端容量已满)"),
        _ => None,
    }
}

/// The message of a server error: the documented message of `errno` when
/// the code is listed, otherwise `msg`.
pub fn try_translate_errno(msg: &String, errno: i64) -> (r: String)
    ensures
        r@ == translated(msg@, errno),
{
    match errno_message(errno) {
        Some(t) => t.to_owned(),
        None => msg.clone(),
    }
}

/// The text shown to a user for `error`.
pub fn translate_error_to_string(error: AppError) -> (r: String)
    ensures
        r@ == error_text(error),
{
    if error.error_type == AppErrorType::Server {
        if let Some(errno) = error.errno {
            return try_translate_errno(&error.message, errno);
        }
    }
    error.message
}

impl AppError {
    pub fn new(error_type: AppErrorType, message: &str, errno: Option<i64>) -> (r: Self)
        ensures
            r.error_type == error_type,
            r.message@ == message@,
            r.errno == errno,
    {
        AppError { error_type, message: message.to_owned(), errno }
    }

    /// The error that a failure status of a drive endpoint stands for.
    pub fn from_api_error(e: PcsApiError) -> (r: Self)
        ensures
            is_api_error_of(r, e),
    {
        if e.errno == i32::MIN {
            AppError::new(AppErrorType::Server, e.raw.as_str(), None)
        } else {
            let msg = match e.err_msg {
                Some(m) => m,
                None => e.raw,
            };
            AppError::new(AppErrorType::Server, msg.as_str(), Some(e.errno as i64))
        }
    }

    /// The error that an answer of the authorization endpoints stands for:
    /// a server error whose message is `error:error_description`.
    pub fn from_pcs_error(e: PcsError) -> (r: Self)
        ensures
            r.error_type == AppErrorType::Server,
            r.message@ == e.error@ + ":"@ + e.error_description@,
            r.errno is None,
    {
        let head = concat_str(e.error.as_str(), ":");
        let msg = concat_str(head.as_str(), e.error_description.as_str());
        AppError::new(AppErrorType::Server, msg.as_str(), None)
    }

    /// The line shown for this error: its kind, then its message; a server
    /// error shows its translated message alone (code 0 when it has none).
    pub fn to_display_string(&self) -> (r: String)
        ensures
            r@ == match self.error_type {
                AppErrorType::Client => "Client Error: "@ + self.message@,
                AppErrorType::Network => "Network Error: "@ + self.message@,
                AppErrorType::Server => translated(
                    self.message@,
                    match self.errno {
                        Some(n) => n,
                        None => 0,
                    },
                ),
                AppErrorType::Unknown => "Unknown Error: "@ + self.message@,
            },
    {
        match self.error_type {
            AppErrorType::Client => concat_str("Client Error: ", self.message.as_str()),
            AppErrorType::Network => concat_str("Network Error: ", self.message.as_str()),
            AppErrorType::Server => {
                let errno = match self.errno {
                    Some(n) => n,
                    None => 0,
                };
                try_translate_errno(&self.message, errno)
            },
            AppErrorType::Unknown => concat_str("Unknown Error: ", self.message.as_str()),
        }
    }
}

impl PcsError {
    pub fn error(&self) -> (r: &String)
        ensures
            r == self.error,
    {
        &self.error
    }

    pub fn error_description(&self) -> (r: &String)
        ensures
            r == self.error_description,
    {
        &self.error_description
    }
}

impl PcsApiError {
    /// The status that stands for an answer which is not a status at all:
    /// code `i32::MIN`, the answer's text kept.
    pub fn unparsed(raw: String) -> (r: Self)
        ensures
            r.errno == i32::MIN,
            r.err_msg is None,
            r.request_id is None,
            r.raw@ == raw@,
    {
        PcsApiError { errno: i32::MIN, err_msg: None, request_id: None, raw }
    }
}

/// Decides an answer of a drive endpoint by its status: success for code 0,
/// else the error that the status stands for.
pub fn check_api_status(status: PcsApiError) -> (r: Result<(), AppError>)
    ensures
        r is Ok <==> status.errno == 0,
        r is Err ==> is_api_error_of(r->Err_0, status),
{
    if status.errno == 0 {
        Ok(())
    } else {
        Err(AppError::from_api_error(status))
    }
}

/// Decides an answer that is either the expected body or a failure status:
/// the body when it could be read, else the error the status stands for.
pub fn body_or_status_error<T>(body: Option<T>, status: PcsApiError) -> (r: Result<T, AppError>)
    ensures
        match body {
            Some(b) => r == Ok::<T, AppError>(b),
            None => r matches Err(e) && is_api_error_of(e, status),
        },
{
    match body {
        Some(b) => Ok(b),
        None => Err(AppError::from_api_error(status)),
    }
}

} // verus!
