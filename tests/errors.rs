use baidu_pcs_rs_sdk::error::{
    body_or_status_error, check_api_status, translate_error_to_string, try_translate_errno,
};
use baidu_pcs_rs_sdk::{AppError, AppErrorType, PcsApiError, PcsError};

#[test]
fn blank_message_is_translated_by_code() {
    assert_eq!(try_translate_errno(&String::new(), 2), "参数错误");
    assert_eq!(try_translate_errno(&"  \t".to_string(), 111), "access token 失效");
    assert_eq!(try_translate_errno(&String::new(), -10), "容量不足(云端容量已满)");
    assert_eq!(try_translate_errno(&String::new(), 31299), "第一个分片的大小小于4MB");
}

#[test]
fn unknown_code_keeps_the_server_message() {
    assert_eq!(try_translate_errno(&"  ".to_string(), 999), "  ");
    assert_eq!(try_translate_errno(&"bad thing".to_string(), 0), "bad thing");
}

#[test]
fn listed_code_wins_over_the_server_message() {
    assert_eq!(try_translate_errno(&"bad thing".to_string(), 2), "参数错误");
    assert_eq!(try_translate_errno(&"file exists".to_string(), -8), "文件或目录已存在");
    let e = AppError::new(AppErrorType::Server, "quota", Some(-10));
    assert_eq!(translate_error_to_string(e), "容量不足(云端容量已满)");
}

#[test]
fn translation_applies_to_server_errors_with_code_only() {
    let e = AppError::new(AppErrorType::Server, "", Some(-9));
    assert_eq!(translate_error_to_string(e), "文件或目录不存在");
    let e = AppError::new(AppErrorType::Server, "", None);
    assert_eq!(translate_error_to_string(e), "");
    let e = AppError::new(AppErrorType::Client, "", Some(-9));
    assert_eq!(translate_error_to_string(e), "");
}

#[test]
fn display_text_of_each_kind() {
    assert_eq!(AppError::new(AppErrorType::Client, "x", None).to_display_string(), "Client Error: x");
    assert_eq!(AppError::new(AppErrorType::Network, "y", None).to_display_string(), "Network Error: y");
    assert_eq!(AppError::new(AppErrorType::Unknown, "z", None).to_display_string(), "Unknown Error: z");
    assert_eq!(AppError::new(AppErrorType::Server, "", Some(31061)).to_display_string(), "文件已存在");
    assert_eq!(AppError::new(AppErrorType::Server, "srv", None).to_display_string(), "srv");
}

#[test]
fn api_status_zero_is_success() {
    let s = PcsApiError { errno: 0, err_msg: None, request_id: None, raw: "{}".to_string() };
    assert!(check_api_status(s).is_ok());
}

#[test]
fn api_status_failure_keeps_message_and_code() {
    let s = PcsApiError {
        errno: -6,
        err_msg: Some("auth failed".to_string()),
        request_id: Some("r".to_string()),
        raw: "{...}".to_string(),
    };
    match check_api_status(s) {
        Err(e) => {
            assert_eq!(e.error_type, AppErrorType::Server);
            assert_eq!(e.message, "auth failed");
            assert_eq!(e.errno, Some(-6));
        }
        Ok(()) => panic!("failure status accepted"),
    }
    let s = PcsApiError { errno: 31034, err_msg: None, request_id: None, raw: "raw text".to_string() };
    let e = AppError::from_api_error(s);
    assert_eq!(e.message, "raw text");
    assert_eq!(e.errno, Some(31034));
}

#[test]
fn unparsed_answer_becomes_server_error_with_text() {
    let s = PcsApiError::unparsed("<html>502</html>".to_string());
    assert_eq!(s.errno, i32::MIN);
    match check_api_status(s) {
        Err(e) => {
            assert_eq!(e.error_type, AppErrorType::Server);
            assert_eq!(e.message, "<html>502</html>");
            assert_eq!(e.errno, None);
        }
        Ok(()) => panic!("unparsed answer accepted"),
    }
}

#[test]
fn authorization_error_joins_code_and_description() {
    let e = AppError::from_pcs_error(PcsError {
        error: "invalid_grant".to_string(),
        error_description: "expired".to_string(),
    });
    assert_eq!(e.error_type, AppErrorType::Server);
    assert_eq!(e.message, "invalid_grant:expired");
    assert_eq!(e.errno, None);
}

#[test]
fn answer_body_wins_over_status() {
    let s = PcsApiError { errno: 31363, err_msg: None, request_id: None, raw: "{\"errno\":31363}".to_string() };
    assert_eq!(body_or_status_error(Some(5u64), s).ok(), Some(5));
    let s = PcsApiError { errno: 31363, err_msg: None, request_id: None, raw: "{\"errno\":31363}".to_string() };
    match body_or_status_error::<u64>(None, s) {
        Err(e) => {
            assert_eq!(e.errno, Some(31363));
            assert_eq!(e.message, "{\"errno\":31363}");
            assert_eq!(e.to_display_string(), "分片缺失");
        }
        Ok(_) => panic!("a missing body was accepted"),
    }
}

#[test]
fn status_without_message_gives_empty_message() {
    let s = PcsApiError { errno: 31190, err_msg: None, request_id: None, raw: String::new() };
    let e = AppError::from_api_error(s);
    assert_eq!(e.message, "");
    assert_eq!(e.errno, Some(31190));
    assert_eq!(translate_error_to_string(e), "文件不存在");
}
