use baidu_pcs_rs_sdk::auth::device_auth_next;
use baidu_pcs_rs_sdk::cli::upload_roots;
use baidu_pcs_rs_sdk::paths::is_hidden_name;
use baidu_pcs_rs_sdk::remote::{delete_request, search_request};
use baidu_pcs_rs_sdk::sync::remote_path_for;
use baidu_pcs_rs_sdk::{
    BaiduPan, BaiduPcsApp, Config, DeviceAuthStep, LocalConfig, LocalSyncFileManager,
    PcsAccessToken, PcsDeviceTicket, PcsDiskQuota, PcsError, PcsUserInfo, ProgressInfo,
    UploadArgs,
};

fn user(vip_type: i32) -> PcsUserInfo {
    PcsUserInfo {
        baidu_name: "n".to_string(),
        netdisk_name: "d".to_string(),
        avatar_url: "u".to_string(),
        vip_type,
        uk: 1,
    }
}

fn token(born_at: i64, expires_in: u32) -> PcsAccessToken {
    PcsAccessToken {
        access_token: "A".to_string(),
        expires_in,
        refresh_token: "R".to_string(),
        scope: "basic,netdisk".to_string(),
        session_secret: None,
        session_key: None,
        born_at,
    }
}

fn config() -> Config {
    Config {
        baidu_pan: BaiduPan {
            access_token: "old".to_string(),
            refresh_token: "oldr".to_string(),
            expires_at: 5,
            root_path: "/remote".to_string(),
        },
        local_pan: LocalConfig { root_path: "/local".to_string(), include_prefix: Some(true) },
    }
}

#[test]
fn block_size_by_tier() {
    assert_eq!(user(0).get_user_block_slice_size(), 4 * 1024 * 1024);
    assert_eq!(user(1).get_user_block_slice_size(), 16 * 1024 * 1024);
    assert_eq!(user(2).get_user_block_slice_size(), 32 * 1024 * 1024);
    assert_eq!(user(9).get_user_block_slice_size(), 4 * 1024 * 1024);
}

#[test]
fn max_upload_size_by_tier() {
    let gib: u64 = 1024 * 1024 * 1024;
    assert_eq!(user(0).get_user_max_upload_file_size(), 4 * gib);
    assert_eq!(user(1).get_user_max_upload_file_size(), 10 * gib);
    assert_eq!(user(2).get_user_max_upload_file_size(), 20 * gib);
    assert_eq!(user(-1).get_user_max_upload_file_size(), 4 * gib);
}

#[test]
fn app_registration_strings() {
    let app = BaiduPcsApp { app_key: "k", app_secret: "s", app_name: "name" };
    assert_eq!(app.get_app_key(), "k");
    assert_eq!(app.get_app_secret(), "s");
    assert_eq!(app.get_app_name(), "name");
}

#[test]
fn token_expiry_rules() {
    let t = token(1000, 3600);
    assert!(!t.is_expired_at(1000));
    assert!(!t.is_expired_at(4000));
    assert!(t.is_expired_at(4001));
    let long = token(0, 30 * 24 * 3600);
    assert!(long.is_need_refresh_at(0));
    assert!(!long.is_need_refresh_at(23 * 24 * 3600));
    let fresh = PcsAccessToken::new("a", 2592000, "r", "basic netdisk");
    assert_eq!(fresh.get_access_token(), "a");
    assert_eq!(*fresh.get_expires_in(), 2592000);
    assert!(!fresh.is_expired());
    assert!(fresh.is_need_refresh());
    assert!(*fresh.get_born_at() > 1_600_000_000);
}

#[test]
fn config_takes_new_token() {
    let mut c = config();
    c.update_token(token(100, 50));
    assert_eq!(c.baidu_pan.access_token, "A");
    assert_eq!(c.baidu_pan.refresh_token, "R");
    assert_eq!(c.baidu_pan.expires_at, 150);
    assert_eq!(c.baidu_pan.root_path, "/remote");
    c.update_token(token(i64::MAX - 1, 50));
    assert_eq!(c.baidu_pan.expires_at, i64::MAX);
}

#[test]
fn refresh_needed_within_seven_days() {
    let mut c = config();
    c.baidu_pan.expires_at = 7 * 24 * 3600 + 10;
    assert!(!c.baidu_pan.is_need_refresh_token_at(10));
    assert!(c.baidu_pan.is_need_refresh_token_at(11));
    assert!(c.is_need_refresh_token());
}

#[test]
fn first_use_settings() {
    let c = Config::first_use(&token(77, 10), None, Some("/r".to_string()));
    assert_eq!(c.baidu_pan.expires_at, 77);
    assert_eq!(c.baidu_pan.root_path, "/r");
    assert_eq!(c.local_pan.root_path, "/data/backup/");
    assert_eq!(c.local_pan.include_prefix, Some(false));
}

#[test]
fn upload_roots_from_arguments_or_settings() {
    let c = config();
    let given = UploadArgs {
        recursive: false,
        local: Some("/x".to_string()),
        remote: None,
        include_prefix: false,
    };
    let r = upload_roots(&given, &c);
    assert_eq!((r.local_root.as_str(), r.remote_root.as_str(), r.keep_prefix), ("/x", "/remote", false));
    let none = UploadArgs { recursive: false, local: None, remote: Some("/y".to_string()), include_prefix: false };
    let r = upload_roots(&none, &c);
    assert_eq!((r.local_root.as_str(), r.remote_root.as_str(), r.keep_prefix), ("/local", "/y", true));
}

#[test]
fn device_authorization_steps() {
    let err = |code: &str| PcsError { error: code.to_string(), error_description: "why".to_string() };
    assert!(matches!(device_auth_next(Err(err("authorization_pending"))), DeviceAuthStep::Poll));
    assert!(matches!(device_auth_next(Err(err("invalid_grant"))), DeviceAuthStep::Restart));
    match device_auth_next(Err(err("pcs sdk error"))) {
        DeviceAuthStep::Abort(d) => assert_eq!(d, "why"),
        _ => panic!("expected to stop"),
    }
    match device_auth_next(Ok(token(1, 2))) {
        DeviceAuthStep::Done(t) => assert_eq!(t.born_at, 1),
        _ => panic!("expected the token"),
    }
    let ticket = PcsDeviceTicket {
        device_code: "dc".to_string(),
        user_code: "uc".to_string(),
        verification_url: "v".to_string(),
        expires_in: 300,
        interval: -5,
        qrcode_url: "q".to_string(),
    };
    assert_eq!(ticket.poll_delay_secs(), 6);
}

#[test]
fn search_key_and_directory() {
    let q = search_request("/a/c/bddeeaaae.ext");
    assert_eq!(q.key, "bddeeaaae");
    assert_eq!(q.dir.as_deref(), Some("/a/c"));
    assert_eq!(q.recursion, 1);
    let q = search_request("/a/c/");
    assert_eq!(q.key, "");
    assert_eq!(q.dir.as_deref(), Some("/a/c/"));
    let q = search_request("plain");
    assert_eq!(q.key, "plain");
    assert_eq!(q.dir, None);
    let long = format!("/d/{}.txt", "x".repeat(40) + "END");
    let q = search_request(&long);
    assert_eq!(q.key.chars().count(), 30);
    assert!(q.key.ends_with("END"));
}

#[test]
fn delete_form() {
    let paths = vec!["/a".to_string(), "/b".to_string()];
    let q = delete_request(&paths, Some(false));
    assert_eq!(q.async_mode, 2);
    assert_eq!(q.file_list, "[\"/a\",\"/b\"]");
    assert_eq!(delete_request(&paths, Some(true)).async_mode, 0);
    assert_eq!(delete_request(&paths, None).async_mode, 1);
}

#[test]
fn remote_paths_of_scanned_files() {
    assert_eq!(remote_path_for("/home/u/data/a.txt", "/backup", false, "/home/u/data").ok().unwrap(), "/backup/data/a.txt");
    assert_eq!(remote_path_for("/home/u/data/a.txt", "/backup", true, "/home/u/data").ok().unwrap(), "/backup/home/u/data/a.txt");
    assert!(remote_path_for("/elsewhere/a.txt", "/backup", false, "/home/u/data").is_err());
}

#[test]
fn hidden_names_start_with_a_dot() {
    assert!(is_hidden_name(".git"));
    assert!(!is_hidden_name("src"));
    assert!(!is_hidden_name(""));
}

#[test]
fn progress_text() {
    let p = ProgressInfo { total_bytes: 10, uploaded_bytes: 4, current_part: 1, current_part_bytes: 4 };
    assert_eq!(
        p.to_display_string(),
        "ProgressInfo { total_bytes: 10, uploaded_bytes: 4, current_part: 1, current_part_bytes: 4 }"
    );
}

#[test]
fn idle_space() {
    let q = PcsDiskQuota { total: 100, expire: false, used: 30, free: 5 };
    assert_eq!(q.idle(), Some(75));
    let q = PcsDiskQuota { total: 10, expire: false, used: 30, free: 5 };
    assert_eq!(q.idle(), None);
}

#[test]
fn nothing_is_recorded_as_synced() {
    let m = LocalSyncFileManager { path: "/a".to_string(), size: 1, md5: "x".to_string() };
    assert!(!m.is_file_has_synced("/a"));
}
