use baidu_pcs_rs_sdk::upload::{
    fill_prepare_path, ondup_of, rtype_of, select_upload_server, single_upload_path,
    PREFIX_FILE_SERVER,
};
use baidu_pcs_rs_sdk::{
    get_file_block_list, AppError, AppErrorType, PartProgress, PcsFileSlicePrepareResult,
    PcsFileUploadResult, PcsUploadPolicy, ProgressInfo, Server, UploadAction, UploadEvent,
    UploadPhase, UploadServerResult, UploadTransfer,
};

fn target(primary: &[&str], backup: &[&str]) -> UploadServerResult {
    UploadServerResult {
        client_ip: "1.2.3.4".to_string(),
        host: "h".to_string(),
        request_id: None,
        server_time: 0,
        sl: None,
        servers: primary.iter().map(|s| Server { server: s.to_string() }).collect(),
        bak_servers: backup.iter().map(|s| Server { server: s.to_string() }).collect(),
    }
}

fn session(path: &str) -> PcsFileSlicePrepareResult {
    PcsFileSlicePrepareResult {
        path: path.to_string(),
        upload_id: "U1".to_string(),
        return_type: 1,
        block_list: vec![0],
    }
}

fn done() -> PcsFileUploadResult {
    PcsFileUploadResult {
        path: "/r/f".to_string(),
        size: 9,
        ctime: 1,
        mtime: 2,
        md5: Some("m".to_string()),
        fs_id: 42,
    }
}

fn start(content: &[u8], bs: u64) -> UploadTransfer {
    let fs = get_file_block_list("/local/f", content, bs, 1, 2);
    match UploadTransfer::start(fs, bs, "/r/f", PcsUploadPolicy::Overwrite) {
        Ok((t, q)) => {
            assert_eq!(q.path, "/r/f");
            assert_eq!(q.size, content.len() as u64);
            assert_eq!(q.rtype, 3);
            assert_eq!(q.is_dir, 0);
            assert_eq!(q.auto_init, 1);
            t
        }
        Err(e) => panic!("start failed: {}", e.message),
    }
}

/// Runs a transfer to the point where the first block is asked for.
fn located(content: &[u8], bs: u64) -> (UploadTransfer, UploadAction) {
    let t = start(content, bs);
    let (t, a) = t.step(UploadEvent::Prepared(Ok(session("/r/f"))));
    assert!(matches!(a, UploadAction::LocateServer(_)));
    t.step(UploadEvent::ServerLocated(Ok(target(&["https://c1"], &[]))))
}

fn block_of(a: &UploadAction) -> ProgressInfo {
    match a {
        UploadAction::UploadBlock(q) => q.progress,
        _ => panic!("expected a block upload"),
    }
}

#[test]
fn full_upload_sends_blocks_in_order_then_merges() {
    let content: Vec<u8> = (0u8..10).collect();
    let (mut t, mut a) = located(&content, 4);
    let mut seen = Vec::new();
    for i in 0..3u32 {
        let p = block_of(&a);
        seen.push((p.uploaded_bytes, p.current_part_bytes, p.current_part));
        assert_eq!(p.current_part, i);
        if let UploadAction::UploadBlock(q) = &a {
            assert_eq!(q.server, "https://c1");
            assert_eq!(q.upload_id, "U1");
            assert_eq!(q.local_file, "/local/f");
        }
        let r = t.step(UploadEvent::BlockUploaded(Ok(format!("h{}", i))));
        t = r.0;
        a = r.1;
    }
    assert_eq!(seen, vec![(0, 4, 0), (4, 4, 1), (8, 2, 2)]);
    match &a {
        UploadAction::Merge(q) => {
            assert_eq!(q.block_list, "[\"h0\",\"h1\",\"h2\"]");
            assert_eq!(q.size, 10);
            assert_eq!(q.upload_id, "U1");
            assert_eq!(q.rtype, 3);
            assert_eq!(q.is_revision, 1);
            assert_eq!(q.mode, 2);
        }
        _ => panic!("expected the merge"),
    }
    assert_eq!(t.phase(), UploadPhase::BlocksUploaded);
    assert_eq!(t.uploaded_bytes(), 10);
    let (t, a) = t.step(UploadEvent::Merged(Ok(done())));
    assert_eq!(t.phase(), UploadPhase::Merged);
    match a {
        UploadAction::Finished(Ok(r)) => assert_eq!(r.fs_id, 42),
        _ => panic!("expected success"),
    }
}

#[test]
fn block_failure_ends_transfer_without_merge() {
    let content: Vec<u8> = (0u8..10).collect();
    let (t, _) = located(&content, 4);
    let (t, a) = t.step(UploadEvent::BlockUploaded(Ok("h0".to_string())));
    assert!(matches!(a, UploadAction::UploadBlock(_)));
    let err = AppError::new(AppErrorType::Network, "reset", None);
    let (t, a) = t.step(UploadEvent::BlockUploaded(Err(err)));
    assert_eq!(t.phase(), UploadPhase::Failed);
    assert_eq!(t.hashes().len(), 1);
    match a {
        UploadAction::Finished(Err(e)) => {
            assert_eq!(e.error_type, AppErrorType::Network);
            assert_eq!(e.message, "reset");
        }
        _ => panic!("expected the failure"),
    }
    let (t, a) = t.step(UploadEvent::BlockUploaded(Ok("late".to_string())));
    assert_eq!(t.phase(), UploadPhase::Failed);
    assert!(matches!(a, UploadAction::Finished(Err(_))));
}

#[test]
fn merge_answer_before_blocks_is_refused() {
    let content = vec![1u8; 5];
    let (t, _) = located(&content, 4);
    let (t, a) = t.step(UploadEvent::Merged(Ok(done())));
    assert_eq!(t.phase(), UploadPhase::Failed);
    match a {
        UploadAction::Finished(Err(e)) => assert_eq!(e.error_type, AppErrorType::Client),
        _ => panic!("expected a refusal"),
    }
}

#[test]
fn prepare_failure_uploads_nothing() {
    let t = start(&[1, 2, 3], 4);
    let err = AppError::new(AppErrorType::Server, "", Some(31064));
    let (t, a) = t.step(UploadEvent::Prepared(Err(err)));
    assert_eq!(t.phase(), UploadPhase::Failed);
    assert!(t.hashes().is_empty());
    match a {
        UploadAction::Finished(Err(e)) => assert_eq!(e.errno, Some(31064)),
        _ => panic!("expected the failure"),
    }
}

#[test]
fn empty_file_goes_straight_to_merge_and_surfaces_server_error() {
    let (t, a) = located(&[], 4 * 1024 * 1024);
    match &a {
        UploadAction::Merge(q) => {
            assert_eq!(q.block_list, "[]");
            assert_eq!(q.size, 0);
        }
        _ => panic!("expected the merge"),
    }
    let err = AppError::new(AppErrorType::Server, "", Some(31363));
    let (t, a) = t.step(UploadEvent::Merged(Err(err)));
    assert_eq!(t.phase(), UploadPhase::Failed);
    match a {
        UploadAction::Finished(Err(e)) => {
            assert_eq!(e.error_type, AppErrorType::Server);
            assert_eq!(e.errno, Some(31363));
        }
        _ => panic!("expected the server error"),
    }
}

#[test]
fn one_block_file_has_full_length_block() {
    let content = vec![9u8; 16];
    let (_, a) = located(&content, 16);
    let p = block_of(&a);
    assert_eq!((p.uploaded_bytes, p.current_part_bytes, p.total_bytes), (0, 16, 16));
}

#[test]
fn block_size_plus_one_gives_blocks_of_b_and_1() {
    let content = vec![9u8; 17];
    let (t, a) = located(&content, 16);
    assert_eq!(block_of(&a).current_part_bytes, 16);
    let (_, a) = t.step(UploadEvent::BlockUploaded(Ok("h".to_string())));
    let p = block_of(&a);
    assert_eq!((p.uploaded_bytes, p.current_part_bytes, p.current_part), (16, 1, 1));
}

#[test]
fn progress_never_goes_back_and_ends_at_total() {
    let content: Vec<u8> = (0..23u8).collect();
    let (mut t, mut a) = located(&content, 5);
    let mut totals: Vec<u64> = Vec::new();
    while let UploadAction::UploadBlock(q) = &a {
        let mut counter = PartProgress::new(&q.progress);
        let mut left = q.progress.current_part_bytes;
        while left > 0 {
            let chunk = left.min(2);
            let e = counter.on_chunk(chunk);
            totals.push(e.uploaded_bytes + e.current_part_bytes);
            left -= chunk;
        }
        let r = t.step(UploadEvent::BlockUploaded(Ok("h".to_string())));
        t = r.0;
        a = r.1;
    }
    assert!(matches!(a, UploadAction::Merge(_)));
    assert!(totals.windows(2).all(|w| w[0] <= w[1]));
    assert_eq!(*totals.last().unwrap(), 23);
}

#[test]
fn chunk_counter_stays_inside_its_block() {
    let info = ProgressInfo { total_bytes: 100, uploaded_bytes: 40, current_part: 2, current_part_bytes: 10 };
    let mut c = PartProgress::new(&info);
    let e1 = c.on_chunk(6);
    assert_eq!((e1.uploaded_bytes, e1.current_part_bytes, e1.current_part, e1.total_bytes), (40, 6, 2, 100));
    let e2 = c.on_chunk(6);
    assert_eq!((e2.uploaded_bytes, e2.current_part_bytes), (46, 4));
    let e3 = c.on_chunk(6);
    assert_eq!((e3.uploaded_bytes, e3.current_part_bytes), (50, 0));
    assert_eq!(c.sent(), 10);
}

#[test]
fn prepare_answer_without_path_keeps_the_sent_path() {
    let t = start(&[1, 2, 3], 4);
    let (_, a) = t.step(UploadEvent::Prepared(Ok(session(""))));
    match a {
        UploadAction::LocateServer(q) => {
            assert_eq!(q.path, "/r/f");
            assert_eq!(q.upload_id, "U1");
        }
        _ => panic!("expected the locate call"),
    }
    assert_eq!(fill_prepare_path(session("/server/path"), "/r/f").path, "/server/path");
    assert_eq!(fill_prepare_path(session(""), "/r/f").path, "/r/f");
}

#[test]
fn upload_server_choice() {
    assert_eq!(select_upload_server(&target(&["p1", "p2"], &["b1"])), "p1");
    assert_eq!(select_upload_server(&target(&[], &["b1", "b2"])), "b1");
    assert_eq!(select_upload_server(&target(&[], &[])), PREFIX_FILE_SERVER);
    assert_eq!(PREFIX_FILE_SERVER, "https://d.pcs.baidu.com");
}

#[test]
fn start_refuses_inconsistent_layout() {
    let fs = get_file_block_list("f", &[1, 2, 3], 2, 0, 0);
    assert!(UploadTransfer::start(fs, 0, "/r", PcsUploadPolicy::Rename).is_err());
    let fs = get_file_block_list("f", &[1, 2, 3], 2, 0, 0);
    match UploadTransfer::start(fs, 3, "/r", PcsUploadPolicy::Rename) {
        Err(e) => assert_eq!(e.error_type, AppErrorType::Client),
        Ok(_) => panic!("a layout of another block size was accepted"),
    }
}

#[test]
fn precreate_form_carries_digests_and_conflict_code() {
    let content = vec![5u8; 6];
    let fs = get_file_block_list("f", &content, 4, 11, 12);
    let digests = fs.block_list.clone();
    let md5 = fs.content_md5.clone();
    let (_, q) = UploadTransfer::start(fs, 4, "/r/x", PcsUploadPolicy::NewCopy).ok().unwrap();
    assert_eq!(q.block_list, format!("[\"{}\",\"{}\"]", digests[0], digests[1]));
    assert_eq!(q.rtype, 2);
    assert_eq!(q.content_md5, md5);
    assert_eq!((q.local_ctime, q.local_mtime), (11, 12));
}

#[test]
fn conflict_codes() {
    assert_eq!(rtype_of(PcsUploadPolicy::Rename), 1);
    assert_eq!(rtype_of(PcsUploadPolicy::NewCopy), 2);
    assert_eq!(rtype_of(PcsUploadPolicy::Overwrite), 3);
    assert_eq!(rtype_of(PcsUploadPolicy::Fail), 3);
    assert_eq!(ondup_of(0), "fail");
    assert_eq!(ondup_of(1), "overwrite");
    assert_eq!(ondup_of(2), "newcopy");
    assert_eq!(ondup_of(7), "overwrite");
}

#[test]
fn single_upload_goes_under_the_app_directory() {
    assert_eq!(single_upload_path("myapp", "/backup/text.txt").ok().unwrap(), "/apps/myapp/backup/text.txt");
    assert_eq!(single_upload_path("myapp", "/apps/myapp/a.txt").ok().unwrap(), "/apps/myapp/a.txt");
    assert!(single_upload_path("myapp", "relative.txt").is_err());
}

#[test]
fn cancel_between_blocks_stops_the_transfer() {
    let content = vec![3u8; 12];
    let (t, a) = located(&content, 4);
    assert!(matches!(a, UploadAction::UploadBlock(_)));
    let (t, a) = t.step(UploadEvent::BlockUploaded(Ok("h0".to_string())));
    assert!(matches!(a, UploadAction::UploadBlock(_)));
    let (t, a) = t.cancel();
    assert_eq!(t.phase(), UploadPhase::Failed);
    assert_eq!(t.hashes().len(), 1);
    match a {
        UploadAction::Finished(Err(e)) => assert_eq!(e.error_type, AppErrorType::Client),
        _ => panic!("expected the transfer to stop"),
    }
}

#[test]
fn chunk_counter_stops_at_largest_byte_count() {
    let info = ProgressInfo { total_bytes: u64::MAX, uploaded_bytes: u64::MAX - 3, current_part: 0, current_part_bytes: 10 };
    let mut c = PartProgress::new(&info);
    let e = c.on_chunk(10);
    assert_eq!((e.uploaded_bytes, e.current_part_bytes), (u64::MAX - 3, 3));
    assert_eq!(c.sent(), 3);
}

#[test]
fn merge_follows_the_last_accepted_block() {
    let content = vec![1u8; 8];
    let (t, a) = located(&content, 4);
    assert!(matches!(a, UploadAction::UploadBlock(_)));
    let (t, a) = t.step(UploadEvent::BlockUploaded(Ok("a".to_string())));
    assert!(matches!(a, UploadAction::UploadBlock(_)));
    let (t, a) = t.step(UploadEvent::BlockUploaded(Ok("b".to_string())));
    assert_eq!(t.phase(), UploadPhase::BlocksUploaded);
    match a {
        UploadAction::Merge(q) => assert_eq!(q.block_list, "[\"a\",\"b\"]"),
        _ => panic!("expected the merge"),
    }
}
