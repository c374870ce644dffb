use hash_service::error::{MetaField, SyncError};
use hash_service::sync::{
    client_header, digest_file_name, download_file, fetch_outcome, get_git_data, is_success,
    needs_download, remote_meta, remote_meta_from_fields, source_url, HttpResponse, LocalCopy,
    RemoteMeta, SOURCE_COUNT,
};
use hash_service::sync_machine::{SyncAction, SyncEvent, SyncMachine, SyncPhase};

fn response(status: u16, status_line: &str, body: &str) -> HttpResponse {
    HttpResponse {
        status,
        status_line: status_line.to_string(),
        body: body.as_bytes().to_vec(),
    }
}

fn meta(digest: &str, name: &str) -> RemoteMeta {
    RemoteMeta {
        digest: digest.to_string(),
        download_url: format!("https://raw.example/{}", name),
        name: name.to_string(),
    }
}

fn copy_of(file_exists: bool, stored: Option<&str>) -> LocalCopy {
    LocalCopy {
        file_exists,
        stored_digest: stored.map(|s| s.to_string()),
    }
}

#[test]
fn there_are_three_sources_bin_first() {
    assert_eq!(SOURCE_COUNT, 3);
    assert_eq!(
        source_url(0),
        Some("https://api.github.com/repos/CommunityDragon/Data/contents/hashes/lol/hashes.binentries.txt")
    );
    assert_eq!(
        source_url(1),
        Some("https://api.github.com/repos/CommunityDragon/Data/contents/hashes/lol/hashes.game.txt.0")
    );
    assert_eq!(
        source_url(2),
        Some("https://api.github.com/repos/CommunityDragon/Data/contents/hashes/lol/hashes.game.txt.1")
    );
    assert_eq!(source_url(3), None);
    assert_eq!(source_url(usize::MAX), None);
}

#[test]
fn every_request_names_the_client() {
    assert_eq!(client_header(), ("User-Agent", "Rust-Client"));
}

#[test]
fn success_is_a_status_from_200_to_299() {
    assert!(is_success(200));
    assert!(is_success(204));
    assert!(is_success(299));
    assert!(!is_success(199));
    assert!(!is_success(300));
    assert!(!is_success(404));
    assert!(!is_success(0));
}

#[test]
fn the_digest_file_stands_beside_the_source_file() {
    assert_eq!(digest_file_name("hashes.game.txt.0"), "hashes.game.txt.0.sha");
    assert_eq!(digest_file_name(""), ".sha");
}

#[test]
fn a_current_copy_is_not_downloaded() {
    assert!(!needs_download(&copy_of(true, Some("abc123")), "abc123"));
    assert!(!needs_download(&copy_of(true, Some("")), ""));
}

#[test]
fn the_stored_digest_is_compared_character_for_character() {
    assert!(needs_download(&copy_of(true, Some("abc123\n")), "abc123"));
    assert!(needs_download(&copy_of(true, Some("  abc123 \r\n")), "abc123"));
    assert!(needs_download(&copy_of(true, Some("abc123")), "abc123 "));
    assert!(needs_download(&copy_of(true, Some("abc12")), "abc123"));
    assert!(needs_download(&copy_of(true, Some("abc1234")), "abc123"));
}

#[test]
fn a_missing_or_stale_copy_is_downloaded() {
    assert!(needs_download(&copy_of(false, None), "abc123"));
    assert!(needs_download(&copy_of(false, Some("abc123")), "abc123"));
    assert!(needs_download(&copy_of(true, None), "abc123"));
    assert!(needs_download(&copy_of(true, Some("abc124")), "abc123"));
    assert!(needs_download(&copy_of(true, Some("")), "abc123"));
    assert!(needs_download(&copy_of(true, Some("ABC123")), "abc123"));
}

#[test]
fn a_digest_with_outer_white_space_matches_what_was_stored() {
    assert!(!needs_download(&copy_of(true, Some(" abc")), " abc"));
    assert!(!needs_download(&copy_of(true, Some("abc\n")), "abc\n"));
}

#[test]
fn metadata_is_made_of_three_string_fields() {
    let body = "{\"name\":\"hashes.game.txt.0\",\"sha\":\"abc123\",\"size\":5,\
                \"download_url\":\"https://raw.example/hashes.game.txt.0\"}";
    let value = get_git_data(Ok(response(200, "200 OK", body))).unwrap();
    let meta = remote_meta(&value).unwrap();
    assert_eq!(meta.digest, "abc123");
    assert_eq!(meta.download_url, "https://raw.example/hashes.game.txt.0");
    assert_eq!(meta.name, "hashes.game.txt.0");
}

#[test]
fn the_first_missing_field_is_named() {
    let cases = [
        ("{}", MetaField::Sha),
        ("{\"download_url\":\"u\",\"name\":\"n\"}", MetaField::Sha),
        ("{\"sha\":\"s\",\"name\":\"n\"}", MetaField::DownloadUrl),
        ("{\"sha\":\"s\"}", MetaField::DownloadUrl),
        ("{\"sha\":\"s\",\"download_url\":\"u\"}", MetaField::Name),
        ("{\"sha\":5,\"download_url\":\"u\",\"name\":\"n\"}", MetaField::Sha),
        ("{\"sha\":\"s\",\"download_url\":null,\"name\":\"n\"}", MetaField::DownloadUrl),
        ("{\"sha\":\"s\",\"download_url\":\"u\",\"name\":[\"n\"]}", MetaField::Name),
        ("[\"sha\",\"download_url\",\"name\"]", MetaField::Sha),
        ("\"sha\"", MetaField::Sha),
    ];
    for (body, field) in cases {
        match fetch_outcome(Ok(response(200, "200 OK", body))) {
            Err(SyncError::MissingField(f)) => assert_eq!(f, field),
            _ => panic!("a field is missing in {}", body),
        }
    }
}

#[test]
fn missing_fields_are_reported_by_name() {
    let e = remote_meta_from_fields(None, Some("u".to_string()), None).unwrap_err();
    assert_eq!(e.message(), "Missing 'sha' field in response");
    let e = remote_meta_from_fields(Some("s".to_string()), None, None).unwrap_err();
    assert_eq!(e.message(), "Missing 'download_url' field in response");
    let e = remote_meta_from_fields(Some("s".to_string()), Some("u".to_string()), None)
        .unwrap_err();
    assert_eq!(e.message(), "Missing 'name' field in response");
    let meta = remote_meta_from_fields(
        Some("s".to_string()),
        Some("u".to_string()),
        Some("n".to_string()),
    )
    .unwrap();
    assert_eq!(meta.digest, "s");
    assert_eq!(meta.download_url, "u");
    assert_eq!(meta.name, "n");
}

#[test]
fn a_refused_metadata_request_is_a_failed_fetch() {
    let r = get_git_data(Ok(response(403, "403 Forbidden", "rate limit")));
    assert_eq!(
        r.unwrap_err(),
        "GitHub API request failed with status 403 Forbidden: rate limit"
    );
    match fetch_outcome(Ok(response(404, "404 Not Found", ""))) {
        Err(e) => assert_eq!(
            e.message(),
            "Failed to fetch data from GitHub: GitHub API request failed with status 404 Not Found: "
        ),
        Ok(_) => panic!("the request was refused"),
    }
}

#[test]
fn a_refusal_with_a_body_that_is_no_text_is_still_reported() {
    let refused = HttpResponse {
        status: 500,
        status_line: "500 Internal Server Error".to_string(),
        body: vec![0x61, 0xFF, 0x62],
    };
    assert_eq!(
        get_git_data(Ok(refused)).unwrap_err(),
        "GitHub API request failed with status 500 Internal Server Error: a\u{FFFD}b"
    );
}

#[test]
fn a_failed_request_hands_its_report_on() {
    assert_eq!(
        get_git_data(Err("connection refused".to_string())).unwrap_err(),
        "connection refused"
    );
    match fetch_outcome(Err("connection refused".to_string())) {
        Err(e) => assert_eq!(
            e.message(),
            "Failed to fetch data from GitHub: connection refused"
        ),
        Ok(_) => panic!("the request failed"),
    }
}

#[test]
fn a_body_that_is_no_json_is_a_failed_fetch() {
    assert!(get_git_data(Ok(response(200, "200 OK", "<html>"))).is_err());
    assert!(get_git_data(Ok(response(200, "200 OK", ""))).is_err());
    assert!(get_git_data(Ok(response(200, "200 OK", "{\"sha\":"))).is_err());
    match fetch_outcome(Ok(response(200, "200 OK", "<html>"))) {
        Err(SyncError::Fetch(_)) => {}
        _ => panic!("the body is no JSON"),
    }
}

#[test]
fn a_download_hands_the_body_out() {
    let body = download_file(Ok(response(200, "200 OK", "1 one\n2 two\n"))).unwrap();
    assert_eq!(body, b"1 one\n2 two\n".to_vec());
    assert_eq!(
        download_file(Ok(response(200, "200 OK", ""))).unwrap(),
        Vec::<u8>::new()
    );
}

#[test]
fn a_refused_or_failed_download_is_reported() {
    assert_eq!(
        download_file(Ok(response(404, "404 Not Found", "gone"))).unwrap_err(),
        "Failed to download file: 404 Not Found"
    );
    assert_eq!(
        download_file(Err("timed out".to_string())).unwrap_err(),
        "timed out"
    );
    assert_eq!(
        SyncError::Download("timed out".to_string()).message(),
        "Failed to download file: timed out"
    );
    assert_eq!(
        SyncError::WriteFile("disk full".to_string()).message(),
        "Failed to write file: disk full"
    );
    assert_eq!(
        SyncError::WriteDigest("disk full".to_string()).message(),
        "Failed to write SHA file: disk full"
    );
}

#[test]
fn a_sync_over_an_empty_cache_downloads_every_source() {
    let mut machine = SyncMachine::new();
    assert_eq!(machine.phase(), SyncPhase::Idle);
    let mut action = machine.step(SyncEvent::Started).unwrap();
    let names = ["hashes.binentries.txt", "hashes.game.txt.0", "hashes.game.txt.1"];
    for (index, name) in names.iter().enumerate() {
        match &action {
            SyncAction::Fetch { url } => assert_eq!(url.as_str(), source_url(index).unwrap()),
            other => panic!("expected a fetch, got {:?}", other),
        }
        action = machine
            .step(SyncEvent::Fetched(Ok(meta("digest", name))))
            .unwrap();
        match &action {
            SyncAction::Probe { file_name, digest_file_name } => {
                assert_eq!(file_name, name);
                assert_eq!(digest_file_name, &format!("{}.sha", name));
            }
            other => panic!("expected a probe, got {:?}", other),
        }
        action = machine
            .step(SyncEvent::Probed(copy_of(false, None)))
            .unwrap();
        match &action {
            SyncAction::Download { url } => {
                assert_eq!(url, &format!("https://raw.example/{}", name))
            }
            other => panic!("expected a download, got {:?}", other),
        }
        action = machine
            .step(SyncEvent::Downloaded(Ok(b"1 one\n".to_vec())))
            .unwrap();
        match &action {
            SyncAction::WriteFile { file_name, data } => {
                assert_eq!(file_name, name);
                assert_eq!(data, &b"1 one\n".to_vec());
            }
            other => panic!("expected a file write, got {:?}", other),
        }
        action = machine.step(SyncEvent::FileWritten(Ok(()))).unwrap();
        match &action {
            SyncAction::WriteDigest { digest_file_name, digest } => {
                assert_eq!(digest_file_name, &format!("{}.sha", name));
                assert_eq!(digest, "digest");
            }
            other => panic!("expected a digest write, got {:?}", other),
        }
        action = machine.step(SyncEvent::DigestWritten(Ok(()))).unwrap();
    }
    assert!(matches!(action, SyncAction::Finished));
    assert_eq!(machine.phase(), SyncPhase::Ended);
    assert!(machine.step(SyncEvent::Started).is_none());
}

#[test]
fn a_second_sync_against_unchanged_digests_downloads_nothing() {
    let mut machine = SyncMachine::new();
    let mut action = machine.step(SyncEvent::Started).unwrap();
    let mut fetches = 0;
    for name in ["hashes.binentries.txt", "hashes.game.txt.0", "hashes.game.txt.1"] {
        assert!(matches!(action, SyncAction::Fetch { .. }));
        fetches += 1;
        action = machine
            .step(SyncEvent::Fetched(Ok(meta("digest", name))))
            .unwrap();
        assert!(matches!(action, SyncAction::Probe { .. }));
        action = machine
            .step(SyncEvent::Probed(copy_of(true, Some("digest"))))
            .unwrap();
        assert!(!matches!(action, SyncAction::Download { .. }));
        assert!(!matches!(action, SyncAction::WriteFile { .. }));
        assert!(!matches!(action, SyncAction::WriteDigest { .. }));
    }
    assert_eq!(fetches, 3);
    assert!(matches!(action, SyncAction::Finished));
}

#[test]
fn only_the_stale_source_is_downloaded() {
    let mut machine = SyncMachine::new();
    machine.step(SyncEvent::Started).unwrap();
    machine
        .step(SyncEvent::Fetched(Ok(meta("d0", "hashes.binentries.txt"))))
        .unwrap();
    let action = machine
        .step(SyncEvent::Probed(copy_of(true, Some("d0"))))
        .unwrap();
    assert!(matches!(action, SyncAction::Fetch { .. }));
    machine
        .step(SyncEvent::Fetched(Ok(meta("d1-new", "hashes.game.txt.0"))))
        .unwrap();
    let action = machine
        .step(SyncEvent::Probed(copy_of(true, Some("d1-old"))))
        .unwrap();
    assert!(matches!(action, SyncAction::Download { .. }));
}

#[test]
fn what_a_sync_wrote_is_current_for_the_next_sync() {
    for digest in ["abc123", " abc", "abc\n", ""] {
        let mut first = SyncMachine::new();
        first.step(SyncEvent::Started).unwrap();
        first.step(SyncEvent::Fetched(Ok(meta(digest, "n")))).unwrap();
        first.step(SyncEvent::Probed(copy_of(false, None))).unwrap();
        first.step(SyncEvent::Downloaded(Ok(b"1 one".to_vec()))).unwrap();
        let written = match first.step(SyncEvent::FileWritten(Ok(()))).unwrap() {
            SyncAction::WriteDigest { digest, .. } => digest,
            other => panic!("expected a digest write, got {:?}", other),
        };
        assert_eq!(written, digest);
        let mut second = SyncMachine::new();
        second.step(SyncEvent::Started).unwrap();
        second.step(SyncEvent::Fetched(Ok(meta(digest, "n")))).unwrap();
        let action = second
            .step(SyncEvent::Probed(copy_of(true, Some(&written))))
            .unwrap();
        assert!(matches!(action, SyncAction::Fetch { .. }));
    }
}

#[test]
fn a_stale_digest_beside_a_present_file_is_downloaded() {
    let mut machine = SyncMachine::new();
    machine.step(SyncEvent::Started).unwrap();
    machine.step(SyncEvent::Fetched(Ok(meta("new", "n")))).unwrap();
    let action = machine
        .step(SyncEvent::Probed(copy_of(true, Some("new\n"))))
        .unwrap();
    assert!(matches!(action, SyncAction::Download { .. }));
}

#[test]
fn any_failure_ends_the_sync() {
    let mut machine = SyncMachine::new();
    machine.step(SyncEvent::Started).unwrap();
    let failure = fetch_outcome(Err("no route".to_string())).unwrap_err();
    match machine.step(SyncEvent::Fetched(Err(failure))).unwrap() {
        SyncAction::Failed(e) => {
            assert_eq!(e.message(), "Failed to fetch data from GitHub: no route")
        }
        other => panic!("expected a failure, got {:?}", other),
    }
    assert_eq!(machine.phase(), SyncPhase::Ended);
    assert!(machine.step(SyncEvent::Started).is_none());

    let mut machine = SyncMachine::new();
    machine.step(SyncEvent::Started).unwrap();
    machine.step(SyncEvent::Fetched(Ok(meta("d", "n")))).unwrap();
    machine.step(SyncEvent::Probed(copy_of(false, None))).unwrap();
    match machine
        .step(SyncEvent::Downloaded(Err("timed out".to_string())))
        .unwrap()
    {
        SyncAction::Failed(e) => assert_eq!(e.message(), "Failed to download file: timed out"),
        other => panic!("expected a failure, got {:?}", other),
    }

    let mut machine = SyncMachine::new();
    machine.step(SyncEvent::Started).unwrap();
    machine.step(SyncEvent::Fetched(Ok(meta("d", "n")))).unwrap();
    machine.step(SyncEvent::Probed(copy_of(false, None))).unwrap();
    machine.step(SyncEvent::Downloaded(Ok(Vec::new()))).unwrap();
    match machine
        .step(SyncEvent::FileWritten(Err("disk full".to_string())))
        .unwrap()
    {
        SyncAction::Failed(e) => assert_eq!(e.message(), "Failed to write file: disk full"),
        other => panic!("expected a failure, got {:?}", other),
    }

    let mut machine = SyncMachine::new();
    machine.step(SyncEvent::Started).unwrap();
    machine.step(SyncEvent::Fetched(Ok(meta("d", "n")))).unwrap();
    machine.step(SyncEvent::Probed(copy_of(false, None))).unwrap();
    machine.step(SyncEvent::Downloaded(Ok(Vec::new()))).unwrap();
    machine.step(SyncEvent::FileWritten(Ok(()))).unwrap();
    match machine
        .step(SyncEvent::DigestWritten(Err("disk full".to_string())))
        .unwrap()
    {
        SyncAction::Failed(e) => assert_eq!(e.message(), "Failed to write SHA file: disk full"),
        other => panic!("expected a failure, got {:?}", other),
    }
    assert_eq!(machine.phase(), SyncPhase::Ended);
}

#[test]
fn an_event_out_of_turn_changes_nothing() {
    let mut machine = SyncMachine::new();
    assert!(machine.step(SyncEvent::Probed(copy_of(true, None))).is_none());
    assert!(machine.step(SyncEvent::FileWritten(Ok(()))).is_none());
    assert_eq!(machine.phase(), SyncPhase::Idle);
    machine.step(SyncEvent::Started).unwrap();
    assert!(machine.step(SyncEvent::Started).is_none());
    assert!(machine.step(SyncEvent::Downloaded(Ok(Vec::new()))).is_none());
    assert_eq!(machine.phase(), SyncPhase::AwaitMeta);
    machine.step(SyncEvent::Fetched(Ok(meta("d", "n")))).unwrap();
    assert!(machine.step(SyncEvent::DigestWritten(Ok(()))).is_none());
    assert_eq!(machine.phase(), SyncPhase::AwaitProbe);
}
