use mailspool::Options;
use mailspool::endpoint::{
    create_failure_response, describe, gated, listing_failure_response, listing_response,
    logout_response, probe_response, read_error_response, read_response, stored_response,
    too_large_response,
};
use mailspool::gate::{authenticate, Credential};
use mailspool::ident::uuid_text;
use mailspool::listing::{collect_entries, render_listing};
use mailspool::spool_path::{is_safe_rel_path, percent_decode};
use mailspool::store::{
    on_open_result, on_write_result, plan_ingest, resolve_read_path, CreateAttempt, CreateError,
    CreateStep, IngestDecision, OpenOutcome, ReadError, ReadOutcome, WriteStep,
    DEFAULT_CREATE_ATTEMPTS,
};

#[test]
fn identifier_text_of_zero() {
    assert_eq!(uuid_text(0), "00000000-0000-0000-0000-000000000000");
}

#[test]
fn identifier_text_of_known_value() {
    assert_eq!(
        uuid_text(0x0123456789abcdef0123456789abcdefu128),
        "01234567-89ab-cdef-0123-456789abcdef"
    );
}

#[test]
fn identifier_text_of_max_value() {
    assert_eq!(
        uuid_text(u128::MAX),
        "ffffffff-ffff-ffff-ffff-ffffffffffff"
    );
}

#[test]
fn identifier_texts_are_distinct() {
    assert_ne!(uuid_text(1), uuid_text(2));
    assert_ne!(uuid_text(0), uuid_text(1 << 127));
}

#[test]
fn fresh_attempt_is_well_formed() {
    let a = CreateAttempt::begin(DEFAULT_CREATE_ATTEMPTS);
    let id = a.identifier.clone();
    assert_eq!(id.len(), 36);
    for (i, c) in id.chars().enumerate() {
        if i == 8 || i == 13 || i == 18 || i == 23 {
            assert_eq!(c, '-');
        } else {
            assert!(c.is_ascii_hexdigit() && !c.is_ascii_uppercase());
        }
    }
    assert_eq!(a.file_name(), format!("{}.json", id));
    assert_eq!(a.target_path("/var/spool"), format!("/var/spool/{}.json", id));
}

#[test]
fn create_then_read_resolve_same_path() {
    let a = CreateAttempt::from_bits(0xfeed_beef, 3);
    let target = a.target_path("/var/spool");
    let name = a.file_name();
    let resolved = resolve_read_path("/var/spool", &name);
    assert_eq!(resolved, Ok(target));
}

#[test]
fn distinct_bits_distinct_paths() {
    let a = CreateAttempt::from_bits(1, 3);
    let b = CreateAttempt::from_bits(2, 3);
    assert_ne!(a.target_path("/spool"), b.target_path("/spool"));
}

#[test]
fn collision_never_writes() {
    let a = CreateAttempt::from_bits(7, 3);
    match on_open_result(a, OpenOutcome::AlreadyExists) {
        CreateStep::Retry(next) => assert_eq!(next.attempts_left, 2),
        CreateStep::WritePayload(_) => panic!("a collision must never lead to a write"),
        CreateStep::Fail(_) => panic!("attempts were left; the store must retry"),
    }
}

#[test]
fn collision_exhaustion_is_reported() {
    let a = CreateAttempt::from_bits(7, 0);
    match on_open_result(a, OpenOutcome::AlreadyExists) {
        CreateStep::Fail(e) => assert_eq!(e, CreateError::CollisionExhausted),
        _ => panic!("no attempts were left; the store must give up"),
    }
}

#[test]
fn open_failures_are_classified() {
    let a = CreateAttempt::from_bits(7, 3);
    match on_open_result(a, OpenOutcome::DirectoryMissing) {
        CreateStep::Fail(e) => assert_eq!(e, CreateError::DirectoryUnavailable),
        _ => panic!("a missing directory must fail the create"),
    }
    let b = CreateAttempt::from_bits(8, 3);
    match on_open_result(b, OpenOutcome::OpenFailed) {
        CreateStep::Fail(e) => assert_eq!(e, CreateError::WriteFailure),
        _ => panic!("an open failure must fail the create"),
    }
}

#[test]
fn successful_open_writes_same_identifier() {
    let a = CreateAttempt::from_bits(9, 3);
    let id = a.identifier.clone();
    match on_open_result(a, OpenOutcome::Opened) {
        CreateStep::WritePayload(w) => assert_eq!(w.identifier, id),
        _ => panic!("a fresh file must be written"),
    }
}

#[test]
fn failed_write_removes_partial_file() {
    let a = CreateAttempt::from_bits(9, 3);
    match on_write_result(a, false) {
        WriteStep::RemoveAndFail(e) => assert_eq!(e, CreateError::WriteFailure),
        WriteStep::Done { .. } => panic!("a failed write must never report success"),
    }
}

#[test]
fn successful_write_reports_identifier() {
    let a = CreateAttempt::from_bits(9, 3);
    let id = a.identifier.clone();
    match on_write_result(a, true) {
        WriteStep::Done { identifier } => assert_eq!(identifier, id),
        WriteStep::RemoveAndFail(_) => panic!("the write succeeded"),
    }
}

#[test]
fn traversal_paths_are_rejected() {
    for p in [
        "..",
        "../etc/passwd",
        "a/../b",
        "sub/..",
        "/etc/passwd",
        "",
        "%2e%2e",
        "%2e%2e/x",
        "..%2fx",
        "%2E%2E%2Fetc",
        "a/%2e%2e/b",
    ] {
        assert_eq!(
            resolve_read_path("/spool", p),
            Err(ReadError::TraversalRejected),
            "path {:?} must be rejected",
            p
        );
    }
}

#[test]
fn plain_relative_paths_are_resolved() {
    assert_eq!(
        resolve_read_path("/spool", "abc.json"),
        Ok("/spool/abc.json".to_string())
    );
    assert_eq!(
        resolve_read_path("/spool", "sub/entry.json"),
        Ok("/spool/sub/entry.json".to_string())
    );
    assert_eq!(
        resolve_read_path("/spool", "a..b/..c/d.."),
        Ok("/spool/a..b/..c/d..".to_string())
    );
}

#[test]
fn percent_decoding_is_exact() {
    assert_eq!(percent_decode("a%20b"), Some("a b".to_string()));
    assert_eq!(percent_decode("plain"), Some("plain".to_string()));
    assert_eq!(percent_decode("%41%42"), Some("AB".to_string()));
    assert_eq!(percent_decode("%zz"), None);
    assert_eq!(percent_decode("%4"), None);
    assert_eq!(percent_decode("%"), None);
    assert_eq!(percent_decode("%ff"), None);
}

#[test]
fn safe_path_check_is_exact() {
    assert!(is_safe_rel_path("a.json"));
    assert!(is_safe_rel_path("a/b/c"));
    assert!(!is_safe_rel_path(""));
    assert!(!is_safe_rel_path("/a"));
    assert!(!is_safe_rel_path(".."));
    assert!(!is_safe_rel_path("x/../y"));
    assert!(is_safe_rel_path("..x"));
    assert!(is_safe_rel_path("x.."));
}

#[test]
fn listing_skips_unresolved_entries() {
    let raw = vec![
        Some("a.json".to_string()),
        None,
        Some("b.json".to_string()),
    ];
    let entries = collect_entries(&raw);
    assert_eq!(entries, vec!["a.json".to_string(), "b.json".to_string()]);
}

#[test]
fn listing_renders_exactly_its_entries() {
    let entries = vec!["a.json".to_string(), "b.json".to_string()];
    let html = render_listing("/mails", &entries);
    assert_eq!(
        html,
        "<h1>Mails</h1><ul><li><a href=/mails/a.json>a.json</a></li>\n\
         <li><a href=/mails/b.json>b.json</a></li></ul>"
    );
}

#[test]
fn empty_listing_renders_empty_list() {
    let entries: Vec<String> = vec![];
    assert_eq!(render_listing("/mails", &entries), "<h1>Mails</h1><ul></ul>");
}

fn cred(user: &str, secret: Option<&str>) -> Credential {
    Credential {
        user: user.to_string(),
        secret: secret.map(|s| s.to_string()),
    }
}

#[test]
fn gate_allows_everything_without_expectation() {
    assert!(authenticate(&None, &None));
    assert!(authenticate(&Some(cred("anyone", None)), &None));
}

#[test]
fn gate_denies_missing_or_wrong_credentials() {
    let expected = Some(cred("alice", Some("opensesame")));
    assert!(!authenticate(&None, &expected));
    assert!(!authenticate(&Some(cred("alice", None)), &expected));
    assert!(!authenticate(&Some(cred("bob", Some("opensesame"))), &expected));
    assert!(!authenticate(&Some(cred("alice", Some("wrong"))), &expected));
    assert!(authenticate(
        &Some(cred("alice", Some("opensesame"))),
        &expected
    ));
}

#[test]
fn denied_requests_get_unauthorized() {
    let inner = stored_response();
    let r = gated(false, inner);
    assert_eq!(r.status, 401);
    let inner = stored_response();
    let r = gated(true, inner);
    assert_eq!(r.status, 200);
    assert_eq!(r.body, "Thanks!\n");
}

#[test]
fn logout_always_denies() {
    let r = logout_response();
    assert_eq!(r.status, 401);
    assert_eq!(r.body, "kthxbye");
}

#[test]
fn oversized_body_is_rejected_before_storage() {
    match plan_ingest(11, 10, 3) {
        IngestDecision::TooLarge => {}
        IngestDecision::Accept(_) => panic!("an oversized body must never reach the store"),
    }
    match plan_ingest(10, 10, 3) {
        IngestDecision::Accept(a) => assert_eq!(a.attempts_left, 3),
        IngestDecision::TooLarge => panic!("a body at the ceiling is admitted"),
    }
    assert_eq!(too_large_response().status, 413);
}

#[test]
fn read_failures_are_classified() {
    assert_eq!(read_error_response(ReadError::NotFound).status, 404);
    assert_eq!(read_error_response(ReadError::TraversalRejected).status, 404);
    assert_eq!(read_error_response(ReadError::ReadFailure).status, 500);
    let r = read_response(ReadOutcome::Missing);
    assert_eq!(r.status, 404);
    let r = read_response(ReadOutcome::Failed);
    assert_eq!(r.status, 500);
}

#[test]
fn create_failures_answer_with_generic_error() {
    for e in [
        CreateError::DirectoryUnavailable,
        CreateError::CollisionExhausted,
        CreateError::WriteFailure,
    ] {
        let r = create_failure_response(e);
        assert_eq!(r.status, 500);
        assert_eq!(r.body, "Sorry");
    }
    assert_eq!(listing_failure_response().status, 500);
}

#[test]
fn probe_reports_description_and_version() {
    let d = describe("mailspool", "1.2.3");
    assert_eq!(d, "mailspool 1.2.3");
    let r = probe_response(&d);
    assert_eq!(r.status, 200);
    assert_eq!(r.body, "mailspool 1.2.3\n");
    assert_eq!(r.server_version, Some("mailspool 1.2.3".to_string()));
}

#[test]
fn default_options() {
    let o = Options::new_default();
    assert_eq!(o.spool_dir, "/tmp");
    assert_eq!(o.port, 8080);
}

#[test]
fn end_to_end_store_list_and_read_back() {
    let spool_dir = "/tmp/spool";
    let mut files: Vec<(String, Vec<u8>)> = Vec::new();
    let body = b"abc".to_vec();

    let attempt = match plan_ingest(body.len(), 50 * 1024 * 1024, 3) {
        IngestDecision::Accept(a) => a,
        IngestDecision::TooLarge => panic!("a three-byte body is admitted"),
    };
    let name = attempt.file_name();
    assert!(files.iter().all(|(n, _)| *n != name));

    let attempt = match on_open_result(attempt, OpenOutcome::Opened) {
        CreateStep::WritePayload(a) => a,
        _ => panic!("a fresh file must be written"),
    };
    files.push((attempt.file_name(), body.clone()));
    let id = match on_write_result(attempt, true) {
        WriteStep::Done { identifier } => identifier,
        WriteStep::RemoveAndFail(_) => panic!("the write succeeded"),
    };

    let raw: Vec<Option<String>> = files.iter().map(|(n, _)| Some(n.clone())).collect();
    let entries = collect_entries(&raw);
    assert_eq!(entries.len(), 1);
    assert_eq!(entries[0], format!("{}.json", id));
    let html = render_listing("/mails", &entries);
    assert!(html.contains(&format!("<li><a href=/mails/{}.json>{}.json</a></li>", id, id)));

    let full = resolve_read_path(spool_dir, &entries[0]).unwrap();
    assert_eq!(full, format!("{}/{}.json", spool_dir, id));
    let stored = files
        .iter()
        .find(|(n, _)| format!("{}/{}", spool_dir, n) == full)
        .map(|(_, b)| b.clone())
        .unwrap();
    assert_eq!(stored, b"abc".to_vec());

    let r = read_response(ReadOutcome::Content(String::from_utf8(stored).unwrap()));
    assert_eq!(r.status, 200);
    assert!(r.json);
    assert_eq!(r.body, "abc");

    assert_eq!(listing_response(html).status, 200);
}
