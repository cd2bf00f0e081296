use link_shortener::code::{code_from_indices, generate_candidate};
use link_shortener::error::{internal_error, ShortenError};
use link_shortener::flow::{
    after_candidate_check, custom_availability, insert_outcome, redirect_outcome, short_url,
    AllocDecision, RedirectOutcome,
};
use link_shortener::link::{Link, LinkTable, StoreError};
use link_shortener::service::{allocate_code, resolve, shorten, validate_and_check_custom};
use link_shortener::session::{ShortenSession, ShortenStep};
use link_shortener::validate::{check_custom_shape, starts_with, validate_url};

const BASE: &str = "http://localhost:3000";

fn is_alnum(s: &str) -> bool {
    s.chars().all(|c| c.is_ascii_alphanumeric())
}

fn clicks(table: &LinkTable, code: &str) -> i32 {
    table.get_link_by_code(code).unwrap().click_count
}

#[test]
fn generated_code_redirects_to_original() {
    let mut table = LinkTable::new();
    let resp = shorten(&mut table, BASE, "https://example.com", None).unwrap();
    assert_eq!(resp.short_code.chars().count(), 6);
    assert!(is_alnum(&resp.short_code));
    assert_eq!(resp.original_url, "https://example.com");
    assert_eq!(resp.short_url, format!("{}/{}", BASE, resp.short_code));
    assert_eq!(resolve(&mut table, &resp.short_code), Some("https://example.com".to_string()));
}

#[test]
fn ftp_url_is_rejected() {
    let mut table = LinkTable::new();
    let err = shorten(&mut table, BASE, "ftp://x.com", None).unwrap_err();
    assert_eq!(err, ShortenError::InvalidUrl);
    assert_eq!(err.status(), 400);
    assert!(err.message().contains("scheme"));
    assert_eq!(table.get_stats().total_links, 0);
}

#[test]
fn short_custom_code_is_rejected() {
    let mut table = LinkTable::new();
    let err = shorten(&mut table, BASE, "https://a.com", Some("ab")).unwrap_err();
    assert_eq!(err, ShortenError::CodeTooShortOrLong);
    assert_eq!(err.status(), 400);
    assert!(err.message().contains("length"));
    assert_eq!(table.get_stats().total_links, 0);
}

#[test]
fn duplicate_custom_code_conflicts() {
    let mut table = LinkTable::new();
    let first = shorten(&mut table, BASE, "https://a.com", Some("dup1")).unwrap();
    assert_eq!(first.short_code, "dup1");
    let err = shorten(&mut table, BASE, "https://b.com", Some("dup1")).unwrap_err();
    assert_eq!(err, ShortenError::CodeAlreadyExists);
    assert_eq!(err.status(), 409);
    let all = table.get_all_links();
    assert_eq!(all.iter().filter(|l| l.short_code == "dup1").count(), 1);
    assert_eq!(resolve(&mut table, "dup1"), Some("https://a.com".to_string()));
}

#[test]
fn valid_custom_code_is_kept_verbatim() {
    let mut table = LinkTable::new();
    for code in ["abc", "Abc123", "ZZZZZZZZZ9"] {
        let resp = shorten(&mut table, BASE, "http://example.org/page", Some(code)).unwrap();
        assert_eq!(resp.short_code, code);
        assert_eq!(resp.short_url, format!("http://localhost:3000/{}", code));
    }
    assert_eq!(table.get_stats().total_links, 3);
}

#[test]
fn malformed_custom_codes_leave_store_untouched() {
    let mut table = LinkTable::new();
    shorten(&mut table, BASE, "https://keep.com", Some("keep")).unwrap();
    let cases = [
        ("", ShortenError::CodeTooShortOrLong),
        ("abcdefghijk", ShortenError::CodeTooShortOrLong),
        ("ab-c", ShortenError::CodeNotAlphanumeric),
        ("héllo", ShortenError::CodeNotAlphanumeric),
        ("a b c", ShortenError::CodeNotAlphanumeric),
    ];
    for (code, expected) in cases {
        let err = shorten(&mut table, BASE, "https://a.com", Some(code)).unwrap_err();
        assert_eq!(err, expected);
        assert_eq!(err.status(), 400);
    }
    assert_eq!(table.get_stats().total_links, 1);
}

#[test]
fn shape_is_checked_before_existence() {
    let mut table = LinkTable::new();
    assert_eq!(check_custom_shape("ab"), Err(ShortenError::CodeTooShortOrLong));
    assert_eq!(validate_and_check_custom("ab", &table).unwrap_err(), ShortenError::CodeTooShortOrLong);
    table.create_link("taken", "https://a.com").unwrap();
    assert_eq!(validate_and_check_custom("taken", &table).unwrap_err(), ShortenError::CodeAlreadyExists);
    assert_eq!(validate_and_check_custom("free1", &table).unwrap(), "free1");
}

#[test]
fn unknown_code_is_not_found() {
    let mut table = LinkTable::new();
    shorten(&mut table, BASE, "https://a.com", Some("known")).unwrap();
    assert_eq!(resolve(&mut table, "unknown"), None);
    assert_eq!(clicks(&table, "known"), 0);
    assert_eq!(table.get_stats().total_clicks, 0);
}

#[test]
fn redirects_count_clicks() {
    let mut table = LinkTable::new();
    shorten(&mut table, BASE, "https://a.com", Some("hits")).unwrap();
    shorten(&mut table, BASE, "https://b.com", Some("other")).unwrap();
    for n in 1..=5 {
        assert_eq!(resolve(&mut table, "hits"), Some("https://a.com".to_string()));
        assert_eq!(clicks(&table, "hits"), n);
    }
    assert_eq!(clicks(&table, "other"), 0);
    let stats = table.get_stats();
    assert_eq!(stats.total_links, 2);
    assert_eq!(stats.total_clicks, 5);
}

#[test]
fn racing_custom_creations_conflict() {
    let mut table = LinkTable::new();
    assert_eq!(check_custom_shape("race1"), Ok(()));
    let seen_by_first = table.short_code_exists("race1");
    let seen_by_second = table.short_code_exists("race1");
    assert_eq!(custom_availability(seen_by_first), Ok(()));
    assert_eq!(custom_availability(seen_by_second), Ok(()));
    let first = insert_outcome(table.create_link("race1", "https://one.com"));
    let second = insert_outcome(table.create_link("race1", "https://two.com"));
    assert_eq!(first, Ok(1));
    assert_eq!(second, Err(ShortenError::CodeConflict));
    assert_eq!(second.unwrap_err().status(), 409);
    let all = table.get_all_links();
    assert_eq!(all.iter().filter(|l| l.short_code == "race1").count(), 1);
    assert_eq!(all[0].original_url, "https://one.com");
}

#[test]
fn registry_lists_newest_first_and_deletes() {
    let mut table = LinkTable::new();
    assert_eq!(table.create_link("one", "https://1.com"), Ok(1));
    assert_eq!(table.create_link("two", "https://2.com"), Ok(2));
    assert_eq!(table.create_link("three", "https://3.com"), Ok(3));
    assert_eq!(table.create_link("two", "https://x.com"), Err(StoreError::DuplicateCode));
    let codes: Vec<String> = table.get_all_links().into_iter().map(|l| l.short_code).collect();
    assert_eq!(codes, vec!["three", "two", "one"]);
    assert!(table.short_code_exists("two"));
    assert_eq!(table.delete_link("two"), 1);
    assert_eq!(table.delete_link("two"), 0);
    assert!(!table.short_code_exists("two"));
    assert!(table.get_link_by_code("two").is_none());
    let link = table.get_link_by_code("three").unwrap();
    assert_eq!(link.id, 3);
    assert_eq!(link.original_url, "https://3.com");
    assert_eq!(table.create_link("four", "https://4.com"), Ok(4));
    table.increment_clicks("missing");
    assert_eq!(table.get_stats().total_links, 3);
}

#[test]
fn empty_store_stats_are_zero() {
    let table = LinkTable::new();
    let stats = table.get_stats();
    assert_eq!(stats.total_links, 0);
    assert_eq!(stats.total_clicks, 0);
    assert!(table.get_all_links().is_empty());
}

#[test]
fn candidates_have_requested_length() {
    for len in [0usize, 1, 6, 8, 32] {
        let c = generate_candidate(len);
        assert_eq!(c.chars().count(), len);
        assert!(is_alnum(&c));
    }
    let table = LinkTable::new();
    let code = allocate_code(&table);
    // An empty store cannot make a candidate collide, so no fallback happens.
    assert_eq!(code.len(), 6);
    assert!(is_alnum(&code));
}

#[test]
fn indices_spell_alphabet() {
    assert_eq!(code_from_indices(&vec![0, 25, 26, 51, 52, 61]), "AZaz09");
    assert_eq!(code_from_indices(&vec![]), "");
}

#[test]
fn allocation_policy_steps() {
    assert_eq!(after_candidate_check(0, false), AllocDecision::Accept);
    assert_eq!(after_candidate_check(0, true), AllocDecision::Retry);
    assert_eq!(after_candidate_check(8, true), AllocDecision::Retry);
    assert_eq!(after_candidate_check(9, true), AllocDecision::Fallback);
    assert_eq!(after_candidate_check(9, false), AllocDecision::Accept);
}

#[test]
fn url_validation() {
    assert_eq!(validate_url("http://a.com"), Ok(()));
    assert_eq!(validate_url("https://a.com"), Ok(()));
    assert_eq!(validate_url("https:/a.com"), Err(ShortenError::InvalidUrl));
    assert_eq!(validate_url(""), Err(ShortenError::InvalidUrl));
    assert_eq!(validate_url("   "), Err(ShortenError::InvalidUrl));
    assert_eq!(validate_url("HTTP://a.com"), Err(ShortenError::InvalidUrl));
    assert!(starts_with("abc", "ab"));
    assert!(!starts_with("ab", "abc"));
}

#[test]
fn error_statuses_and_messages() {
    assert_eq!(ShortenError::CodeNotAlphanumeric.status(), 400);
    assert_eq!(ShortenError::CodeConflict.status(), 409);
    assert_eq!(ShortenError::GenerationExhausted.status(), 500);
    assert_eq!(ShortenError::Store.status(), 500);
    assert_eq!(ShortenError::Store.message(), "internal server error");
    assert_eq!(insert_outcome(Err(StoreError::Unavailable)), Err(ShortenError::Store));
    assert_eq!(custom_availability(true), Err(ShortenError::CodeAlreadyExists));
    let (status, body) = internal_error("connection refused: db.internal:5432");
    assert_eq!(status, 500);
    assert_eq!(body, "internal server error");
}

#[test]
fn redirect_outcomes() {
    let link = Link {
        id: 7,
        short_code: "abc".to_string(),
        original_url: "https://a.com".to_string(),
        click_count: 0,
    };
    match redirect_outcome(Ok(Some(link))) {
        RedirectOutcome::Redirect(u) => assert_eq!(u, "https://a.com"),
        other => panic!("unexpected {:?}", other),
    }
    assert_eq!(redirect_outcome(Ok(None)).status(), 404);
    assert_eq!(redirect_outcome(Err(StoreError::Unavailable)).status(), 500);
    assert_eq!(RedirectOutcome::Redirect("x".to_string()).status(), 301);
    assert_eq!(short_url("https://s.io", "Ab3"), "https://s.io/Ab3");
}

fn drive(table: &mut LinkTable, url: &str, custom: Option<&str>) -> Result<link_shortener::flow::ShortenResponse, ShortenError> {
    let (mut session, mut step) = ShortenSession::start(BASE, url, custom);
    loop {
        step = match step {
            ShortenStep::CheckExists(code) => session.on_exists(table.short_code_exists(&code)),
            ShortenStep::Insert(code) => {
                let url = session.url.clone();
                session.on_insert(table.create_link(&code, &url))
            }
            ShortenStep::Finish(r) => return r,
        };
    }
}

#[test]
fn session_creates_generated_and_custom_codes() {
    let mut table = LinkTable::new();
    let generated = drive(&mut table, "https://example.com", None).unwrap();
    assert_eq!(generated.short_code.len(), 6);
    assert!(is_alnum(&generated.short_code));
    assert_eq!(generated.short_url, format!("{}/{}", BASE, generated.short_code));
    let custom = drive(&mut table, "https://a.com", Some("dup1")).unwrap();
    assert_eq!(custom.short_code, "dup1");
    assert_eq!(drive(&mut table, "https://b.com", Some("dup1")).unwrap_err(), ShortenError::CodeAlreadyExists);
    assert_eq!(drive(&mut table, "ftp://x.com", None).unwrap_err(), ShortenError::InvalidUrl);
    assert_eq!(drive(&mut table, "https://a.com", Some("ab")).unwrap_err(), ShortenError::CodeTooShortOrLong);
    assert_eq!(table.get_stats().total_links, 2);
}

#[test]
fn session_steps_follow_allocation_policy() {
    let (mut session, step) = ShortenSession::start(BASE, "https://a.com", None);
    let first = match step {
        ShortenStep::CheckExists(code) => code,
        other => panic!("unexpected {:?}", other),
    };
    assert_eq!(first.len(), 6);
    for attempt in 1..10 {
        match session.on_exists(true) {
            ShortenStep::CheckExists(code) => assert_eq!(code.len(), 6),
            other => panic!("unexpected {:?}", other),
        }
        assert_eq!(session.attempt, attempt);
    }
    let fallback = match session.on_exists(true) {
        ShortenStep::Insert(code) => code,
        other => panic!("unexpected {:?}", other),
    };
    assert_eq!(fallback.len(), 8);
    assert!(is_alnum(&fallback));
    match session.on_insert(Err(StoreError::DuplicateCode)) {
        ShortenStep::Finish(Err(e)) => assert_eq!(e, ShortenError::CodeConflict),
        other => panic!("unexpected {:?}", other),
    }
}

#[test]
fn session_custom_code_conflicts_on_race() {
    let (mut session, step) = ShortenSession::start(BASE, "https://a.com", Some("race2"));
    assert!(matches!(step, ShortenStep::CheckExists(ref c) if c == "race2"));
    assert!(matches!(session.on_exists(false), ShortenStep::Insert(ref c) if c == "race2"));
    match session.on_insert(Err(StoreError::DuplicateCode)) {
        ShortenStep::Finish(Err(e)) => assert_eq!(e.status(), 409),
        other => panic!("unexpected {:?}", other),
    }
}
