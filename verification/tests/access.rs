use axum::http::{HeaderMap, HeaderValue};
use streaming_asr_server::auth::verify_token;
use streaming_asr_server::session::{admission, decide_admission, Admission, SessionManager};

fn headers(pairs: &[(&'static str, &[u8])]) -> HeaderMap {
    let mut h = HeaderMap::new();
    for (name, value) in pairs {
        h.append(*name, HeaderValue::from_bytes(value).unwrap());
    }
    h
}

#[test]
fn bearer_token_accepted() {
    assert!(verify_token(&headers(&[("authorization", b"Bearer s3cret")]), "s3cret"));
}

#[test]
fn bearer_token_mismatch_rejected_even_with_good_x_token() {
    let h = headers(&[("authorization", b"Bearer wrong"), ("x-asr-token", b"s3cret")]);
    assert!(!verify_token(&h, "s3cret"));
}

#[test]
fn x_asr_token_accepted() {
    assert!(verify_token(&headers(&[("x-asr-token", b"s3cret")]), "s3cret"));
    assert!(!verify_token(&headers(&[("x-asr-token", b"other")]), "s3cret"));
}

#[test]
fn non_bearer_authorization_falls_back_to_x_token() {
    let h = headers(&[("authorization", b"Basic abc"), ("x-asr-token", b"s3cret")]);
    assert!(verify_token(&h, "s3cret"));
    assert!(!verify_token(&headers(&[("authorization", b"Basic abc")]), "s3cret"));
}

#[test]
fn header_names_are_case_insensitive() {
    let mut h = HeaderMap::new();
    h.insert("Authorization", HeaderValue::from_static("Bearer s3cret"));
    assert!(verify_token(&h, "s3cret"));
}

#[test]
fn opaque_header_value_is_ignored() {
    let h = headers(&[("authorization", b"Bearer s3cr\xe9t"), ("x-asr-token", b"s3cret")]);
    assert!(verify_token(&h, "s3cret"));
}

#[test]
fn first_value_counts() {
    let h = headers(&[("x-asr-token", b"s3cret"), ("x-asr-token", b"other")]);
    assert!(verify_token(&h, "s3cret"));
}

#[test]
fn no_token_rejected() {
    assert!(!verify_token(&HeaderMap::new(), "s3cret"));
    assert!(!verify_token(&headers(&[("authorization", b"Bearer ")]), "s3cret"));
}

fn status(a: &Admission) -> Option<u16> {
    match a {
        Admission::Rejected { status, .. } => Some(*status),
        Admission::Accepted(_) => None,
    }
}

#[test]
fn admission_without_token_takes_slots() {
    let sessions = SessionManager::new(1);
    let first = admission(&None, &HeaderMap::new(), &sessions);
    assert_eq!(status(&first), None);
    let second = admission(&None, &HeaderMap::new(), &sessions);
    match &second {
        Admission::Rejected { status, body } => {
            assert_eq!(*status, 503);
            assert_eq!(body.code, "overload");
            assert!(body.retry);
        }
        _ => panic!("expected busy"),
    }
    drop(first);
    assert_eq!(status(&admission(&None, &HeaderMap::new(), &sessions)), None);
}

#[test]
fn admission_refuses_bad_token_without_taking_a_slot() {
    let sessions = SessionManager::new(1);
    let token = Some("s3cret".to_string());
    let refused = admission(&token, &headers(&[("x-asr-token", b"nope")]), &sessions);
    match &refused {
        Admission::Rejected { status, body } => {
            assert_eq!(*status, 401);
            assert_eq!(body.code, "auth");
            assert!(body.fatal);
        }
        _ => panic!("expected unauthorized"),
    }
    let ok = admission(&token, &headers(&[("x-asr-token", b"s3cret")]), &sessions);
    assert_eq!(status(&ok), None);
}

#[test]
fn session_manager_with_no_slots() {
    let sessions = SessionManager::new(0);
    assert!(sessions.try_acquire().is_none());
    let two = SessionManager::new(2);
    let a = two.try_acquire();
    let b = two.try_acquire();
    assert!(a.is_some() && b.is_some());
    assert!(two.try_acquire().is_none());
}

#[test]
fn decide_admission_outcomes() {
    let sessions = SessionManager::new(1);
    match decide_admission(false, sessions.try_acquire()) {
        Admission::Rejected { status, body } => {
            assert_eq!(status, 401);
            assert_eq!(body.message, "Unauthorized");
        }
        _ => panic!("expected unauthorized"),
    }
    let slot = sessions.try_acquire();
    assert!(slot.is_some());
    assert!(matches!(decide_admission(true, slot), Admission::Accepted(_)));
    match decide_admission(true, None) {
        Admission::Rejected { status, body } => {
            assert_eq!(status, 503);
            assert_eq!(body.message, "All ASR slots occupied");
        }
        _ => panic!("expected busy"),
    }
}
