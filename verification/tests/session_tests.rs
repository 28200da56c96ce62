use base64::engine::general_purpose::STANDARD;
use base64::Engine;
use galena::session::{
    client_id_for, decide_session, establish_session, identify_connection, session_id_from_bytes,
    SessionDecision, SESSION_BYTES, SESSION_ID_LEN,
};

#[test]
fn session_id_is_base64_of_the_bytes() {
    assert_eq!(SESSION_BYTES, 16);
    assert_eq!(SESSION_ID_LEN, 24);
    assert_eq!(session_id_from_bytes(&[0u8; 16]), "AAAAAAAAAAAAAAAAAAAAAA==");
    assert_eq!(session_id_from_bytes(&[255u8; 16]), "/////////////////////w==");
    let bytes: Vec<u8> = (0u8..16).collect();
    assert_eq!(session_id_from_bytes(&bytes), "AAECAwQFBgcICQoLDA0ODw==");
}

#[test]
fn client_id_is_base64_of_the_address() {
    assert_eq!(client_id_for("127.0.0.1:8080"), "MTI3LjAuMC4xOjgwODA=");
    assert_eq!(client_id_for("[::1]:3000"), "Wzo6MV06MzAwMA==");
    assert_eq!(client_id_for(""), "");
}

#[test]
fn presented_cookie_is_kept() {
    let decision = decide_session(Some("abc".to_string()), &[7u8; 16]);
    assert_eq!(decision, SessionDecision { session_id: "abc".to_string(), set_cookie: false });
}

#[test]
fn missing_cookie_is_minted_from_the_bytes() {
    let decision = decide_session(None, &[0u8; 16]);
    assert_eq!(
        decision,
        SessionDecision { session_id: "AAAAAAAAAAAAAAAAAAAAAA==".to_string(), set_cookie: true }
    );
}

#[test]
fn first_contact_sets_a_cookie_that_persists() {
    let first = establish_session(None);
    assert!(first.set_cookie);
    assert_eq!(first.session_id.len(), 24);
    let decoded = STANDARD.decode(first.session_id.as_bytes()).unwrap();
    assert_eq!(decoded.len(), 16);

    let second = establish_session(Some(first.session_id.clone()));
    assert!(!second.set_cookie);
    assert_eq!(second.session_id, first.session_id);

    let third = establish_session(Some(second.session_id.clone()));
    assert_eq!(third.session_id, first.session_id);
    assert!(!third.set_cookie);
}

#[test]
fn minted_sessions_differ() {
    let a = establish_session(None);
    let b = establish_session(None);
    let c = establish_session(None);
    assert!(a.session_id != b.session_id || b.session_id != c.session_id);
}

#[test]
fn identity_of_a_new_connection() {
    let identity = identify_connection(None, "10.0.0.5:51234");
    assert!(identity.set_cookie);
    assert_eq!(identity.session_id.len(), 24);
    assert_eq!(identity.client_id, STANDARD.encode("10.0.0.5:51234"));
}

#[test]
fn identity_of_a_returning_connection() {
    let identity = identify_connection(Some("c2Vzc2lvbg==".to_string()), "10.0.0.5:51234");
    assert!(!identity.set_cookie);
    assert_eq!(identity.session_id, "c2Vzc2lvbg==");
    assert_eq!(identity.client_id, "MTAuMC4wLjU6NTEyMzQ=");
}
