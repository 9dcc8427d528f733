use pl_core::ident::{image_id, session_id};
use pl_core::session::{open_session, pair};

fn is_version_4_text(text: &str) -> bool {
    match uuid::Uuid::parse_str(text) {
        Ok(parsed) => parsed.get_version_num() == 4 && parsed.to_string() == text,
        Err(_) => false,
    }
}

#[test]
fn pairing_accepts_any_token() {
    for token in ["anything", "", " ", "\u{0}", "s-00000000-0000-4000-8000-000000000000"] {
        let session = pair(token);
        assert!(!session.session_id.is_empty());
        assert_eq!(session.session_id.len(), 38);
        assert!(session.session_id.starts_with("s-"));
        assert!(is_version_4_text(&session.session_id[2..]));
    }
}

#[test]
fn pairing_twice_gives_two_sessions() {
    let first = pair("same");
    let second = pair("same");
    assert_ne!(first.session_id, second.session_id);
}

#[test]
fn the_token_has_no_part_in_the_session() {
    let session = pair("very-secret-token");
    assert!(!session.session_id.contains("very-secret-token"));
}

#[test]
fn a_session_is_named_after_its_nonce() {
    assert_eq!(open_session("abc").session_id, "s-abc");
    assert_eq!(open_session("").session_id, "s-");
}

#[test]
fn identifiers_are_prefix_and_nonce() {
    assert_eq!(image_id("abc"), "img-abc");
    assert_eq!(image_id(""), "img-");
    assert_eq!(session_id("abc"), "s-abc");
}

#[test]
fn the_nonce_of_a_session_is_a_hyphenated_lower_case_uuid() {
    let session = pair("token");
    let nonce = &session.session_id[2..];
    assert_eq!(nonce.len(), 36);
    for (i, c) in nonce.chars().enumerate() {
        if i == 8 || i == 13 || i == 18 || i == 23 {
            assert_eq!(c, '-');
        } else {
            assert!(c.is_ascii_digit() || ('a'..='f').contains(&c));
        }
    }
    assert_eq!(nonce.as_bytes()[14], b'4');
    assert!(matches!(nonce.as_bytes()[19], b'8' | b'9' | b'a' | b'b'));
    assert!(is_version_4_text(nonce));
}
