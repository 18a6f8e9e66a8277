use user_auth::models::user::session_key;
use user_auth::token::{access_token, fresh_token, token_of, TOKEN_BYTES};
use user_auth::useragent::{read_agent, settle_labels, UNKNOWN};

#[test]
fn a_token_is_the_text_of_48_bytes() {
    let token = fresh_token();
    assert_eq!(token.len(), 64);
    let bytes = base64::decode_config(&token, base64::URL_SAFE).expect("URL-safe base64");
    assert_eq!(bytes.len(), TOKEN_BYTES);
    assert!(token.chars().all(|c| c.is_ascii_alphanumeric() || c == '-' || c == '_'));
}

#[test]
fn token_of_known_bytes() {
    let zeros = [0u8; 48];
    assert_eq!(token_of(&zeros), "A".repeat(64));
    let ones = [255u8; 48];
    assert_eq!(token_of(&ones), "_".repeat(64));
    let mut mixed = [0u8; 48];
    mixed[0] = 0xfb;
    mixed[1] = 0xef;
    mixed[2] = 0xbe;
    let token = token_of(&mixed);
    assert!(token.starts_with("----"));
    assert_ne!(token_of(&mixed), token_of(&zeros));
}

#[test]
fn different_bytes_give_different_tokens() {
    let mut seen = std::collections::HashSet::new();
    for at in 0..48 {
        for bit in 0..8 {
            let mut bytes = [0u8; 48];
            bytes[at] = 1 << bit;
            let token = token_of(&bytes);
            assert_eq!(token.len(), 64);
            assert_eq!(
                base64::decode_config(&token, base64::URL_SAFE).expect("URL-safe base64"),
                bytes.to_vec()
            );
            assert!(seen.insert(token));
        }
    }
    assert!(seen.insert(token_of(&[0u8; 48])));
}

#[test]
fn tokens_do_not_repeat() {
    let mut seen = std::collections::HashSet::new();
    for _ in 0..200 {
        assert!(seen.insert(fresh_token()));
    }
    assert_eq!(seen.len(), 200);
}

#[test]
fn an_access_token_has_three_parts_and_verifies() {
    let claims = r#"{"id":"x","exp":4102444800}"#;
    let token = access_token(claims, "signing secret").expect("the claims are JSON");
    let parts: Vec<&str> = token.split('.').collect();
    assert_eq!(parts.len(), 3);
    let header = base64::decode_config(parts[0], base64::URL_SAFE_NO_PAD).expect("base64");
    assert_eq!(String::from_utf8(header).expect("text"), r#"{"typ":"JWT","alg":"HS256"}"#);
    let payload = base64::decode_config(parts[1], base64::URL_SAFE_NO_PAD).expect("base64");
    assert_eq!(String::from_utf8(payload).expect("text"), claims);
    let key = jsonwebtoken::DecodingKey::from_secret(b"signing secret");
    let validation = jsonwebtoken::Validation::new(jsonwebtoken::Algorithm::HS256);
    let decoded = jsonwebtoken::decode::<serde_json::Value>(&token, &key, &validation)
        .expect("the signature holds");
    assert_eq!(decoded.claims["id"], "x");
    let wrong = jsonwebtoken::DecodingKey::from_secret(b"another secret");
    assert!(jsonwebtoken::decode::<serde_json::Value>(&token, &wrong, &validation).is_err());
}

#[test]
fn an_access_token_depends_on_claims_and_secret() {
    let one = access_token(r#"{"exp":1}"#, "signing secret").expect("JSON");
    let same = access_token(r#"{"exp":1}"#, "signing secret").expect("JSON");
    let other_claims = access_token(r#"{"exp":2}"#, "signing secret").expect("JSON");
    let other_secret = access_token(r#"{"exp":1}"#, "another secret").expect("JSON");
    assert_eq!(one, same);
    assert_ne!(one, other_claims);
    assert_ne!(one, other_secret);
}

#[test]
fn what_is_no_json_is_not_signed() {
    assert_eq!(access_token("{not json", "signing secret"), None);
}

#[test]
fn uuid_text_is_hyphenated_lower_case() {
    assert_eq!(
        session_key(0xA1A2A3A4B1B2C1C2D1D2D3D4D5D6D7D8u128),
        "sessions:a1a2a3a4-b1b2-c1c2-d1d2-d3d4d5d6d7d8"
    );
    assert_eq!(session_key(0), "sessions:00000000-0000-0000-0000-000000000000");
    assert_eq!(
        session_key(u128::MAX),
        format!("sessions:{}", uuid::Uuid::from_u128(u128::MAX))
    );
}

#[test]
fn a_browser_is_read_out_of_its_user_agent() {
    let (os, browser) = read_agent(
        "Mozilla/5.0 (Windows NT 10.0; Win64; x64) AppleWebKit/537.36 (KHTML, like Gecko) Chrome/74.0.3729.48 Safari/537.36",
    );
    assert_eq!(os, "Windows 10");
    assert_eq!(browser, "browser");
    let (os, browser) = read_agent(
        "Mozilla/5.0 (X11; Linux x86_64; rv:109.0) Gecko/20100101 Firefox/115.0",
    );
    assert_eq!(os, "Linux");
    assert_eq!(browser, "browser");
}

#[test]
fn an_unreadable_user_agent_is_unknown() {
    let (os, browser) = read_agent("no client at all");
    assert_eq!(os, "Unknown");
    assert_eq!(browser, "Unknown");
    assert_eq!(UNKNOWN, "Unknown");
}

#[test]
fn labels_are_settled_from_what_was_found() {
    let labels = settle_labels(Some(("Linux".to_string(), "browser".to_string())));
    assert_eq!(labels, ("Linux".to_string(), "browser".to_string()));
    let labels = settle_labels(None);
    assert_eq!(labels, ("Unknown".to_string(), "Unknown".to_string()));
}
