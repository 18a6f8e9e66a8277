use user_auth::models::user::{
    encode_sessions, has_token, read_sessions, session_from_record, session_key, User, UserClaims,
    UserSession, ACCESS_TOKEN_LIFE, SESSION_LIFE,
};

const CHROME: &str = "Mozilla/5.0 (Windows NT 10.0; Win64; x64) AppleWebKit/537.36 (KHTML, like Gecko) Chrome/74.0.3729.48 Safari/537.36";

fn now() -> u64 {
    std::time::SystemTime::now()
        .duration_since(std::time::UNIX_EPOCH)
        .expect("the clock is past the epoch")
        .as_secs()
}

fn user() -> User {
    User {
        id: 0xa1a2a3a4b1b2c1c2d1d2d3d4d5d6d7d8u128,
        displayname: "Ann Lee".to_string(),
        username: "annlee".to_string(),
        email: "ann@example.com".to_string(),
        password: "$argon2id$...".to_string(),
        created_at: 1_700_000_000,
    }
}

fn session(token: &str, expiry: u64) -> UserSession {
    UserSession {
        id: 7,
        token: token.to_string(),
        os: "Linux".to_string(),
        browser: "browser".to_string(),
        expiry,
    }
}

#[test]
fn lifetimes() {
    assert_eq!(SESSION_LIFE, 24 * 60 * 60);
    assert_eq!(ACCESS_TOKEN_LIFE, 20 * 60);
}

#[test]
fn a_session_is_put_together_from_its_parts() {
    let s = UserSession::assemble(
        7,
        "tok".to_string(),
        ("Linux".to_string(), "browser".to_string()),
        1_700_000_000,
    )
    .expect("a day can be counted from then");
    assert_eq!(s.id, 7);
    assert_eq!(s.token, "tok");
    assert_eq!(s.os, "Linux");
    assert_eq!(s.browser, "browser");
    assert_eq!(s.expiry, 1_700_086_400);
}

#[test]
fn no_session_where_no_day_can_be_counted() {
    let labels = || ("Linux".to_string(), "browser".to_string());
    let last = u64::MAX - SESSION_LIFE;
    let s = UserSession::assemble(7, "tok".to_string(), labels(), last).expect("the last such time");
    assert_eq!(s.expiry, u64::MAX);
    assert!(UserSession::assemble(7, "tok".to_string(), labels(), last + 1).is_none());
    assert!(UserSession::assemble(7, "tok".to_string(), labels(), u64::MAX).is_none());
}

#[test]
fn no_claims_where_no_twenty_minutes_can_be_counted() {
    let last = (usize::MAX - ACCESS_TOKEN_LIFE) as u64;
    assert_eq!(UserClaims::at(user(), last).expect("the last such time").exp, usize::MAX);
    assert!(UserClaims::at(user(), last + 1).is_none());
}

#[test]
fn a_new_session_ends_a_day_from_now() {
    let before = now();
    let s = UserSession::new(7, CHROME).expect("the clock gives a time");
    let after = now();
    assert_eq!(s.id, 7);
    assert_eq!(s.token.len(), 64);
    assert_eq!(s.os, "Windows 10");
    assert_eq!(s.browser, "browser");
    assert!(before + SESSION_LIFE <= s.expiry && s.expiry <= after + SESSION_LIFE);
}

#[test]
fn a_new_session_of_an_unknown_client() {
    let s = UserSession::new(7, "\u{0}\u{1} what is this").expect("the clock gives a time");
    assert_eq!(s.os, "Unknown");
    assert_eq!(s.browser, "Unknown");
}

#[test]
fn new_sessions_have_distinct_tokens() {
    let mut tokens = std::collections::HashSet::new();
    for _ in 0..100 {
        let s = UserSession::new(7, CHROME).expect("the clock gives a time");
        assert!(tokens.insert(s.token));
    }
    assert_eq!(tokens.len(), 100);
}

#[test]
fn the_key_names_the_user() {
    assert_eq!(
        session_key(0xa1a2a3a4b1b2c1c2d1d2d3d4d5d6d7d8u128),
        "sessions:a1a2a3a4-b1b2-c1c2-d1d2-d3d4d5d6d7d8"
    );
}

#[test]
fn a_session_as_json() {
    let s = session("tok", 1_700_086_400);
    assert_eq!(
        s.to_json(),
        r#"{"token":"tok","os":"Linux","browser":"browser","expiry":1700086400}"#
    );
}

#[test]
fn a_list_as_json() {
    assert_eq!(encode_sessions(&Vec::new()), "[]");
    assert_eq!(
        encode_sessions(&vec![session("a", 1)]),
        r#"[{"token":"a","os":"Linux","browser":"browser","expiry":1}]"#
    );
    assert_eq!(
        encode_sessions(&vec![session("a", 1), session("b", 2)]),
        r#"[{"token":"a","os":"Linux","browser":"browser","expiry":1},{"token":"b","os":"Linux","browser":"browser","expiry":2}]"#
    );
}

#[test]
fn nothing_stored_is_an_empty_list() {
    let list = read_sessions(7, None).expect("nothing is an empty list");
    assert!(list.is_empty());
    let list = read_sessions(7, Some("[]")).expect("an empty array is an empty list");
    assert!(list.is_empty());
}

#[test]
fn a_list_is_read_back_as_it_was_written() {
    let written = vec![session("a\"quote", 1), session("b\\slash\n", u64::MAX), session("", 0)];
    let text = encode_sessions(&written);
    let read = read_sessions(7, Some(&text)).expect("what was written can be read");
    assert_eq!(read.len(), 3);
    for (w, r) in written.iter().zip(read.iter()) {
        assert_eq!(r.id, 7);
        assert_eq!(r.token, w.token);
        assert_eq!(r.os, w.os);
        assert_eq!(r.browser, w.browser);
        assert_eq!(r.expiry, w.expiry);
    }
}

#[test]
fn members_may_come_in_any_order_and_with_others() {
    let text = r#" [ {"expiry": 5, "browser": "b", "extra": [1, 2], "os": "o", "token": "t"} ] "#;
    let read = read_sessions(9, Some(text)).expect("a list of one session");
    assert_eq!(read.len(), 1);
    assert_eq!(read[0].id, 9);
    assert_eq!(read[0].token, "t");
    assert_eq!(read[0].os, "o");
    assert_eq!(read[0].browser, "b");
    assert_eq!(read[0].expiry, 5);
}

#[test]
fn what_is_no_list_of_sessions_is_not_read() {
    assert!(read_sessions(7, Some("")).is_none());
    assert!(read_sessions(7, Some("{}")).is_none());
    assert!(read_sessions(7, Some("[1]")).is_none());
    assert!(read_sessions(7, Some(r#"[{"token":"t","os":"o","browser":"b"}]"#)).is_none());
    assert!(read_sessions(7, Some(r#"[{"token":"t","os":"o","browser":"b","expiry":-1}]"#)).is_none());
    assert!(read_sessions(7, Some(r#"[{"token":"t","os":"o","browser":"b","expiry":"1"}]"#)).is_none());
    assert!(read_sessions(7, Some(r#"[{"token":1,"os":"o","browser":"b","expiry":1}]"#)).is_none());
    assert!(read_sessions(7, Some(r#"[{"token":"t","os":"o","browser":"b","expiry":1}"#)).is_none());
}

#[test]
fn a_record_without_a_token_is_no_session() {
    let record = vec![
        ("os".to_string(), Some("o".to_string()), None),
        ("browser".to_string(), Some("b".to_string()), None),
        ("expiry".to_string(), None, Some(5)),
    ];
    assert!(session_from_record(7, &record).is_none());
    let mut full = record.clone();
    full.push(("token".to_string(), Some("t".to_string()), None));
    let s = session_from_record(7, &full).expect("all four members are there");
    assert_eq!(s.token, "t");
    assert_eq!(s.expiry, 5);
}

#[test]
fn the_first_session_of_a_user() {
    let s = session("tok", 10);
    let written = s.set_session(None).expect("nothing stored can be read");
    assert_eq!(written, r#"[{"token":"tok","os":"Linux","browser":"browser","expiry":10}]"#);
}

#[test]
fn a_session_goes_to_the_end_and_old_ones_stay() {
    let stored = encode_sessions(&vec![session("old and run out", 1), session("b", 2)]);
    let written = session("c", 3).set_session(Some(&stored)).expect("the list can be read");
    let list = read_sessions(7, Some(&written)).expect("the list can be read");
    let tokens: Vec<&str> = list.iter().map(|s| s.token.as_str()).collect();
    assert_eq!(tokens, vec!["old and run out", "b", "c"]);
    assert_eq!(list[0].expiry, 1);
}

#[test]
fn a_token_does_not_come_to_stand_in_a_list_twice() {
    let s = session("tok", 10);
    let once = s.set_session(None).expect("readable");
    let twice = s.set_session(Some(&once)).expect("readable");
    assert_eq!(twice, once);
    let stored = encode_sessions(&vec![session("a", 1), session("tok", 2), session("b", 3)]);
    let written = s.set_session(Some(&stored)).expect("readable");
    assert_eq!(written, stored);
    let list = read_sessions(7, Some(&written)).expect("readable");
    assert_eq!(list.iter().filter(|held| held.token == "tok").count(), 1);
    assert_eq!(list[1].expiry, 2);
}

#[test]
fn has_token_looks_through_the_list() {
    let list = vec![session("a", 1), session("b", 2)];
    assert!(has_token(&list, "a"));
    assert!(has_token(&list, "b"));
    assert!(!has_token(&list, "c"));
    assert!(!has_token(&Vec::new(), "a"));
}

#[test]
fn nothing_is_written_over_what_cannot_be_read() {
    assert!(session("c", 3).set_session(Some("not json")).is_none());
}

#[test]
fn logins_one_after_another_lose_no_session() {
    let mut stored: Option<String> = None;
    let mut tokens = Vec::new();
    for _ in 0..40 {
        let s = UserSession::new(7, CHROME).expect("the clock gives a time");
        tokens.push(s.token.clone());
        stored = Some(s.set_session(stored.as_deref()).expect("the list can be read"));
    }
    let list = read_sessions(7, stored.as_deref()).expect("the list can be read");
    assert_eq!(list.len(), 40);
    let read: Vec<String> = list.into_iter().map(|s| s.token).collect();
    assert_eq!(read, tokens);
}

#[test]
fn a_write_from_a_stale_reading_would_lose_a_session() {
    let first = session("first", 1);
    let second = session("second", 2);
    let seen_by_first: Option<&str> = None;
    let seen_by_second: Option<&str> = None;
    let written_first = first.set_session(seen_by_first).expect("readable");
    let written_second = second.set_session(seen_by_second).expect("readable");
    let stored = written_second;
    assert_ne!(stored, written_first);
    let list = read_sessions(7, Some(&stored)).expect("readable");
    assert_eq!(list.len(), 1);
    assert_eq!(list[0].token, "second");
}

#[test]
fn claims_are_the_user_without_the_hash() {
    let claims = UserClaims::at(user(), 1_700_000_000).expect("twenty minutes can be counted");
    assert_eq!(claims.id, 0xa1a2a3a4b1b2c1c2d1d2d3d4d5d6d7d8u128);
    assert_eq!(claims.displayname, "Ann Lee");
    assert_eq!(claims.username, "annlee");
    assert_eq!(claims.email, "ann@example.com");
    assert_eq!(claims.exp, 1_700_001_200);
    assert_eq!(
        claims.to_json(),
        r#"{"id":"a1a2a3a4-b1b2-c1c2-d1d2-d3d4d5d6d7d8","displayname":"Ann Lee","username":"annlee","email":"ann@example.com","exp":1700001200}"#
    );
}

#[test]
fn claims_made_now_hold_for_twenty_minutes() {
    let before = now() as usize;
    let claims = UserClaims::from_user(user()).expect("the clock gives a time");
    let after = now() as usize;
    assert!(before + ACCESS_TOKEN_LIFE <= claims.exp && claims.exp <= after + ACCESS_TOKEN_LIFE);
}

#[test]
fn claims_are_signed_into_a_token() {
    let claims = UserClaims::from_user(user()).expect("the clock gives a time");
    let exp = claims.exp;
    let token = claims.to_token("signing secret").expect("the signer gives a token");
    let key = jsonwebtoken::DecodingKey::from_secret(b"signing secret");
    let validation = jsonwebtoken::Validation::new(jsonwebtoken::Algorithm::HS256);
    let decoded = jsonwebtoken::decode::<serde_json::Value>(&token, &key, &validation)
        .expect("the token verifies and has not run out");
    assert_eq!(decoded.header.alg, jsonwebtoken::Algorithm::HS256);
    assert_eq!(decoded.claims["id"], "a1a2a3a4-b1b2-c1c2-d1d2-d3d4d5d6d7d8");
    assert_eq!(decoded.claims["displayname"], "Ann Lee");
    assert_eq!(decoded.claims["username"], "annlee");
    assert_eq!(decoded.claims["email"], "ann@example.com");
    assert_eq!(decoded.claims["exp"], exp as u64);
    assert!(decoded.claims.get("password").is_none());
}

#[test]
fn a_token_is_what_the_signer_makes_of_the_same_claims() {
    let claims = UserClaims::at(user(), 1_700_000_000).expect("twenty minutes can be counted");
    let text = claims.to_json();
    let token = claims.to_token("signing secret").expect("the signer gives a token");
    let mut map = serde_json::Map::new();
    let value: serde_json::Value = serde_json::from_str(&text).expect("JSON");
    for (name, member) in value.as_object().expect("an object") {
        map.insert(name.clone(), member.clone());
    }
    let parts: Vec<&str> = token.split('.').collect();
    let payload = base64::decode_config(parts[1], base64::URL_SAFE_NO_PAD).expect("base64");
    let signed: serde_json::Value = serde_json::from_slice(&payload).expect("JSON");
    assert_eq!(signed, serde_json::Value::Object(map));
    assert_eq!(String::from_utf8(payload).expect("text"), text);
}
