// Scenario tests for the chat protocol: registration, posting,
// polling, and the error vocabulary, driven through raw JSON request
// objects as the transport would deliver them.

use ws_chat::chat::WsChat;
use ws_chat::protocol::{ErrCode, ReqKind};

fn obj(pairs: &[(&str, serde_json::Value)]) -> serde_json::Value {
    let mut m = serde_json::Map::new();
    for (k, v) in pairs {
        m.insert(k.to_string(), v.clone());
    }
    serde_json::Value::Object(m)
}

fn s(text: &str) -> serde_json::Value {
    serde_json::Value::String(text.to_string())
}

fn login(chat: &mut WsChat, uname: &str) -> ws_chat::protocol::Response {
    chat.dispatch(&obj(&[("type", s("login")), ("uname", s(uname))]))
}

#[test]
fn register_then_duplicate() {
    let mut chat = WsChat::new("secret".to_string());
    let resp = login(&mut chat, "alice");
    assert!(resp.ok);
    assert_eq!(resp.rtype, Some(ReqKind::Login));
    assert_eq!(resp.err, None);
    assert!(resp.token.is_some());
    assert!(!resp.token.as_ref().unwrap().is_empty());
    assert_eq!(resp.messages, Some(vec![]));

    let again = login(&mut chat, "alice");
    assert!(!again.ok);
    assert_eq!(again.rtype, Some(ReqKind::Login));
    assert_eq!(again.err, Some(ErrCode::AlreadyExists));
    assert_eq!(again.token, None);
    assert_eq!(again.messages, None);
}

#[test]
fn two_users_register() {
    let mut chat = WsChat::new("secret".to_string());
    assert!(login(&mut chat, "alice").ok);
    assert!(login(&mut chat, "bob").ok);
    let t1 = login(&mut chat, "alice");
    assert_eq!(t1.err, Some(ErrCode::AlreadyExists));
    let t2 = login(&mut chat, "bob");
    assert_eq!(t2.err, Some(ErrCode::AlreadyExists));
}

#[test]
fn post_message_as_registered_user() {
    let mut chat = WsChat::new("secret".to_string());
    let token = login(&mut chat, "alice").token.unwrap();
    let resp = chat.dispatch(&obj(&[
        ("type", s("message")),
        ("token", s(&token)),
        ("text", s("hi")),
    ]));
    assert!(resp.ok);
    assert_eq!(resp.rtype, Some(ReqKind::Message));
    assert_eq!(
        resp.messages,
        Some(vec![("alice".to_string(), "hi".to_string())])
    );
}

#[test]
fn post_message_with_legacy_field_name() {
    let mut chat = WsChat::new("secret".to_string());
    let token = login(&mut chat, "alice").token.unwrap();
    let resp = chat.dispatch(&obj(&[
        ("type", s("message")),
        ("token", s(&token)),
        ("message", s("hello there")),
    ]));
    assert!(resp.ok);
    assert_eq!(
        resp.messages,
        Some(vec![("alice".to_string(), "hello there".to_string())])
    );
}

#[test]
fn ping_with_bogus_token() {
    let mut chat = WsChat::new("secret".to_string());
    let resp = chat.dispatch(&obj(&[("type", s("ping")), ("token", s("zzz"))]));
    assert!(!resp.ok);
    assert_eq!(resp.rtype, Some(ReqKind::Ping));
    assert_eq!(resp.err, Some(ErrCode::AuthenticationFailed));
    assert_eq!(resp.messages, None);
}

#[test]
fn login_with_numeric_uname() {
    let mut chat = WsChat::new("secret".to_string());
    let resp = chat.dispatch(&obj(&[
        ("type", s("login")),
        ("uname", serde_json::Value::Number(7.into())),
    ]));
    assert!(!resp.ok);
    assert_eq!(resp.rtype, Some(ReqKind::Login));
    assert_eq!(resp.err, Some(ErrCode::Format));
}

#[test]
fn unsupported_request_type() {
    let mut chat = WsChat::new("secret".to_string());
    let resp = chat.dispatch(&obj(&[("type", s("foo"))]));
    assert!(!resp.ok);
    assert_eq!(resp.rtype, None);
    assert_eq!(resp.err, Some(ErrCode::Unsupported));
}

#[test]
fn missing_type_is_format_error() {
    let mut chat = WsChat::new("secret".to_string());
    let resp = chat.dispatch(&obj(&[("uname", s("alice"))]));
    assert!(!resp.ok);
    assert_eq!(resp.rtype, None);
    assert_eq!(resp.err, Some(ErrCode::Format));
}

#[test]
fn non_object_request_is_format_error() {
    let mut chat = WsChat::new("secret".to_string());
    let resp = chat.dispatch(&serde_json::Value::Null);
    assert!(!resp.ok);
    assert_eq!(resp.err, Some(ErrCode::Format));
}

#[test]
fn ping_without_token_is_format_error() {
    let mut chat = WsChat::new("secret".to_string());
    let resp = chat.dispatch(&obj(&[("type", s("ping"))]));
    assert_eq!(resp.err, Some(ErrCode::Format));
    assert_eq!(resp.rtype, Some(ReqKind::Ping));
}

#[test]
fn message_without_text_is_format_error() {
    let mut chat = WsChat::new("secret".to_string());
    let token = login(&mut chat, "alice").token.unwrap();
    let resp = chat.dispatch(&obj(&[("type", s("message")), ("token", s(&token))]));
    assert!(!resp.ok);
    assert_eq!(resp.rtype, Some(ReqKind::Message));
    assert_eq!(resp.err, Some(ErrCode::Format));
}

#[test]
fn registered_token_accepted_by_ping() {
    let mut chat = WsChat::new("secret".to_string());
    let token = login(&mut chat, "alice").token.unwrap();
    let resp = chat.dispatch(&obj(&[("type", s("ping")), ("token", s(&token))]));
    assert!(resp.ok);
    assert_eq!(resp.err, None);
    assert_eq!(resp.messages, Some(vec![]));
}

#[test]
fn altered_token_rejected() {
    let mut chat = WsChat::new("secret".to_string());
    let token = login(&mut chat, "alice").token.unwrap();
    // flip one character of the signature part
    let mut chars: Vec<char> = token.chars().collect();
    let last = *chars.last().unwrap();
    let n = chars.len();
    chars[n - 1] = if last == 'A' { 'B' } else { 'A' };
    let altered: String = chars.into_iter().collect();
    assert_ne!(altered, token);
    let resp = chat.dispatch(&obj(&[("type", s("ping")), ("token", s(&altered))]));
    assert!(!resp.ok);
    assert_eq!(resp.err, Some(ErrCode::AuthenticationFailed));
}

#[test]
fn token_under_other_secret_rejected() {
    let mut chat_a = WsChat::new("secret-a".to_string());
    let mut chat_b = WsChat::new("secret-b".to_string());
    let token = login(&mut chat_a, "alice").token.unwrap();
    let resp = chat_b.dispatch(&obj(&[("type", s("ping")), ("token", s(&token))]));
    assert!(!resp.ok);
    assert_eq!(resp.err, Some(ErrCode::AuthenticationFailed));
}

#[test]
fn username_itself_is_no_credential() {
    let mut chat = WsChat::new("secret".to_string());
    login(&mut chat, "alice");
    let resp = chat.dispatch(&obj(&[("type", s("ping")), ("token", s("alice"))]));
    assert!(!resp.ok);
    assert_eq!(resp.err, Some(ErrCode::AuthenticationFailed));
}

#[test]
fn log_keeps_insertion_order() {
    let mut chat = WsChat::new("secret".to_string());
    let ta = login(&mut chat, "alice").token.unwrap();
    let tb = login(&mut chat, "bob").token.unwrap();
    for (tok, text) in [(&ta, "one"), (&tb, "two"), (&ta, "three")] {
        let r = chat.dispatch(&obj(&[
            ("type", s("message")),
            ("token", s(tok)),
            ("text", s(text)),
        ]));
        assert!(r.ok);
    }
    let resp = chat.dispatch(&obj(&[("type", s("ping")), ("token", s(&ta))]));
    assert_eq!(
        resp.messages,
        Some(vec![
            ("alice".to_string(), "one".to_string()),
            ("bob".to_string(), "two".to_string()),
            ("alice".to_string(), "three".to_string()),
        ])
    );
}

#[test]
fn repeated_ping_is_idempotent() {
    let mut chat = WsChat::new("secret".to_string());
    let token = login(&mut chat, "alice").token.unwrap();
    chat.dispatch(&obj(&[
        ("type", s("message")),
        ("token", s(&token)),
        ("text", s("hi")),
    ]));
    let ping = obj(&[("type", s("ping")), ("token", s(&token))]);
    let first = chat.dispatch(&ping);
    let second = chat.dispatch(&ping);
    assert!(first.ok && second.ok);
    assert_eq!(first.messages, second.messages);
}

#[test]
fn login_snapshot_shows_history() {
    let mut chat = WsChat::new("secret".to_string());
    let ta = login(&mut chat, "alice").token.unwrap();
    chat.dispatch(&obj(&[
        ("type", s("message")),
        ("token", s(&ta)),
        ("text", s("hi")),
    ]));
    let resp = login(&mut chat, "bob");
    assert!(resp.ok);
    assert_eq!(
        resp.messages,
        Some(vec![("alice".to_string(), "hi".to_string())])
    );
}
