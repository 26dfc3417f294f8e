use mars::{json_object, Response};

fn reply(text: &str, username: Option<&str>, icon_url: Option<&str>) -> Response {
    Response {
        username: username.map(|u| u.to_string()),
        text: text.to_string(),
        icon_url: icon_url.map(|i| i.to_string()),
    }
}

#[test]
fn text_only() {
    assert_eq!(reply("hi", None, None).encode(), "{\"text\": \"hi\"}");
}

#[test]
fn all_fields_in_order() {
    assert_eq!(
        reply("hi", Some("bot"), Some("http://x")).encode(),
        "{\"text\": \"hi\", \"username\": \"bot\", \"icon_url\": \"http://x\"}"
    );
}

#[test]
fn one_optional_field() {
    assert_eq!(
        reply("hi", None, Some("http://x")).encode(),
        "{\"text\": \"hi\", \"icon_url\": \"http://x\"}"
    );
    assert_eq!(
        reply("hi", Some("bot"), None).encode(),
        "{\"text\": \"hi\", \"username\": \"bot\"}"
    );
}

#[test]
fn quote_and_newline_are_escaped() {
    let text = "say \"hi\"\nback\\slash\t\u{1}";
    let encoded = reply(text, None, None).encode();
    assert_eq!(
        encoded,
        "{\"text\": \"say \\\"hi\\\"\\nback\\\\slash\\t\\u0001\"}"
    );
    let parsed: serde_json::Value = serde_json::from_str(&encoded).unwrap();
    assert_eq!(parsed["text"].as_str(), Some(text));
    assert_eq!(parsed.as_object().unwrap().len(), 1);
}

#[test]
fn encoded_reply_is_valid_json() {
    let encoded = reply("a\"b", Some("n\u{e9}"), Some("http://x/?a=1&b=\"2\"")).encode();
    let parsed: serde_json::Value = serde_json::from_str(&encoded).unwrap();
    assert_eq!(parsed["text"].as_str(), Some("a\"b"));
    assert_eq!(parsed["username"].as_str(), Some("n\u{e9}"));
    assert_eq!(parsed["icon_url"].as_str(), Some("http://x/?a=1&b=\"2\""));
}

#[test]
fn send_appends_encoded_reply() {
    let mut out = String::from("HTTP ");
    reply("pong", Some("pong-bot"), None).send(&mut out);
    assert_eq!(out, "HTTP {\"text\": \"pong\", \"username\": \"pong-bot\"}");
}

#[test]
fn json_object_lays_out_literals() {
    assert_eq!(json_object("\"hi\"", None, None), "{\"text\": \"hi\"}");
    assert_eq!(
        json_object("\"hi\"", Some("\"bot\""), Some("\"http://x\"")),
        "{\"text\": \"hi\", \"username\": \"bot\", \"icon_url\": \"http://x\"}"
    );
    assert_eq!(json_object("1", None, Some("2")), "{\"text\": 1, \"icon_url\": 2}");
}
