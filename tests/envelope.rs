use telebot::bot::Bot;
use telebot::commands::normalize_command;
use telebot::envelope::{decode_response, ApiError};
use telebot::json::{parse_json, print_json, JsonNumber, JsonValue};
use telebot::request::{api_url, form_fields, File};

#[test]
fn ok_envelope_gives_back_the_result_text() {
    let r = decode_response("{\"ok\":true,\"result\":{\"chat_id\":5,\"text\":\"hi\"}}").unwrap();
    assert_eq!(r, "{\"chat_id\":5,\"text\":\"hi\"}");
    let params = JsonValue::Object(vec![
        ("chat_id".to_string(), JsonValue::Number(JsonNumber::Unsigned(5))),
        ("text".to_string(), JsonValue::Str("hi".to_string())),
    ]);
    assert_eq!(print_json(&params), r);
}

#[test]
fn refusal_carries_the_description() {
    match decode_response("{\"ok\":false,\"description\":\"x\"}") {
        Err(ApiError::Remote { description }) => assert_eq!(description.as_deref(), Some("x")),
        other => panic!("unexpected: {:?}", other),
    }
    match decode_response("{\"ok\":false}") {
        Err(ApiError::Remote { description }) => assert!(description.is_none()),
        other => panic!("unexpected: {:?}", other),
    }
}

#[test]
fn malformed_envelopes_are_refused() {
    assert!(matches!(decode_response("<html>"), Err(ApiError::InvalidEnvelope)));
    assert!(matches!(decode_response("{\"result\":1}"), Err(ApiError::InvalidEnvelope)));
    assert!(matches!(decode_response("{\"ok\":\"yes\"}"), Err(ApiError::InvalidEnvelope)));
    assert!(matches!(decode_response("[1,2]"), Err(ApiError::InvalidEnvelope)));
    assert!(matches!(decode_response("{\"ok\":true}"), Err(ApiError::MissingResult)));
}

#[test]
fn json_parses_and_prints() {
    let v = parse_json("{\"b\":[1,-2,1.5,null,true],\"a\":\"s\"}").unwrap();
    assert_eq!(v.get("a").map(|x| matches!(x, JsonValue::Str(s) if s == "s")), Some(true));
    assert_eq!(v.get("b").map(|x| matches!(x, JsonValue::Array(a) if a.len() == 5)), Some(true));
    assert_eq!(print_json(&v), "{\"a\":\"s\",\"b\":[1,-2,1.5,null,true]}");
    assert!(parse_json("{").is_none());
}

#[test]
fn form_fields_stringify_values() {
    let params = parse_json("{\"chat_id\":-5,\"caption\":\"a b\",\"silent\":true}").unwrap();
    let f = form_fields(&params).unwrap();
    let f: Vec<(&str, &str)> = f.iter().map(|(k, v)| (k.as_str(), v.as_str())).collect();
    assert_eq!(f, vec![("caption", "a b"), ("chat_id", "-5"), ("silent", "true")]);
    assert!(matches!(form_fields(&JsonValue::Bool(true)), Err(ApiError::MalformedParameters)));
}

#[test]
fn formdata_request_is_framed() {
    let (bot, _) = Bot::builder("K").build();
    let params = parse_json("{\"chat_id\":1}").unwrap();
    let file = File::Memory { name: "a.png".to_string(), source: vec![1, 2, 3] };
    let r = bot.build_formdata("sendPhoto", &params, file, "photo").unwrap();
    assert_eq!(r.url, "https://api.telegram.org/botK/sendPhoto");
    assert_eq!(r.file_field, "photo");
    assert_eq!(r.fields, vec![("chat_id".to_string(), "1".to_string())]);
    let file = File::Disk { path: "/x".to_string() };
    assert!(matches!(
        bot.build_formdata("sendPhoto", &JsonValue::Null, file, "photo"),
        Err(ApiError::MalformedParameters)
    ));
    let j = bot.build_json("sendMessage", "{}".to_string());
    assert_eq!(j.url, "https://api.telegram.org/botK/sendMessage");
    assert_eq!(j.body, "{}");
}

#[test]
fn commands_get_a_leading_slash() {
    assert_eq!(normalize_command("echo"), "/echo");
    assert_eq!(normalize_command("/echo"), "/echo");
    assert_eq!(normalize_command(""), "/");
    assert_eq!(api_url("k", "getMe"), "https://api.telegram.org/botk/getMe");
}
