use waifu::json::parse_json;
use waifu::json::parse_opt_u32;
use waifu::json::parse_u32;
use waifu::json::starts_with;
use waifu::json::value_as_str;
use waifu::json::value_to_string;
use waifu::json::Json;
use waifu::json::JsonNumber;

fn document(text: &str) -> Json {
    parse_json(text).unwrap()
}

#[test]
fn parses_scalars() {
    assert_eq!(document("null"), Json::Null);
    assert_eq!(document("true"), Json::Bool(true));
    assert_eq!(document("\"hi\""), Json::Text("hi".to_string()));
    assert_eq!(
        document("42"),
        Json::Number(JsonNumber { unsigned: Some(42), text: "42".to_string() })
    );
    assert_eq!(
        document("-3"),
        Json::Number(JsonNumber { unsigned: None, text: "-3".to_string() })
    );
}

#[test]
fn parses_arrays_and_objects() {
    assert_eq!(
        document("[1, \"a\"]"),
        Json::Array(vec![
            Json::Number(JsonNumber { unsigned: Some(1), text: "1".to_string() }),
            Json::Text("a".to_string()),
        ])
    );
    assert_eq!(
        document("{\"k\": null}"),
        Json::Object(vec![("k".to_string(), Json::Null)])
    );
}

#[test]
fn parse_failure_gives_the_parser_message() {
    let message = parse_json("{oops").unwrap_err();
    assert!(!message.is_empty());
    assert_ne!(message, "{oops");
}

#[test]
fn get_finds_members_of_objects_only() {
    let object = document("{\"a\": 1, \"b\": \"two\"}");
    assert_eq!(object.get("b"), Some(&Json::Text("two".to_string())));
    assert_eq!(object.get("c"), None);
    assert_eq!(document("[1]").get("a"), None);
    assert_eq!(document("\"a\"").get("a"), None);
}

#[test]
fn get_sees_the_last_of_repeated_keys() {
    let object = document("{\"a\": 1, \"a\": \"x\"}");
    assert_eq!(object.get("a"), Some(&Json::Text("x".to_string())));
}

#[test]
fn text_of_strings_numbers_and_others() {
    let object = document("{\"s\": \"abc\", \"n\": 12, \"f\": 1.5, \"z\": null}");
    assert_eq!(value_to_string(object.get("s")), "abc");
    assert_eq!(value_to_string(object.get("n")), "12");
    assert_eq!(value_to_string(object.get("f")), "1.5");
    assert_eq!(value_to_string(object.get("z")), "");
    assert_eq!(value_to_string(object.get("missing")), "");
    assert_eq!(value_as_str(object.get("s")), "abc");
    assert_eq!(value_as_str(object.get("n")), "");
    assert_eq!(value_as_str(None), "");
}

#[test]
fn numbers_from_numbers_and_strings() {
    let object = document(
        "{\"a\": 640, \"b\": \"480\", \"c\": \"+7\", \"d\": \"x\", \"e\": -1, \"f\": 2.5, \"g\": \"\", \"h\": \"-1\", \"i\": \" 5\"}",
    );
    assert_eq!(parse_u32(object.get("a")), 640);
    assert_eq!(parse_u32(object.get("b")), 480);
    assert_eq!(parse_u32(object.get("c")), 7);
    assert_eq!(parse_u32(object.get("d")), 0);
    assert_eq!(parse_u32(object.get("e")), 0);
    assert_eq!(parse_u32(object.get("f")), 0);
    assert_eq!(parse_u32(object.get("g")), 0);
    assert_eq!(parse_u32(object.get("h")), 0);
    assert_eq!(parse_u32(object.get("i")), 0);
    assert_eq!(parse_u32(object.get("missing")), 0);
    assert_eq!(parse_opt_u32(object.get("a")), Some(640));
    assert_eq!(parse_opt_u32(object.get("b")), Some(480));
    assert_eq!(parse_opt_u32(object.get("d")), None);
    assert_eq!(parse_opt_u32(object.get("e")), None);
    assert_eq!(parse_opt_u32(object.get("missing")), None);
}

#[test]
fn large_numbers_keep_their_low_bits() {
    let object = document("{\"a\": 4294967297, \"b\": 4294967295, \"c\": 4294967296}");
    assert_eq!(parse_u32(object.get("a")), 1);
    assert_eq!(parse_u32(object.get("b")), 4294967295);
    assert_eq!(parse_opt_u32(object.get("c")), Some(0));
}

#[test]
fn large_decimal_strings_are_unreadable() {
    let object = document("{\"a\": \"4294967295\", \"b\": \"4294967296\", \"c\": \"007\"}");
    assert_eq!(parse_opt_u32(object.get("a")), Some(4294967295));
    assert_eq!(parse_opt_u32(object.get("b")), None);
    assert_eq!(parse_u32(object.get("b")), 0);
    assert_eq!(parse_opt_u32(object.get("c")), Some(7));
}

#[test]
fn prefixes() {
    assert!(starts_with("image/png", "image/"));
    assert!(starts_with("//x", "//"));
    assert!(!starts_with("/x", "//"));
    assert!(!starts_with("im", "image/"));
    assert!(starts_with("abc", ""));
    assert!(starts_with("", ""));
    assert!(!starts_with("text/html", "image/"));
}
