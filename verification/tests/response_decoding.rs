use yandex_translate::json::{find_member, parse};
use yandex_translate::{JsonValue, TranslateResponse, Translation};

fn text(s: &str) -> JsonValue {
    JsonValue::Text(s.to_string())
}

fn object(members: Vec<(&str, JsonValue)>) -> JsonValue {
    JsonValue::Object(members.into_iter().map(|(k, v)| (k.to_string(), v)).collect())
}

#[test]
fn parse_reads_every_kind_of_value() {
    let tree = parse("{\"a\":null,\"b\":true,\"c\":12,\"d\":\"x\",\"e\":[1,\"y\"],\"f\":{}}").unwrap();
    assert_eq!(
        tree,
        object(vec![
            ("a", JsonValue::Null),
            ("b", JsonValue::Bool(true)),
            ("c", JsonValue::Number("12".to_string())),
            ("d", text("x")),
            ("e", JsonValue::Array(vec![JsonValue::Number("1".to_string()), text("y")])),
            ("f", object(vec![])),
        ])
    );
}

#[test]
fn parse_undoes_escapes() {
    assert_eq!(parse("\"a\\n\\u0041\\\"\"").unwrap(), text("a\nA\""));
}

#[test]
fn parse_refuses_what_is_no_json() {
    assert!(parse("").is_err());
    assert!(parse("{").is_err());
    assert!(parse("{\"a\":}").is_err());
    assert!(parse("not json").is_err());
    assert!(parse("{} trailing").is_err());
}

#[test]
fn find_member_gives_the_first_match() {
    let members = vec![
        ("a".to_string(), text("1")),
        ("b".to_string(), text("2")),
        ("a".to_string(), text("3")),
    ];
    assert_eq!(find_member(&members, "a"), Some(&text("1")));
    assert_eq!(find_member(&members, "b"), Some(&text("2")));
    assert_eq!(find_member(&members, "c"), None);
    assert_eq!(find_member(&vec![], "a"), None);
}

#[test]
fn translation_with_detected_language() {
    let value = object(vec![("text", text("Привет")), ("detectedLanguageCode", text("en"))]);
    let translation = Translation::from_json(&value).unwrap();
    assert_eq!(translation.text, "Привет");
    assert_eq!(translation.detected_language_code.as_deref(), Some("en"));
}

#[test]
fn translation_without_detected_language() {
    let translation = Translation::from_json(&object(vec![("text", text("Hallo"))])).unwrap();
    assert_eq!(translation.text, "Hallo");
    assert_eq!(translation.detected_language_code, None);
}

#[test]
fn translation_with_null_detected_language() {
    let value = object(vec![("text", text("Hallo")), ("detectedLanguageCode", JsonValue::Null)]);
    let translation = Translation::from_json(&value).unwrap();
    assert_eq!(translation.detected_language_code, None);
}

#[test]
fn translation_passes_over_other_members() {
    let value = object(vec![("score", JsonValue::Number("1".to_string())), ("text", text("x"))]);
    assert_eq!(Translation::from_json(&value).unwrap().text, "x");
}

#[test]
fn translation_needs_a_text_string() {
    assert!(Translation::from_json(&object(vec![])).is_err());
    assert!(Translation::from_json(&object(vec![("text", JsonValue::Null)])).is_err());
    assert!(Translation::from_json(&object(vec![("text", JsonValue::Bool(true))])).is_err());
    assert!(Translation::from_json(&text("x")).is_err());
    assert!(Translation::from_json(&JsonValue::Array(vec![text("x")])).is_err());
}

#[test]
fn translation_refuses_a_language_that_is_no_string() {
    let value = object(vec![
        ("text", text("x")),
        ("detectedLanguageCode", JsonValue::Number("7".to_string())),
    ]);
    assert!(Translation::from_json(&value).is_err());
}

#[test]
fn translation_failures_say_what_is_wrong() {
    let missing = Translation::from_json(&object(vec![])).unwrap_err();
    assert_eq!(missing.to_string(), "missing field `text`");
    let wrong = Translation::from_json(&text("x")).unwrap_err();
    assert_eq!(wrong.to_string(), "invalid type: expected a translation object");
}

#[test]
fn response_keeps_length_and_order() {
    let document = parse(
        "{\"translations\":[{\"text\":\"eins\"},{\"text\":\"zwei\",\"detectedLanguageCode\":\"en\"},{\"text\":\"drei\"}]}",
    )
    .unwrap();
    let response = TranslateResponse::from_json(&document).unwrap();
    assert_eq!(response.translations.len(), 3);
    assert_eq!(response.translations[0].text, "eins");
    assert_eq!(response.translations[1].text, "zwei");
    assert_eq!(response.translations[1].detected_language_code.as_deref(), Some("en"));
    assert_eq!(response.translations[2].text, "drei");
    assert_eq!(response.translations[2].detected_language_code, None);
}

#[test]
fn response_may_be_empty() {
    let document = parse("{\"translations\":[]}").unwrap();
    assert_eq!(TranslateResponse::from_json(&document).unwrap().translations.len(), 0);
}

#[test]
fn response_passes_over_other_members() {
    let document = parse("{\"requestId\":\"r\",\"translations\":[{\"text\":\"x\"}],\"n\":1}").unwrap();
    assert_eq!(TranslateResponse::from_json(&document).unwrap().translations.len(), 1);
}

#[test]
fn response_needs_an_array_of_translations() {
    assert!(TranslateResponse::from_json(&parse("{}").unwrap()).is_err());
    assert!(TranslateResponse::from_json(&parse("{\"translations\":null}").unwrap()).is_err());
    assert!(TranslateResponse::from_json(&parse("{\"translations\":{}}").unwrap()).is_err());
    assert!(TranslateResponse::from_json(&parse("[]").unwrap()).is_err());
    assert!(TranslateResponse::from_json(&parse("\"translations\"").unwrap()).is_err());
}

#[test]
fn response_fails_on_one_bad_entry() {
    let document = parse("{\"translations\":[{\"text\":\"ok\"},{\"text\":5}]}").unwrap();
    assert!(TranslateResponse::from_json(&document).is_err());
    let document = parse("{\"translations\":[{\"text\":\"ok\"},\"bare\"]}").unwrap();
    assert!(TranslateResponse::from_json(&document).is_err());
}

#[test]
fn response_failures_say_what_is_wrong() {
    let missing = TranslateResponse::from_json(&parse("{}").unwrap()).unwrap_err();
    assert_eq!(missing.to_string(), "missing field `translations`");
}
