use tenzro_cli::json::{JsonNumber, JsonValue};

fn obj(entries: Vec<(&str, JsonValue)>) -> JsonValue {
    JsonValue::Object(entries.into_iter().map(|(k, v)| (k.to_string(), v)).collect())
}

fn s(x: &str) -> JsonValue {
    JsonValue::Str(x.to_string())
}

#[test]
fn get_reads_members() {
    let v = obj(vec![("a", s("x")), ("n", JsonValue::Number(JsonNumber::PosInt(7))), ("b", JsonValue::Bool(true))]);
    assert_eq!(v.get("a"), Some(&s("x")));
    assert_eq!(v.get("zz"), None);
    assert_eq!(v.str_at("a"), Some("x".to_string()));
    assert_eq!(v.str_at("n"), None);
    assert_eq!(v.u64_at("n"), Some(7));
    assert_eq!(v.u64_at("a"), None);
    assert_eq!(v.bool_at("b"), Some(true));
    assert_eq!(s("a").get("a"), None);
}

#[test]
fn negative_and_float_numbers_have_no_u64() {
    let v = obj(vec![
        ("neg", JsonValue::Number(JsonNumber::NegInt(-3))),
        ("f", JsonValue::Number(JsonNumber::Float("1.5".to_string()))),
    ]);
    assert_eq!(v.u64_at("neg"), None);
    assert_eq!(v.u64_at("f"), None);
}

#[test]
fn first_entry_wins() {
    let v = obj(vec![("k", s("first")), ("k", s("second"))]);
    assert_eq!(v.str_at("k"), Some("first".to_string()));
}
