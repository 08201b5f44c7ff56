use tenzro_cli::inference::{
    attestation, inference_request, is_float, metadata, preview, response_body, saved_text, ResponseBody,
};
use tenzro_cli::json::{JsonNumber, JsonValue};

fn obj(entries: Vec<(&str, JsonValue)>) -> JsonValue {
    JsonValue::Object(entries.into_iter().map(|(k, v)| (k.to_string(), v)).collect())
}

fn s(x: &str) -> JsonValue {
    JsonValue::Str(x.to_string())
}

#[test]
fn float_texts_agree_with_std() {
    let samples = [
        "1.0", "1", "0", "-2.5", "+3", ".5", "5.", ".", "", " 1", "1 ", "1e5", "1E5", "1e+5", "1e-5", "1e", "e5",
        "1.5e3", "1..2", "inf", "-inf", "+Infinity", "NaN", "nan", "infin", "abc", "1_000", "0x10", "+", "-", "1e5.5",
        "00.00", "2e0010", "+nan", "-NaN", "-infinity", "1e+", "1e-", "1.e5", ".e5", "5.E-3", "++1", "-.5",
    ];
    for t in samples {
        assert_eq!(is_float(t), t.parse::<f64>().is_ok(), "disagree on {:?}", t);
    }
}

#[test]
fn input_previews() {
    assert_eq!(preview("prompt.txt", true), "File: prompt.txt");
    assert_eq!(preview("https://example.com/a.png", false), "URL: https://example.com/a.png");
    assert_eq!(preview("http://x", false), "URL: http://x");
    assert_eq!(preview("Explain quantum computing", false), "Explain quantum computing");
    let long = "a".repeat(150);
    let p = preview(&long, false);
    assert_eq!(p, format!("{}...", "a".repeat(97)));
    assert_eq!(p.len(), 100);
    let exactly = "b".repeat(100);
    assert_eq!(preview(&exactly, false), exactly);
}

#[test]
fn request_parameters() {
    let req = inference_request(
        "gemma4-9b",
        "Write a poem",
        "1.0",
        true,
        JsonValue::Number(JsonNumber::Float("0.800000011920929".into())),
        Some(500),
    );
    assert_eq!(req.method, "tenzro_inferenceRequest");
    assert_eq!(
        req.params,
        JsonValue::Array(vec![obj(vec![
            ("model_id", s("gemma4-9b")),
            ("input", s("Write a poem")),
            ("max_price", s("1.0")),
            ("require_tee", JsonValue::Bool(true)),
            ("temperature", JsonValue::Number(JsonNumber::Float("0.800000011920929".into()))),
            ("max_tokens", JsonValue::Number(JsonNumber::PosInt(500))),
        ])])
    );
    let req = inference_request("m", "i", "2", false, JsonValue::Null, None);
    match req.params {
        JsonValue::Array(v) => assert_eq!(v[0].get("max_tokens"), Some(&JsonValue::Null)),
        _ => panic!("parameters are an array"),
    }
}

#[test]
fn reading_the_answer() {
    let answer = obj(vec![
        ("response", s("A poem")),
        ("output", s("ignored")),
        ("request_id", s("req-1")),
        ("provider", s("0xprov")),
        ("input_tokens", JsonValue::Number(JsonNumber::PosInt(12))),
        ("output_tokens", JsonValue::Number(JsonNumber::PosInt(34))),
        ("actual_price", s("0.5")),
        ("attestation", obj(vec![("vendor", s("intel-tdx")), ("enclave_id", s("enc-7"))])),
    ]);
    assert_eq!(response_body(&answer), ResponseBody::Text("A poem".into()));
    let only_output = obj(vec![("output", s("x"))]);
    assert_eq!(response_body(&only_output), ResponseBody::Output(&s("x")));
    assert_eq!(response_body(&obj(vec![])), ResponseBody::Nothing);

    let m = metadata(&answer);
    assert_eq!(m.request_id, Some("req-1".into()));
    assert_eq!(m.provider, Some("0xprov".into()));
    assert_eq!(m.input_tokens, Some(12));
    assert_eq!(m.output_tokens, Some(34));
    assert_eq!(m.actual_price, Some("0.5".into()));

    let a = attestation(&answer, true).unwrap();
    assert_eq!(a.vendor, Some("intel-tdx".into()));
    assert_eq!(a.enclave_id, Some("enc-7".into()));
    assert!(attestation(&answer, false).is_none());
    assert!(attestation(&obj(vec![]), true).is_none());

    assert_eq!(saved_text(&answer, true), Some("A poem".into()));
    assert_eq!(saved_text(&answer, false), None);
    assert_eq!(saved_text(&only_output, true), None);
}
