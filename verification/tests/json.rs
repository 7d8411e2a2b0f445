use open_interpreter::json::Json;
use serde_json::Value;

fn parsed(text: &str) -> Value {
    serde_json::from_str(text).expect("valid JSON")
}

#[test]
fn values_reach_the_wire_as_they_are() {
    assert_eq!(Json::Null.to_value(), Value::Null);
    assert_eq!(Json::Bool(true).to_value(), parsed("true"));
    assert_eq!(Json::Number(u64::MAX).to_value(), parsed("18446744073709551615"));
    assert_eq!(Json::text_of("a\"b").to_value(), parsed("\"a\\\"b\""));
    assert_eq!(
        Json::Array(vec![Json::Number(2), Json::Null, Json::Number(1)]).to_value(),
        parsed("[2,null,1]")
    );
    assert_eq!(
        Json::object()
            .with("b", Json::Bool(false))
            .with("a", Json::object())
            .to_value(),
        parsed("{\"a\":{},\"b\":false}")
    );
}

#[test]
fn the_later_field_counts() {
    let json = Json::object()
        .with("k", Json::Number(1))
        .with("l", Json::Number(2))
        .with("k", Json::Number(3));
    assert_eq!(json.to_value(), parsed("{\"k\":3,\"l\":2}"));
    assert_eq!(Json::Null.with("k", Json::Null), Json::Null);
}

#[test]
fn texts_are_compact_with_sorted_keys() {
    let json = Json::object()
        .with("type", Json::text_of("text"))
        .with("list", Json::Array(vec![Json::Null, Json::text_of("\n")]));
    assert_eq!(json.text(), "{\"list\":[null,\"\\n\"],\"type\":\"text\"}");
    assert_eq!(Json::object().text(), "{}");
}

#[test]
fn values_from_outside_are_carried_as_they_came() {
    let text = "{\"b\":[-1,0.5,1e300],\"a\":\"x\"}";
    let outside = Json::Outside(parsed(text));
    assert_eq!(outside.to_value(), parsed(text));
    assert_eq!(outside.text(), "{\"a\":\"x\",\"b\":[-1,0.5,1e+300]}");
    assert_eq!(
        Json::object().with("k", Json::Outside(parsed("-1"))).text(),
        "{\"k\":-1}"
    );
    assert_eq!(
        Json::Outside(parsed("{}")).with("k", Json::Null),
        Json::Outside(parsed("{}"))
    );
}

#[test]
fn a_text_is_known_wherever_it_comes_from() {
    assert_eq!(Json::text_of("x").as_text(), Some("x".to_string()));
    assert_eq!(
        Json::Outside(parsed("\"x\"")).as_text(),
        Some("x".to_string())
    );
    assert_eq!(Json::Outside(parsed("1")).as_text(), None);
    assert_eq!(Json::Null.as_text(), None);
}
