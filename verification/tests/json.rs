use kannaka_tui::json::{from_value, parse, parse_with_payload, Json, JsonNumber};

fn number(n: u64) -> Json {
    Json::Number(JsonNumber {
        unsigned: Some(n),
        signed: Some(n as i64),
        double: (n as f64).to_bits(),
        fixed2: format!("{:.2}", n as f64),
        fixed3: format!("{:.3}", n as f64),
    })
}

#[test]
fn every_kind_of_value_is_carried_over() {
    let json = parse("{\"a\":[null,true,\"t\",-3,1.5],\"b\":{}}").ok().unwrap();
    match json.get("a") {
        Some(Json::Array(items)) => {
            assert_eq!(items.len(), 5);
            assert!(matches!(items[0], Json::Null));
            assert!(matches!(items[1], Json::Bool(true)));
            assert!(matches!(&items[2], Json::Text(t) if t == "t"));
            match &items[3] {
                Json::Number(n) => {
                    assert_eq!(n.unsigned, None);
                    assert_eq!(n.signed, Some(-3));
                    assert_eq!(n.double, (-3.0_f64).to_bits());
                    assert_eq!(n.fixed2, "-3.00");
                    assert_eq!(n.fixed3, "-3.000");
                }
                _ => panic!("a number was expected"),
            }
            match &items[4] {
                Json::Number(n) => {
                    assert_eq!(n.unsigned, None);
                    assert_eq!(n.signed, None);
                    assert_eq!(n.double, 1.5_f64.to_bits());
                    assert_eq!(n.fixed2, "1.50");
                    assert_eq!(n.fixed3, "1.500");
                }
                _ => panic!("a number was expected"),
            }
        }
        _ => panic!("an array was expected"),
    }
    assert!(matches!(json.get("b"), Some(Json::Object(fields)) if fields.is_empty()));
    assert!(json.get("c").is_none());
}

#[test]
fn a_text_that_is_no_document_gives_the_parser_s_message() {
    let expected = serde_json::from_str::<serde_json::Value>("{\"a\":").unwrap_err().to_string();
    assert_eq!(parse("{\"a\":").err().unwrap(), expected);
    assert!(parse("").is_err());
    assert!(parse("[1] x").is_err());
}

#[test]
fn of_two_entries_with_a_name_the_later_counts() {
    let json = parse("{\"a\":1,\"a\":2}").ok().unwrap();
    assert_eq!(json.unsigned_or_zero("a"), 2);
}

#[test]
fn a_document_of_the_parser_is_carried_over_whole() {
    let value = serde_json::Value::Array(vec![
        serde_json::Value::from(7_u64),
        serde_json::Value::from("x"),
    ]);
    match from_value(value) {
        Json::Array(items) => {
            assert!(matches!(&items[0], Json::Number(n) if n.unsigned == Some(7)));
            assert!(matches!(&items[1], Json::Text(t) if t == "x"));
        }
        _ => panic!("an array was expected"),
    }
}

#[test]
fn the_payload_comes_with_its_compact_text() {
    let (json, payload) =
        parse_with_payload("{ \"payload\": { \"b\": 1, \"a\": [ 2 ] }, \"ts\": 5 }", "payload")
            .ok()
            .unwrap();
    assert_eq!(json.signed_or_zero("ts"), 5);
    assert_eq!(payload.json.unsigned_or_zero("b"), 1);
    assert_eq!(payload.compact, Some("{\"a\":[2],\"b\":1}".to_string()));
    let (_, none) = parse_with_payload("{}", "payload").ok().unwrap();
    assert!(matches!(none.json, Json::Null));
    assert_eq!(none.compact, Some("null".to_string()));
    assert!(parse_with_payload("nope", "payload").is_err());
}

#[test]
fn fields_that_are_missing_or_of_another_kind_fall_back() {
    let json = Json::Object(vec![
        ("n".to_string(), number(4)),
        ("t".to_string(), Json::Text("x".to_string())),
        ("b".to_string(), Json::Bool(true)),
    ]);
    assert_eq!(json.unsigned_or_zero("n"), 4);
    assert_eq!(json.signed_or_zero("n"), 4);
    assert_eq!(json.double_or_zero("n"), 4.0_f64.to_bits());
    assert_eq!(json.text("t"), Some("x".to_string()));
    assert_eq!(json.text_or("t", "y"), "x");
    assert!(json.is_true("b"));
    assert_eq!(json.unsigned_or_zero("t"), 0);
    assert_eq!(json.signed_or_zero("z"), 0);
    assert_eq!(json.double_or_zero("b"), 0);
    assert_eq!(json.text("n"), None);
    assert_eq!(json.text_or("z", "y"), "y");
    assert!(!json.is_true("t"));
    assert!(!json.is_true("z"));
    assert!(Json::Text("x".to_string()).get("x").is_none());
}

#[test]
fn an_integer_beyond_one_range_is_read_in_the_other() {
    let json = parse("{\"u\":18446744073709551615,\"i\":-9223372036854775808}").ok().unwrap();
    assert_eq!(json.unsigned_or_zero("u"), u64::MAX);
    assert_eq!(json.signed_or_zero("u"), 0);
    assert_eq!(json.signed_or_zero("i"), i64::MIN);
    assert_eq!(json.unsigned_or_zero("i"), 0);
    let whole = parse("{\"x\":1.0}").ok().unwrap();
    assert_eq!(whole.unsigned_or_zero("x"), 0);
    assert_eq!(whole.double_or_zero("x"), 1.0_f64.to_bits());
}
