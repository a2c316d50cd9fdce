use gaia_mcp::json::{find_member, read_json, Json, JsonNumber};

fn text(s: &str) -> Json {
    Json::Text(s.to_string())
}

#[test]
fn reads_every_kind_of_value() {
    assert_eq!(read_json(b"null"), Some(Json::Null));
    assert_eq!(read_json(b" true "), Some(Json::Bool(true)));
    assert_eq!(read_json(b"\"a\\n\\u00e9\""), Some(text("a\né")));
    assert_eq!(read_json(b"7"), Some(Json::Number(JsonNumber::PosInt(7))));
    assert_eq!(read_json(b"-7"), Some(Json::Number(JsonNumber::NegInt(-7))));
    assert_eq!(
        read_json(b"0.5"),
        Some(Json::Number(JsonNumber::Float(0.5f64.to_bits())))
    );
    assert_eq!(
        read_json(b"18446744073709551615"),
        Some(Json::Number(JsonNumber::PosInt(u64::MAX)))
    );
    assert_eq!(read_json(b"[]"), Some(Json::Array(vec![])));
    assert_eq!(
        read_json(b"[1,[\"x\"]]"),
        Some(Json::Array(vec![
            Json::Number(JsonNumber::PosInt(1)),
            Json::Array(vec![text("x")])
        ]))
    );
    assert_eq!(
        read_json(b"{\"k\":{\"l\":null}}"),
        Some(Json::Object(vec![(
            "k".to_string(),
            Json::Object(vec![("l".to_string(), Json::Null)])
        )]))
    );
}

#[test]
fn refuses_what_is_no_document() {
    for bytes in [&b""[..], &b"{"[..], &b"nul"[..], &b"1 2"[..], &b"\"\xff\""[..], &b"<html>"[..]] {
        assert_eq!(read_json(bytes), None);
    }
}

#[test]
fn finds_members_by_name() {
    let json = read_json(b"{\"a\":\"1\",\"b\":[]}").unwrap();
    assert_eq!(json.get("a"), Some(&text("1")));
    assert_eq!(json.get("b"), Some(&Json::Array(vec![])));
    assert_eq!(json.get("c"), None);
    assert_eq!(Json::Array(vec![]).get("a"), None);
    assert_eq!(Json::Null.get("a"), None);
}

#[test]
fn the_first_member_of_a_name_counts() {
    let members = vec![
        ("a".to_string(), text("first")),
        ("a".to_string(), text("second")),
    ];
    assert_eq!(find_member(&members, "a"), Some(&text("first")));
    assert_eq!(find_member(&members, "A"), None);
}

#[test]
fn a_copy_is_the_same_document() {
    let json = read_json(b"{\"a\":[1,-2,0.25,\"x\",null,true,{\"b\":[]}]}").unwrap();
    assert_eq!(json.copy(), json);
}

#[test]
fn a_number_as_a_double() {
    assert_eq!(JsonNumber::PosInt(7).as_double(), 7.0f64.to_bits());
    assert_eq!(JsonNumber::PosInt(0).as_double(), 0.0f64.to_bits());
    assert_eq!(JsonNumber::PosInt(u64::MAX).as_double(), (u64::MAX as f64).to_bits());
    assert_eq!(JsonNumber::NegInt(-7).as_double(), (-7.0f64).to_bits());
    assert_eq!(JsonNumber::NegInt(i64::MIN).as_double(), (i64::MIN as f64).to_bits());
    assert_eq!(JsonNumber::Float(0.1f64.to_bits()).as_double(), 0.1f64.to_bits());
}

#[test]
fn a_double_as_a_document() {
    for v in [0.0, -0.0, 0.1, -2.0, 5e-324, f64::MIN_POSITIVE, f64::MAX, f64::MIN] {
        assert_eq!(Json::of_double(v.to_bits()), Json::Number(JsonNumber::Float(v.to_bits())));
    }
    for v in [f64::NAN, -f64::NAN, f64::INFINITY, f64::NEG_INFINITY] {
        assert_eq!(Json::of_double(v.to_bits()), Json::Null);
    }
}
