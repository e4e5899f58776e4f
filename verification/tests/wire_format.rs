//! The serialized text itself: JSON string escaping, numbers, decimals,
//! timestamps and form encoding, each held against the crates that
//! produce the same formats.

use chrono::TimeZone;
use paystack_rs::datetime::UtcDateTime;
use paystack_rs::decimal::Decimal;
use paystack_rs::json::{push_json, push_jstr, Json};
use paystack_rs::text::{push_i128, push_u128};
use paystack_rs::urlenc::{push_form_str, QueryString};

fn jstr_of(s: &str) -> String {
    let mut out = String::new();
    push_jstr(&mut out, s);
    out
}

#[test]
fn json_string_plain() {
    assert_eq!(jstr_of("randomemail@gmail.com"), "\"randomemail@gmail.com\"");
}

#[test]
fn json_string_escapes_match_serde_json() {
    let cases = [
        "he said \"hi\"",
        "back\\slash",
        "line\nbreak\r\ttab",
        "\u{8}\u{c}",
        "control\u{1}\u{1f}end",
        "café ☕ naïve",
        "slash / stays",
        "",
    ];
    for case in cases {
        assert_eq!(jstr_of(case), serde_json::to_string(case).unwrap(), "case: {case:?}");
    }
}

#[test]
fn json_control_characters_use_lowercase_hex() {
    assert_eq!(jstr_of("\u{1b}"), "\"\\u001b\"");
    assert_eq!(jstr_of("\u{0}"), "\"\\u0000\"");
}

#[test]
fn integers_render_like_serde_json() {
    for v in [0i128, 7, -1, 10, -10, 1000000, i128::MAX, i128::MIN] {
        let mut out = String::new();
        push_i128(&mut out, v);
        assert_eq!(out, serde_json::to_string(&v).unwrap(), "value: {v}");
    }
}

#[test]
fn unsigned_integers_render_their_digits() {
    let mut out = String::new();
    push_u128(&mut out, 0);
    assert_eq!(out, "0");
    let mut out = String::new();
    push_u128(&mut out, u128::MAX);
    assert_eq!(out, u128::MAX.to_string());
}

#[test]
fn decimal_renders_fixed_point() {
    assert_eq!(Decimal { mantissa: 182, scale: 1 }.to_text(), "18.2");
    assert_eq!(Decimal { mantissa: 5, scale: 2 }.to_text(), "0.05");
    assert_eq!(Decimal { mantissa: 7, scale: 0 }.to_text(), "7");
    assert_eq!(Decimal { mantissa: 2500, scale: 2 }.to_text(), "25.00");
}

#[test]
fn decimal_matches_float_rendering_where_exact() {
    assert_eq!(Decimal { mantissa: 182, scale: 1 }.to_text(), serde_json::to_string(&18.2f64).unwrap());
    assert_eq!(Decimal { mantissa: 5, scale: 2 }.to_text(), serde_json::to_string(&0.05f64).unwrap());
}

#[test]
fn timestamp_renders_rfc3339_like_chrono() {
    let ours = UtcDateTime { year: 2016, month: 9, day: 24, hour: 0, minute: 0, second: 5 };
    let theirs = chrono::Utc.with_ymd_and_hms(2016, 9, 24, 0, 0, 5).unwrap();
    assert_eq!(
        ours.to_rfc3339(),
        theirs.to_rfc3339_opts(chrono::SecondsFormat::AutoSi, true),
    );
}

#[test]
fn timestamp_pads_every_field() {
    let d = UtcDateTime { year: 33, month: 1, day: 2, hour: 3, minute: 4, second: 5 };
    assert_eq!(d.to_rfc3339(), "0033-01-02T03:04:05Z");
}

#[test]
fn timestamp_accepts_leap_day() {
    let d = UtcDateTime { year: 2024, month: 2, day: 29, hour: 23, minute: 59, second: 59 };
    assert_eq!(d.to_rfc3339(), "2024-02-29T23:59:59Z");
}

#[test]
fn form_encoding_matches_serde_urlencoded() {
    let cases = ["a b", "x&y=z", "safe*-._09AZaz", "percent%sign", "ünïcode ☕", "+plus+"];
    for case in cases {
        let mut ours = String::new();
        push_form_str(&mut ours, case);
        let theirs = serde_urlencoded::to_string([("k", case)]).unwrap();
        assert_eq!(format!("k={ours}"), theirs, "case: {case:?}");
    }
}

#[test]
fn query_string_joins_pairs_like_serde_urlencoded() {
    let mut q = QueryString::new();
    q.pair_str("from", "2016-09-24T00:00:05Z");
    q.pair_int("perPage", 50);
    q.pair_bool("settled", true);
    let theirs = serde_urlencoded::to_string([
        ("from", "2016-09-24T00:00:05Z"),
        ("perPage", "50"),
        ("settled", "true"),
    ])
    .unwrap();
    assert_eq!(q.finish(), theirs);
}

#[test]
fn json_tree_serializes_depth_first() {
    let mut doc = String::new();
    let value = Json::Obj(vec![
        ("a".to_string(), Json::Arr(vec![Json::Int(1), Json::Null, Json::Bool(true)])),
        ("b".to_string(), Json::Str("x\"y".to_string())),
    ]);
    push_json(&mut doc, &value);
    assert_eq!(doc, "{\"a\":[1,null,true],\"b\":\"x\\\"y\"}");
    let parsed: serde_json::Value = serde_json::from_str(&doc).unwrap();
    assert_eq!(parsed["a"][0], serde_json::Value::from(1));
    assert_eq!(parsed["b"], serde_json::Value::from("x\"y"));
}

#[test]
fn empty_json_containers_serialize_bare() {
    let mut doc = String::new();
    push_json(&mut doc, &Json::Arr(vec![]));
    assert_eq!(doc, "[]");
    let mut doc = String::new();
    push_json(&mut doc, &Json::Obj(vec![]));
    assert_eq!(doc, "{}");
}
