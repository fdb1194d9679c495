use opcua_session::address::{parse_node_id, Identifier};
use opcua_session::constants::{
    build_node_id, build_node_id_string, WagoNodeType, WAGO_BOLEANO_TEST, WAGO_ENTERO_TEST,
    WAGO_REAL_TEST, WAGO_STRING_TEST, WAGO_VECTOR_BOOL, WAGO_VECTOR_INT, WAGO_VECTOR_WORD,
    WAGO_WORD_TEST,
};
use opcua_session::http_api::{status_response, wago_write_command, WagoWriteError, WagoWritePayload};
use opcua_session::reactions::{derive_vector_reactions, wago_cycle_writes};
use opcua_session::strings::{str_contains, str_eq, u32_to_decimal};
use opcua_session::value::{status_is_bad, Value};

fn empty_payload() -> WagoWritePayload {
    WagoWritePayload {
        as_bool: None,
        as_unsigned: None,
        as_signed: None,
        real_bits: None,
        as_text: None,
    }
}

#[test]
fn decimal_rendering_exact() {
    assert_eq!(u32_to_decimal(0), "0");
    assert_eq!(u32_to_decimal(7), "7");
    assert_eq!(u32_to_decimal(1234567890), "1234567890");
    assert_eq!(u32_to_decimal(u32::MAX), "4294967295");
}

#[test]
fn node_id_builders_exact() {
    assert_eq!(build_node_id(3), "ns=4;i=3");
    assert_eq!(build_node_id(1234), "ns=4;i=1234");
    assert_eq!(build_node_id_string("Motor.Speed"), "ns=4;s=Motor.Speed");
}

#[test]
fn parser_accepts_numeric_ids() {
    let a = parse_node_id("ns=4;i=3").expect("well-formed");
    assert_eq!(a.namespace, 4);
    assert_eq!(a.identifier, Identifier::Numeric(3));
    let b = parse_node_id("ns=0;i=4294967295").expect("largest numeric id");
    assert_eq!(b.namespace, 0);
    assert_eq!(b.identifier, Identifier::Numeric(4294967295));
}

#[test]
fn parser_accepts_string_ids() {
    let a = parse_node_id(WAGO_VECTOR_BOOL).expect("well-formed");
    assert_eq!(a.namespace, 4);
    assert_eq!(
        a.identifier,
        Identifier::Text(String::from("|var|WAGO TEST.Application.DB_OPC.VectorBool"))
    );
}

#[test]
fn parser_round_trips_builders() {
    let a = parse_node_id(&build_node_id(77)).expect("built ids parse");
    assert_eq!(a.namespace, 4);
    assert_eq!(a.identifier, Identifier::Numeric(77));
    let b = parse_node_id(&build_node_id_string("Tag")).expect("built ids parse");
    assert_eq!(b.identifier, Identifier::Text(String::from("Tag")));
}

#[test]
fn parser_rejects_malformed_ids() {
    for bad in [
        "",
        "ns=",
        "ns=;i=3",
        "n=4;i=3",
        "ns=4",
        "ns=4;",
        "ns=4;i=",
        "ns=4;x=3",
        "ns=4;s=",
        "ns=4i=3",
        "ns=65536;i=3",
        "ns=4;i=4294967296",
        "ns=4;i=12a",
        "xs=4;i=3",
    ] {
        assert!(parse_node_id(bad).is_none(), "{:?} should be rejected", bad);
    }
}

#[test]
fn substring_search_matches_std() {
    assert!(str_contains("ns=4;s=VectorBool", "VectorBool"));
    assert!(str_contains("abc", ""));
    assert!(!str_contains("", "a"));
    assert!(!str_contains("VectorBoo", "VectorBool"));
    assert!(str_contains("aaab", "aab"));
    assert!(!str_contains("acab", "aab"));
}

#[test]
fn string_equality_is_exact() {
    assert!(str_eq("word", "word"));
    assert!(!str_eq("word", "word "));
    assert!(!str_eq("word", "Word"));
    assert!(str_eq("", ""));
}

#[test]
fn wago_kind_classification() {
    assert!(matches!(
        WagoNodeType::from_node_id(WAGO_BOLEANO_TEST),
        Some(WagoNodeType::BoleanoTest)
    ));
    assert!(matches!(
        WagoNodeType::from_node_id(WAGO_VECTOR_WORD),
        Some(WagoNodeType::VectorWord)
    ));
    assert!(matches!(
        WagoNodeType::from_node_id("ns=4;s=Other.EnteroTest"),
        Some(WagoNodeType::EnteroTest)
    ));
    assert!(WagoNodeType::from_node_id("ns=4;i=3").is_none());
}

#[test]
fn wago_kind_first_marker_wins() {
    // The markers are tried in a fixed order, so a node id holding several
    // is classified by the earliest one.
    assert!(matches!(
        WagoNodeType::from_node_id("ns=4;s=VectorBool.BoleanoTest"),
        Some(WagoNodeType::BoleanoTest)
    ));
    assert!(matches!(
        WagoNodeType::from_node_id("ns=4;s=VectorWord.VectorInt"),
        Some(WagoNodeType::VectorInt)
    ));
}

#[test]
fn wago_kind_node_ids_and_labels() {
    assert_eq!(WagoNodeType::BoleanoTest.node_id(), WAGO_BOLEANO_TEST);
    assert_eq!(WagoNodeType::VectorInt.node_id(), WAGO_VECTOR_INT);
    assert_eq!(WagoNodeType::WordTest.label(), "WordTest");
    assert_eq!(WagoNodeType::VectorBool.label(), "VectorBool");
}

#[test]
fn status_codes_follow_severity_bit() {
    assert!(!status_is_bad(0));
    assert!(!status_is_bad(0x4000_0000));
    assert!(status_is_bad(0x8000_0000));
    assert!(status_is_bad(0x8035_0000));
}

#[test]
fn status_answer_shape() {
    let r = status_response(true);
    assert_eq!(r.status, "OK");
    assert_eq!(r.service, "API-Greenex-Rust");
    assert!(r.opcua.connected);
    assert!(!status_response(false).opcua.connected);
}

#[test]
fn external_write_maps_each_variable() {
    let mut p = empty_payload();
    p.as_bool = Some(true);
    let (nid, v) = wago_write_command("boleano", p).expect("boolean accepted");
    assert_eq!(nid, WAGO_BOLEANO_TEST);
    assert_eq!(v, Value::Boolean(true));

    let mut p = empty_payload();
    p.as_unsigned = Some(200);
    let (_, v) = wago_write_command("byte", p).expect("byte accepted");
    assert_eq!(v, Value::Byte(200));

    let mut p = empty_payload();
    p.as_signed = Some(-5);
    let (nid, v) = wago_write_command("entero", p).expect("integer accepted");
    assert_eq!(nid, WAGO_ENTERO_TEST);
    assert_eq!(v, Value::Int16(-5));

    let mut p = empty_payload();
    p.real_bits = Some(2.5f32.to_bits());
    let (nid, v) = wago_write_command("real", p).expect("real accepted");
    assert_eq!(nid, WAGO_REAL_TEST);
    assert_eq!(v, Value::Float32Bits(2.5f32.to_bits()));

    let mut p = empty_payload();
    p.as_text = Some(String::from("hola"));
    let (nid, v) = wago_write_command("string", p).expect("string accepted");
    assert_eq!(nid, WAGO_STRING_TEST);
    assert_eq!(v, Value::Text(String::from("hola")));

    let mut p = empty_payload();
    p.as_unsigned = Some(40000);
    let (nid, v) = wago_write_command("word", p).expect("word accepted");
    assert_eq!(nid, WAGO_WORD_TEST);
    assert_eq!(v, Value::UInt16(40000));
}

#[test]
fn external_write_rejections() {
    assert_eq!(
        wago_write_command("volts", empty_payload()),
        Err(WagoWriteError::UnknownVariable)
    );
    assert_eq!(
        wago_write_command("boleano", empty_payload()),
        Err(WagoWriteError::ExpectedBoolean)
    );
    assert_eq!(
        wago_write_command("byte", empty_payload()),
        Err(WagoWriteError::ExpectedNumber)
    );
    assert_eq!(
        wago_write_command("entero", empty_payload()),
        Err(WagoWriteError::ExpectedInteger)
    );
    assert_eq!(
        wago_write_command("string", empty_payload()),
        Err(WagoWriteError::ExpectedString)
    );
    let mut p = empty_payload();
    p.as_unsigned = Some(256);
    assert_eq!(wago_write_command("byte", p), Err(WagoWriteError::ByteOutOfRange));
    let mut p = empty_payload();
    p.as_signed = Some(40000);
    assert_eq!(wago_write_command("entero", p), Err(WagoWriteError::IntOutOfRange));
    let mut p = empty_payload();
    p.as_unsigned = Some(70000);
    assert_eq!(wago_write_command("word", p), Err(WagoWriteError::WordOutOfRange));
}

#[test]
fn vector_bool_reaction_negates_first() {
    let v = Value::Array(vec![Value::Boolean(true), Value::Boolean(false)]);
    let out = derive_vector_reactions(WAGO_VECTOR_BOOL, &v);
    assert_eq!(out.len(), 1);
    assert_eq!(out[0].node_id, WAGO_BOLEANO_TEST);
    assert_eq!(out[0].value, Value::Boolean(false));
}

#[test]
fn vector_int_reaction_wraps() {
    let v = Value::Array(vec![Value::Int16(5)]);
    let out = derive_vector_reactions(WAGO_VECTOR_INT, &v);
    assert_eq!(out.len(), 1);
    assert_eq!(out[0].node_id, WAGO_ENTERO_TEST);
    assert_eq!(out[0].value, Value::Int16(6));
    let v = Value::Array(vec![Value::Int16(i16::MAX)]);
    let out = derive_vector_reactions(WAGO_VECTOR_INT, &v);
    assert_eq!(out[0].value, Value::Int16(i16::MIN));
}

#[test]
fn vector_word_reaction_writes_word_and_string() {
    let v = Value::Array(vec![Value::UInt16(7)]);
    let out = derive_vector_reactions(WAGO_VECTOR_WORD, &v);
    assert_eq!(out.len(), 2);
    assert_eq!(out[0].node_id, WAGO_WORD_TEST);
    assert_eq!(out[0].value, Value::UInt16(17));
    assert_eq!(out[1].node_id, WAGO_STRING_TEST);
    assert_eq!(out[1].value, Value::Text(String::from("Word_7")));
    let v = Value::Array(vec![Value::UInt16(65530)]);
    let out = derive_vector_reactions(WAGO_VECTOR_WORD, &v);
    assert_eq!(out[0].value, Value::UInt16(4));
    assert_eq!(out[1].value, Value::Text(String::from("Word_65530")));
}

#[test]
fn vector_reaction_ignores_wrong_shapes() {
    assert!(derive_vector_reactions(WAGO_VECTOR_BOOL, &Value::Byte(1)).is_empty());
    assert!(derive_vector_reactions(WAGO_VECTOR_BOOL, &Value::Array(vec![])).is_empty());
    let v = Value::Array(vec![Value::Byte(1)]);
    assert!(derive_vector_reactions(WAGO_VECTOR_INT, &v).is_empty());
    assert!(derive_vector_reactions("ns=4;i=2", &Value::Boolean(true)).is_empty());
}

#[test]
fn cycle_writes_derive_from_timestamp() {
    let bits = 10.0f32.to_bits();
    let out = wago_cycle_writes(1000, bits);
    assert_eq!(out.len(), 6);
    assert_eq!(out[0].node_id, WAGO_BOLEANO_TEST);
    assert_eq!(out[0].value, Value::Boolean(true));
    assert_eq!(out[1].value, Value::Byte(232));
    assert_eq!(out[2].value, Value::Int16(1000));
    assert_eq!(out[3].node_id, WAGO_REAL_TEST);
    assert_eq!(out[3].value, Value::Float32Bits(bits));
    assert_eq!(out[4].value, Value::Text(String::from("LoopTest-0")));
    assert_eq!(out[5].node_id, WAGO_WORD_TEST);
    assert_eq!(out[5].value, Value::UInt16(1000));
}
