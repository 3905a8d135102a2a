use aias_app::code::{code_from_text, get_code};
use aias_app::config::{debugging_enabled, Keys};
use aias_app::decimal::decimal_string;
use aias_app::response::{code_verified_response, id_response};

#[test]
fn decimal_of_small_numbers() {
    assert_eq!(decimal_string(0), "0");
    assert_eq!(decimal_string(7), "7");
    assert_eq!(decimal_string(10), "10");
    assert_eq!(decimal_string(109), "109");
}

#[test]
fn decimal_of_large_numbers() {
    assert_eq!(decimal_string(123456), "123456");
    assert_eq!(decimal_string(u32::MAX), "4294967295");
    for n in [1u32, 99, 100000, 999998, 1_000_000, 2_147_483_648] {
        assert_eq!(decimal_string(n), n.to_string());
    }
}

#[test]
fn get_code_reads_a_number() {
    assert_eq!(get_code(b"123456"), Ok(123456));
    assert_eq!(get_code(b" 42 "), Ok(42));
    assert_eq!(get_code(b"4294967295"), Ok(4294967295));
}

#[test]
fn get_code_refuses_other_bodies() {
    assert_eq!(get_code(b"abc"), Err("failed to parse json"));
    assert_eq!(get_code(b"-1"), Err("failed to parse json"));
    assert_eq!(get_code(b"4294967296"), Err("failed to parse json"));
    assert_eq!(get_code(b"{\"code\":1}"), Err("failed to parse json"));
    assert_eq!(get_code(b""), Err("failed to parse json"));
    assert_eq!(get_code(&[0xff, 0x31]), Err("failed to parse json"));
}

#[test]
fn code_from_text_reads_only_a_bare_number() {
    assert_eq!(code_from_text("5"), Ok(5));
    assert_eq!(code_from_text("\t\r\n 17 \n"), Ok(17));
    assert_eq!(code_from_text("0"), Ok(0));
    assert_eq!(code_from_text("007"), Err("failed to parse json"));
    assert_eq!(code_from_text("-0"), Err("failed to parse json"));
    assert_eq!(code_from_text("1.0"), Err("failed to parse json"));
    assert_eq!(code_from_text("1e2"), Err("failed to parse json"));
    assert_eq!(code_from_text("+1"), Err("failed to parse json"));
    assert_eq!(code_from_text("1 2"), Err("failed to parse json"));
    assert_eq!(code_from_text("\u{a0}1"), Err("failed to parse json"));
}

#[test]
fn verified_code_body() {
    assert_eq!(code_verified_response(3, "abcXYZ019"), "{\"id\":3,\"token\":\"abcXYZ019\"}");
    assert_eq!(code_verified_response(0, ""), "{\"id\":0,\"token\":\"\"}");
}

#[test]
fn verified_code_body_escapes() {
    assert_eq!(code_verified_response(12, "a\"b"), "{\"id\":12,\"token\":\"a\\\"b\"}");
    assert_eq!(code_verified_response(1, "a\\b\n"), "{\"id\":1,\"token\":\"a\\\\b\\n\"}");
    assert_eq!(
        code_verified_response(1, "\u{8}\t\u{c}\r\u{1}\u{1f} \u{e9}/"),
        "{\"id\":1,\"token\":\"\\b\\t\\f\\r\\u0001\\u001f \u{e9}/\"}"
    );
}

#[test]
fn verified_code_body_parses_back() {
    let body = code_verified_response(4242, "tok\"en");
    let value: serde_json::Value = serde_json::from_str(&body).unwrap();
    assert_eq!(value["id"].as_u64(), Some(4242));
    assert_eq!(value["token"].as_str(), Some("tok\"en"));
}

#[test]
fn id_body() {
    assert_eq!(id_response(42), "{\"id\":42}");
    assert_eq!(id_response(0), "{\"id\":0}");
    assert_eq!(id_response(u32::MAX), "{\"id\":4294967295}");
}

#[test]
fn debugging_switch() {
    assert!(debugging_enabled("true"));
    assert!(!debugging_enabled("True"));
    assert!(!debugging_enabled("false"));
    assert!(!debugging_enabled(""));
    assert!(!debugging_enabled("true "));
}

#[test]
fn keys_default_to_empty() {
    let k = Keys::default();
    assert_eq!(k.signer_pubkey, "");
    assert_eq!(k.signer_privkey, "");
}

#[test]
fn fresh_token_appears_verbatim_in_its_body() {
    for _ in 0..10 {
        let t = aias_app::token::new_session_token();
        assert_eq!(code_verified_response(9, &t), format!("{{\"id\":9,\"token\":\"{}\"}}", t));
    }
}
