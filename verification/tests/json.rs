use cloudfront_promoter::json::text_to_json;
use cloudfront_promoter::response::{DeployResponse, ErrorResponse};

#[test]
fn plain_text_is_quoted() {
    assert_eq!(text_to_json("Stack promovido"), "\"Stack promovido\"");
    assert_eq!(text_to_json(""), "\"\"");
    assert_eq!(text_to_json("distribución \u{7f} / \u{1f680}"), "\"distribución \u{7f} / \u{1f680}\"");
}

#[test]
fn special_characters_are_escaped() {
    assert_eq!(text_to_json("\""), r#""\"""#);
    assert_eq!(text_to_json("\\"), r#""\\""#);
    assert_eq!(text_to_json("\u{8}\t\n\u{c}\r"), r#""\b\t\n\f\r""#);
    assert_eq!(text_to_json("\u{0}\u{1}\u{b}\u{1f}"), r#""\u0000\u0001\u000b\u001f""#);
}

#[test]
fn every_ascii_character_stands_as_stated() {
    for code in 0u8..128 {
        let c = code as char;
        let inside = match c {
            '"' => "\\\"".to_string(),
            '\\' => "\\\\".to_string(),
            '\u{8}' => "\\b".to_string(),
            '\t' => "\\t".to_string(),
            '\n' => "\\n".to_string(),
            '\u{c}' => "\\f".to_string(),
            '\r' => "\\r".to_string(),
            c if (c as u32) < 0x20 => format!("\\u{:04x}", c as u32),
            c => c.to_string(),
        };
        assert_eq!(text_to_json(&c.to_string()), format!("\"{inside}\""));
    }
}

#[test]
fn json_strings_are_read_back() {
    for text in ["a\"b\\c\n", "", "ñ\u{0}", "{\"error\":\"x\"}"] {
        let read: String = serde_json::from_str(&text_to_json(text)).unwrap();
        assert_eq!(read, text);
    }
}

#[test]
fn different_texts_have_different_json() {
    assert_ne!(text_to_json("\\n"), text_to_json("\n"));
    assert_ne!(text_to_json("\\\""), text_to_json("\""));
}

#[test]
fn bodies_are_objects_with_one_member() {
    let done = DeployResponse { message: "Stack promovido".to_string() };
    assert_eq!(done.to_json(), r#"{"message":"Stack promovido"}"#);
    let failed = ErrorResponse { error: "no \"ETag\"".to_string() };
    assert_eq!(failed.to_json(), r#"{"error":"no \"ETag\""}"#);
}

#[test]
fn bodies_are_written_as_serde_json_writes_them() {
    let error = "una \"ruta\"\n\\x".to_string();
    let object = std::collections::BTreeMap::from([("error", error.clone())]);
    assert_eq!(ErrorResponse { error }.to_json(), serde_json::to_string(&object).unwrap());
    let message = "\tlisto".to_string();
    let object = std::collections::BTreeMap::from([("message", message.clone())]);
    assert_eq!(DeployResponse { message }.to_json(), serde_json::to_string(&object).unwrap());
}

#[test]
fn different_errors_have_different_bodies() {
    let one = ErrorResponse { error: "a\"".to_string() };
    let other = ErrorResponse { error: "a\\\"".to_string() };
    assert_ne!(one.to_json(), other.to_json());
}
