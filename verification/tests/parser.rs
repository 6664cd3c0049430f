use gelf_collector::gelf::{FieldKind, GelfParser, ParseError};
use gelf_collector::json::JsonValue;
use gelf_collector::JsonGelfParser;

#[test]
fn builtin_fields_are_set_and_unknown_fields_preserved() {
    let parser = JsonGelfParser;
    let payload = "{\"version\":\"1.1\",\"host\":\"h\",\"short_message\":\"m\",\"_custom\":\"x\"}";
    let record = parser.parse(payload).unwrap();
    assert_eq!(record.version, Some("1.1".to_string()));
    assert_eq!(record.host, Some("h".to_string()));
    assert_eq!(record.short_message, Some("m".to_string()));
    assert_eq!(record.full_message, None);
    assert_eq!(record.timestamp, None);
    assert_eq!(record.level, None);
    assert_eq!(
        record.additional_fields,
        vec![("_custom".to_string(), JsonValue::Str("x".to_string()))]
    );
}

#[test]
fn missing_fields_never_reject_a_record() {
    let parser = JsonGelfParser;
    let record = parser.parse("{}").unwrap();
    assert_eq!(record.version, None);
    assert_eq!(record.host, None);
    assert_eq!(record.short_message, None);
    assert_eq!(record.additional_fields, vec![]);
}

#[test]
fn invalid_syntax_is_a_syntax_error() {
    let parser = JsonGelfParser;
    let r = parser.parse("this is not json");
    assert!(matches!(r, Err(ParseError::Syntax { .. })));
    let r = parser.parse("{\"host\":");
    assert!(matches!(r, Err(ParseError::Syntax { .. })));
}

#[test]
fn non_object_top_level_is_rejected() {
    let parser = JsonGelfParser;
    assert_eq!(parser.parse("[1,2,3]"), Err(ParseError::NotObject));
    assert_eq!(parser.parse("42"), Err(ParseError::NotObject));
    assert_eq!(parser.parse("\"text\""), Err(ParseError::NotObject));
    assert_eq!(parser.parse("null"), Err(ParseError::NotObject));
}

#[test]
fn level_accepts_small_integers() {
    let parser = JsonGelfParser;
    let record = parser.parse("{\"level\":3}").unwrap();
    assert_eq!(record.level, Some(3));
    let record = parser.parse("{\"level\":255}").unwrap();
    assert_eq!(record.level, Some(255));
    let record = parser.parse("{\"level\":null}").unwrap();
    assert_eq!(record.level, None);
}

#[test]
fn level_rejects_wrong_shapes() {
    let parser = JsonGelfParser;
    assert_eq!(
        parser.parse("{\"level\":256}"),
        Err(ParseError::BadField(FieldKind::Level))
    );
    assert_eq!(
        parser.parse("{\"level\":3.5}"),
        Err(ParseError::BadField(FieldKind::Level))
    );
    assert_eq!(
        parser.parse("{\"level\":-1}"),
        Err(ParseError::BadField(FieldKind::Level))
    );
    assert_eq!(
        parser.parse("{\"level\":\"3\"}"),
        Err(ParseError::BadField(FieldKind::Level))
    );
}

#[test]
fn line_accepts_integers_up_to_u32() {
    let parser = JsonGelfParser;
    let record = parser.parse("{\"line\":4294967295}").unwrap();
    assert_eq!(record.line, Some(4294967295));
    assert_eq!(
        parser.parse("{\"line\":4294967296}"),
        Err(ParseError::BadField(FieldKind::Line))
    );
}

#[test]
fn string_fields_reject_non_strings() {
    let parser = JsonGelfParser;
    assert_eq!(
        parser.parse("{\"version\":42}"),
        Err(ParseError::BadField(FieldKind::Version))
    );
    assert_eq!(
        parser.parse("{\"host\":[]}"),
        Err(ParseError::BadField(FieldKind::Host))
    );
    assert_eq!(
        parser.parse("{\"file\":true}"),
        Err(ParseError::BadField(FieldKind::File))
    );
}

#[test]
fn timestamp_keeps_the_number_text_verbatim() {
    let parser = JsonGelfParser;
    let record = parser.parse("{\"timestamp\":1234567890.123}").unwrap();
    assert_eq!(record.timestamp, Some("1234567890.123".to_string()));
    let record = parser.parse("{\"timestamp\":1700000000}").unwrap();
    assert_eq!(record.timestamp, Some("1700000000".to_string()));
    assert_eq!(
        parser.parse("{\"timestamp\":\"soon\"}"),
        Err(ParseError::BadField(FieldKind::Timestamp))
    );
}

#[test]
fn nested_values_are_kept_as_their_json_text() {
    let parser = JsonGelfParser;
    let record = parser.parse("{\"_obj\":{\"a\":1},\"_arr\":[1,2]}").unwrap();
    assert_eq!(
        record.additional_fields,
        vec![
            ("_arr".to_string(), JsonValue::Composite("[1,2]".to_string())),
            ("_obj".to_string(), JsonValue::Composite("{\"a\":1}".to_string())),
        ]
    );
}

#[test]
fn additional_scalar_shapes_are_preserved() {
    let parser = JsonGelfParser;
    let record = parser
        .parse("{\"_b\":true,\"_n\":null,\"_num\":2.5,\"_s\":\"v\"}")
        .unwrap();
    assert_eq!(
        record.additional_fields,
        vec![
            ("_b".to_string(), JsonValue::Bool(true)),
            ("_n".to_string(), JsonValue::Null),
            ("_num".to_string(), JsonValue::Num("2.5".to_string())),
            ("_s".to_string(), JsonValue::Str("v".to_string())),
        ]
    );
}

#[test]
fn null_named_fields_leave_the_record_unset() {
    let parser = JsonGelfParser;
    let record = parser
        .parse("{\"version\":null,\"host\":null,\"timestamp\":null,\"line\":null}")
        .unwrap();
    assert_eq!(record.version, None);
    assert_eq!(record.host, None);
    assert_eq!(record.timestamp, None);
    assert_eq!(record.line, None);
    assert_eq!(record.additional_fields, vec![]);
}

#[test]
fn facility_and_full_message_are_parsed() {
    let parser = JsonGelfParser;
    let record = parser
        .parse("{\"facility\":\"auth\",\"full_message\":\"the whole story\",\"file\":\"a.c\"}")
        .unwrap();
    assert_eq!(record.facility, Some("auth".to_string()));
    assert_eq!(record.full_message, Some("the whole story".to_string()));
    assert_eq!(record.file, Some("a.c".to_string()));
}
