use std::io::Write;

use gelf_collector::compression::DecompressError;
use gelf_collector::gelf::{GelfParser, ParseError};
use gelf_collector::ingest::{IngestOutcome, UdpHandlerConfig, UdpMessageHandler};
use gelf_collector::{GelfMessage, InMemoryMessageStore, JsonGelfParser};

fn gzip_bytes(data: &[u8]) -> Vec<u8> {
    let mut enc = flate2::write::GzEncoder::new(Vec::new(), flate2::Compression::default());
    enc.write_all(data).unwrap();
    enc.finish().unwrap()
}

fn zlib_bytes(data: &[u8]) -> Vec<u8> {
    let mut enc = flate2::write::ZlibEncoder::new(Vec::new(), flate2::Compression::default());
    enc.write_all(data).unwrap();
    enc.finish().unwrap()
}

#[test]
fn gzip_round_trip_equals_parsing_the_plain_text() {
    let parser = JsonGelfParser;
    let payload = "{\"version\":\"1.1\",\"host\":\"h\",\"short_message\":\"m\",\"_custom\":\"x\"}";
    let direct = parser.parse(payload).unwrap();

    let mut handler = UdpMessageHandler::new();
    let mut store = InMemoryMessageStore::new(10);
    let outcome = handler.handle_payload(&mut store, &gzip_bytes(payload.as_bytes()));
    assert_eq!(outcome, IngestOutcome::Stored);
    let got = store.get_messages(None);
    assert_eq!(got.len(), 1);
    assert_eq!(got[0].gelf_message, direct);

    let outcome = handler.handle_payload(&mut store, payload.as_bytes());
    assert_eq!(outcome, IngestOutcome::Stored);
    let got = store.get_messages(None);
    assert_eq!(got[0].gelf_message, got[1].gelf_message);
}

#[test]
fn zlib_round_trip_equals_parsing_the_plain_text() {
    let parser = JsonGelfParser;
    let payload = "{\"host\":\"h\",\"level\":4,\"_tag\":\"t\"}";
    let direct = parser.parse(payload).unwrap();

    let mut handler = UdpMessageHandler::new();
    let mut store = InMemoryMessageStore::new(10);
    let outcome = handler.handle_payload(&mut store, &zlib_bytes(payload.as_bytes()));
    assert_eq!(outcome, IngestOutcome::Stored);
    assert_eq!(store.get_messages(None)[0].gelf_message, direct);
}

#[test]
fn malformed_payload_is_isolated_and_the_pipeline_stays_live() {
    let mut handler = UdpMessageHandler::new();
    let mut store = InMemoryMessageStore::new(10);

    let outcome = handler.handle_payload(&mut store, b"not json at all");
    assert!(matches!(
        outcome,
        IngestOutcome::ParseFailed(ParseError::Syntax { .. })
    ));
    assert_eq!(store.get_stats().total_messages, 0);
    assert_eq!(handler.parse_failure_count(), 1);

    let outcome = handler.handle_payload(&mut store, b"{\"host\":\"h\"}");
    assert_eq!(outcome, IngestOutcome::Stored);
    assert_eq!(store.get_stats().total_messages, 1);
    let mut expected = GelfMessage::empty();
    expected.host = Some("h".to_string());
    assert_eq!(store.get_messages(None)[0].gelf_message, expected);
    assert_eq!(handler.parse_failure_count(), 1);
    assert_eq!(handler.decompress_failure_count(), 0);
}

#[test]
fn corrupt_compressed_payload_is_dropped_and_counted() {
    let mut handler = UdpMessageHandler::new();
    let mut store = InMemoryMessageStore::new(10);
    let outcome = handler.handle_payload(&mut store, &[0x1f, 0x8b, 0xff, 0x00]);
    assert_eq!(
        outcome,
        IngestOutcome::DecompressionFailed(DecompressError::Gzip)
    );
    assert_eq!(store.get_stats().total_messages, 0);
    assert_eq!(handler.decompress_failure_count(), 1);
    assert_eq!(handler.parse_failure_count(), 0);
}

#[test]
fn raw_decoded_text_is_retained_on_the_stored_entry() {
    let mut handler = UdpMessageHandler::new();
    let mut store = InMemoryMessageStore::new(10);
    let payload = "{\"short_message\":\"hello\"}";
    handler.handle_payload(&mut store, &gzip_bytes(payload.as_bytes()));
    // the store keeps the decoded text, not the compressed bytes; the
    // snapshot projection hides it, so check through the parse result
    let got = store.get_messages(None);
    assert_eq!(
        got[0].gelf_message.short_message,
        Some("hello".to_string())
    );
}

#[test]
fn invalid_utf8_is_replaced_not_fatal() {
    let mut handler = UdpMessageHandler::new();
    let mut store = InMemoryMessageStore::new(10);
    // 0xff cannot appear in UTF-8; lossy decoding turns it into U+FFFD and
    // the payload parses as a record whose host holds the replacement char
    let mut payload = b"{\"host\":\"h".to_vec();
    payload.push(0xff);
    payload.extend_from_slice(b"\"}");
    let outcome = handler.handle_payload(&mut store, &payload);
    assert_eq!(outcome, IngestOutcome::Stored);
    let mut expected = String::from("h");
    expected.push(char::from_u32(0xFFFD).unwrap());
    assert_eq!(
        store.get_messages(None)[0].gelf_message.host,
        Some(expected)
    );
}

#[test]
fn pipeline_builders_expose_the_buffer_size() {
    let handler = UdpMessageHandler::new();
    assert_eq!(handler.buffer_size(), 8192);
    let handler = UdpMessageHandler::with_config(UdpHandlerConfig { buffer_size: 512 });
    assert_eq!(handler.buffer_size(), 512);
    let handler = UdpMessageHandler::with_parser(JsonGelfParser);
    assert_eq!(handler.buffer_size(), 8192);
    assert_eq!(UdpHandlerConfig::default().buffer_size, 8192);
}

#[test]
fn safe_preview_respects_character_boundaries() {
    let handler = UdpMessageHandler::new();
    // short text comes back whole
    assert_eq!(handler.get_safe_preview("hello", 10), "hello");
    assert_eq!(handler.get_safe_preview("hello", 5), "hello");
    // plain truncation on an ASCII boundary
    assert_eq!(handler.get_safe_preview("hello", 4), "hell");
    // U+00E9 takes two bytes; a cut inside it backs up to the boundary
    let text = "h\u{e9}llo";
    assert_eq!(handler.get_safe_preview(text, 2), "h");
    assert_eq!(handler.get_safe_preview(text, 3), "h\u{e9}");
    // a limit of zero yields an empty preview
    assert_eq!(handler.get_safe_preview("hello", 0), "");
}

#[test]
fn config_defaults_match_the_documented_values() {
    let c = gelf_collector::Config::default();
    assert_eq!(c.udp_port, 12201);
    assert_eq!(c.http_port, 8080);
    assert_eq!(c.max_messages, 10000);
    assert_eq!(c.bind_address, "0.0.0.0".to_string());
}

#[test]
fn web_interface_page_is_served() {
    let page = gelf_collector::get_web_interface();
    assert!(page.starts_with("<!DOCTYPE html>"));
    assert!(page.contains("GELF Log Viewer"));
    // the page is one constant document
    assert_eq!(page, gelf_collector::get_web_interface());
}
