use std::io::Write;

use gelf_collector::compression::{CompressionManager, DecompressError};

fn gzip_bytes(data: &[u8]) -> Vec<u8> {
    let mut enc = flate2::write::GzEncoder::new(Vec::new(), flate2::Compression::default());
    enc.write_all(data).unwrap();
    enc.finish().unwrap()
}

fn zlib_bytes(data: &[u8]) -> Vec<u8> {
    let mut enc = flate2::write::ZlibEncoder::new(Vec::new(), flate2::Compression::default());
    enc.write_all(data).unwrap();
    enc.finish().unwrap()
}

#[test]
fn unrecognized_payload_passes_through_unchanged() {
    let manager = CompressionManager::new();
    let data = b"{\"host\":\"h\"}".to_vec();
    assert_eq!(manager.decompress(&data), Ok(data));
}

#[test]
fn empty_and_short_payloads_pass_through_unchanged() {
    let manager = CompressionManager::new();
    assert_eq!(manager.decompress(&[]), Ok(vec![]));
    // inputs shorter than the two magic bytes match no detector
    assert_eq!(manager.decompress(&[0x1f]), Ok(vec![0x1f]));
    assert_eq!(manager.decompress(&[0x78]), Ok(vec![0x78]));
    // two bytes that are no known magic pass through as well
    assert_eq!(manager.decompress(&[0x41, 0x42]), Ok(vec![0x41, 0x42]));
}

#[test]
fn bare_magic_is_claimed_and_its_truncated_stream_reports_an_error() {
    // exactly the two magic bytes: the detector matches, and the stream,
    // which ends right after the prefix, is truncated
    let manager = CompressionManager::new();
    assert_eq!(manager.decompress(&[0x1f, 0x8b]), Err(DecompressError::Gzip));
    assert_eq!(manager.decompress(&[0x78, 0x9c]), Err(DecompressError::Zlib));
    assert_eq!(manager.decompress(&[0x78, 0xda]), Err(DecompressError::Zlib));
    assert_eq!(manager.decompress(&[0x78, 0x01]), Err(DecompressError::Zlib));
}

#[test]
fn gzip_payload_is_inflated() {
    let manager = CompressionManager::new();
    let plain = b"a log line that should come back exactly";
    let compressed = gzip_bytes(plain);
    assert_eq!(compressed[0], 0x1f);
    assert_eq!(compressed[1], 0x8b);
    assert_eq!(manager.decompress(&compressed), Ok(plain.to_vec()));
}

#[test]
fn zlib_payload_is_inflated() {
    let manager = CompressionManager::new();
    let plain = b"another log line, zlib this time";
    let compressed = zlib_bytes(plain);
    assert_eq!(compressed[0], 0x78);
    assert_eq!(manager.decompress(&compressed), Ok(plain.to_vec()));
}

#[test]
fn corrupt_gzip_reports_gzip_error() {
    let manager = CompressionManager::new();
    let data = vec![0x1f, 0x8b, 0xff, 0x00, 0x01, 0x02];
    assert_eq!(manager.decompress(&data), Err(DecompressError::Gzip));
}

#[test]
fn truncated_gzip_reports_gzip_error() {
    let manager = CompressionManager::new();
    let mut compressed = gzip_bytes(b"some payload that will be cut short");
    compressed.truncate(compressed.len() / 2);
    assert_eq!(manager.decompress(&compressed), Err(DecompressError::Gzip));
}

#[test]
fn corrupt_zlib_reports_zlib_error() {
    let manager = CompressionManager::new();
    let data = vec![0x78, 0x9c, 0xff, 0xff, 0xff, 0xff];
    assert_eq!(manager.decompress(&data), Err(DecompressError::Zlib));
}

#[test]
fn default_manager_behaves_like_new() {
    let manager = CompressionManager::default();
    let plain = b"payload";
    let compressed = gzip_bytes(plain);
    assert_eq!(manager.decompress(&compressed), Ok(plain.to_vec()));
}

#[test]
fn error_messages_name_the_codec() {
    assert_eq!(DecompressError::Gzip.message(), "corrupt gzip payload");
    assert_eq!(DecompressError::Zlib.message(), "corrupt zlib payload");
}
