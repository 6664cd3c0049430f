//! A lightweight GELF log collector core: wire-format sniffing and
//! decompression, record parsing, a bounded in-memory store with FIFO
//! eviction, and non-blocking fan-out to live subscribers.

pub mod compression;
pub mod config;
pub mod gelf;
pub mod ingest;
pub mod interface;
pub mod json;
pub mod storage;

pub use compression::CompressionManager;
pub use config::Config;
pub use gelf::{GelfMessage, JsonGelfParser, MessageResponse, StoredMessage};
pub use interface::get_web_interface;
pub use storage::InMemoryMessageStore;
