//! The ingestion pipeline's decision logic.
//!
//! The receive loop around the library hands each raw datagram to
//! `handle_payload`, which runs the payload through detection/decompression,
//! lossy text decoding and parsing, and on success appends to the store (which
//! publishes to its broadcaster). A payload that fails any stage is dropped
//! and counted; no failure is ever fatal to the pipeline, so the loop stays
//! live for the next payload.

use vstd::prelude::*;
use vstd::string::StringSliceAdditionalSpecFns;

use crate::compression::{sniff_decompress, CompressionManager, DecompressError};
use crate::gelf::{
    response_of, GelfMessageV, GelfParser, JsonGelfParser, ParseError, StoredMessageV,
};
use crate::storage::{append_spec, entry_v, evict_spec, InMemoryMessageStore};

verus! {

/// What lossy UTF-8 decoding yields on a byte sequence: its text, invalid
/// sequences replaced per standard Unicode replacement semantics. The result
/// depends on the bytes alone.
pub uninterp spec fn utf8_lossy(bytes: Seq<u8>) -> Seq<char>;

/// Relies on `String::from_utf8_lossy`: decoding bytes to text with invalid
/// sequences replaced is a function of the bytes alone, named `utf8_lossy`.
#[verifier::external_body]
fn bytes_to_text(bytes: &Vec<u8>) -> (r: String)
    ensures
        r@ == utf8_lossy(bytes@),
{
    String::from_utf8_lossy(bytes.as_slice()).into_owned()
}

/// Configuration of the datagram receive loop.
pub struct UdpHandlerConfig {
    /// Size of the receive buffer, an upper bound on one datagram.
    pub buffer_size: usize,
}

impl Default for UdpHandlerConfig {
    fn default() -> (r: Self)
        ensures
            r.buffer_size == 8192,
    {
        UdpHandlerConfig { buffer_size: 8192 }
    }
}

/// What became of one payload.
#[derive(Debug, Clone, Copy, PartialEq)]
pub enum IngestOutcome {
    /// Decoded, parsed and appended to the store.
    Stored,
    /// Dropped: a detector claimed the payload but its stream is corrupt.
    DecompressionFailed(DecompressError),
    /// Dropped: the decoded text is not a record object.
    ParseFailed(ParseError),
}

/// What the pipeline decides for one payload: the record and raw text to
/// append, or the reason the payload is dropped.
pub open spec fn payload_decision<P: GelfParser>(data: Seq<u8>) -> Result<
    (GelfMessageV, Seq<char>),
    IngestOutcome,
> {
    match sniff_decompress(data) {
        Err(e) => Err(IngestOutcome::DecompressionFailed(e)),
        Ok(decoded) => {
            let text = utf8_lossy(decoded);
            match P::spec_parse(text) {
                Ok(m) => Ok((m, text)),
                Err(e) => Err(IngestOutcome::ParseFailed(e)),
            }
        },
    }
}

/// The store's entries after one payload: unchanged when the payload is
/// dropped, one append (at reception time `t`) when it is accepted.
pub open spec fn step_entries<P: GelfParser>(
    entries: Seq<StoredMessageV>,
    cap: int,
    data: Seq<u8>,
    t: u64,
) -> Seq<StoredMessageV> {
    match payload_decision::<P>(data) {
        Ok((m, text)) => append_spec(entries, cap, entry_v(m, t, text)),
        Err(_) => entries,
    }
}

/// A drop counter after one more drop; pinned below `u64::MAX`.
pub open spec fn bump(c: u64) -> u64 {
    if c < u64::MAX {
        (c + 1) as u64
    } else {
        c
    }
}

/// The processing state of the ingestion pipeline: the detection stage, the
/// parser, the loop configuration, and counters of dropped payloads. The
/// transport itself (the socket and its receive loop) lives outside the
/// library and only hands datagrams in.
pub struct UdpMessageHandler<P: GelfParser> {
    compression_manager: CompressionManager,
    parser: P,
    config: UdpHandlerConfig,
    decompress_failures: u64,
    parse_failures: u64,
}

impl UdpMessageHandler<JsonGelfParser> {
    /// A pipeline with the default parser and configuration.
    pub fn new() -> (r: Self)
        ensures
            r.spec_buffer_size() == 8192,
            r.spec_decompress_failures() == 0,
            r.spec_parse_failures() == 0,
    {
        Self::with_config(UdpHandlerConfig::default())
    }

    /// A pipeline with the default parser and the given configuration.
    pub fn with_config(config: UdpHandlerConfig) -> (r: Self)
        ensures
            r.spec_buffer_size() == config.buffer_size,
            r.spec_decompress_failures() == 0,
            r.spec_parse_failures() == 0,
    {
        UdpMessageHandler {
            compression_manager: CompressionManager::new(),
            parser: JsonGelfParser,
            config,
            decompress_failures: 0,
            parse_failures: 0,
        }
    }
}

impl<P: GelfParser> UdpMessageHandler<P> {
    /// The configured receive buffer size.
    pub closed spec fn spec_buffer_size(&self) -> usize {
        self.config.buffer_size
    }

    /// How many payloads were dropped for a corrupt compressed stream.
    pub closed spec fn spec_decompress_failures(&self) -> u64 {
        self.decompress_failures
    }

    /// How many payloads were dropped for failing to parse.
    pub closed spec fn spec_parse_failures(&self) -> u64 {
        self.parse_failures
    }

    /// A pipeline around a caller-supplied parser, with the default
    /// configuration.
    pub fn with_parser(parser: P) -> (r: Self)
        ensures
            r.spec_buffer_size() == 8192,
            r.spec_decompress_failures() == 0,
            r.spec_parse_failures() == 0,
    {
        UdpMessageHandler {
            compression_manager: CompressionManager::new(),
            parser,
            config: UdpHandlerConfig::default(),
            decompress_failures: 0,
            parse_failures: 0,
        }
    }

    pub fn buffer_size(&self) -> (r: usize)
        ensures
            r == self.spec_buffer_size(),
    {
        self.config.buffer_size
    }

    pub fn decompress_failure_count(&self) -> (r: u64)
        ensures
            r == self.spec_decompress_failures(),
    {
        self.decompress_failures
    }

    pub fn parse_failure_count(&self) -> (r: u64)
        ensures
            r == self.spec_parse_failures(),
    {
        self.parse_failures
    }

    /// Truncates text for a diagnostic preview: the longest prefix of at
    /// most `max_len` bytes that ends on a character boundary, or the whole
    /// text when it already fits.
    pub fn get_safe_preview<'a>(&self, text: &'a str, max_len: usize) -> (r: &'a str)
        requires
            text.spec_bytes().len() <= usize::MAX,
        ensures
            ({
                let b = text.spec_bytes();
                if b.len() <= max_len {
                    r.spec_bytes() == b
                } else {
                    exists|n: int|
                        0 <= n <= max_len && #[trigger] vstd::utf8::is_char_boundary(b, n)
                            && r.spec_bytes() == b.subrange(0, n) && (forall|m: int|
                            n < m <= max_len ==> !vstd::utf8::is_char_boundary(b, m))
                }
            }),
    {
        if text.len() <= max_len {
            return text;
        }
        let mut end: usize = max_len;
        while end > 0 && !text.is_char_boundary(end)
            invariant
                end <= max_len,
                forall|m: int|
                    end < m <= max_len ==> !vstd::utf8::is_char_boundary(text.spec_bytes(), m),
            decreases end,
        {
            end = end - 1;
        }
        proof {
            vstd::utf8::encode_utf8_valid_utf8(text@);
            vstd::utf8::is_char_boundary_start_end_of_seq(text.spec_bytes());
            assert(vstd::utf8::is_char_boundary(text.spec_bytes(), end as int));
        }
        let (prefix, _rest) = text.split_at(end);
        prefix
    }

    /// Processes one raw datagram: decompress, decode as text, parse, and on
    /// success append to the store (which publishes to its subscribers). On
    /// any failure the payload is dropped, the matching counter advances,
    /// the store is untouched, and the pipeline is ready for the next
    /// payload — no outcome is fatal.
    pub fn handle_payload(&mut self, store: &mut InMemoryMessageStore, data: &[u8]) -> (r:
        IngestOutcome)
        requires
            old(store).wf(),
        ensures
            final(store).wf(),
            final(store).capacity() == old(store).capacity(),
            match payload_decision::<P>(data@) {
                Ok((m, text)) => r == IngestOutcome::Stored && exists|t: u64|
                    final(store).entries() == append_spec(
                        old(store).entries(),
                        old(store).capacity() as int,
                        #[trigger] entry_v(m, t, text),
                    ) && final(store).published() == old(store).published().push(
                        response_of(entry_v(m, t, text)),
                    ),
                Err(out) => r == out && final(store).entries() == old(store).entries()
                    && final(store).published() == old(store).published(),
            },
            final(self).spec_decompress_failures() == if r is DecompressionFailed {
                bump(old(self).spec_decompress_failures())
            } else {
                old(self).spec_decompress_failures()
            },
            final(self).spec_parse_failures() == if r is ParseFailed {
                bump(old(self).spec_parse_failures())
            } else {
                old(self).spec_parse_failures()
            },
            final(self).spec_buffer_size() == old(self).spec_buffer_size(),
    {
        match self.compression_manager.decompress(data) {
            Err(e) => {
                if self.decompress_failures < u64::MAX {
                    self.decompress_failures = self.decompress_failures + 1;
                }
                IngestOutcome::DecompressionFailed(e)
            },
            Ok(decoded) => {
                let text = bytes_to_text(&decoded);
                match self.parser.parse(text.as_str()) {
                    Ok(gelf) => {
                        let ghost gv = gelf@;
                        let ghost tv = text@;
                        let ghost old_entries = store.entries();
                        let ghost old_pub = store.published();
                        let ghost cap = store.capacity() as int;
                        store.add_message(gelf, text);
                        proof {
                            let t = choose|t: u64|
                                store.entries() == append_spec(
                                    old_entries,
                                    cap,
                                    #[trigger] entry_v(gv, t, tv),
                                ) && store.published() == old_pub.push(
                                    response_of(entry_v(gv, t, tv)),
                                );
                            let m = payload_decision::<P>(data@)->Ok_0.0;
                            let txt = payload_decision::<P>(data@)->Ok_0.1;
                            assert(m == gv && txt == tv);
                            assert(store.entries() == append_spec(
                                old_entries,
                                cap,
                                entry_v(m, t, txt),
                            ) && store.published() == old_pub.push(
                                response_of(entry_v(m, t, txt)),
                            ));
                            assert(exists|t2: u64|
                                store.entries() == append_spec(
                                    old_entries,
                                    cap,
                                    #[trigger] entry_v(m, t2, txt),
                                ) && store.published() == old_pub.push(
                                    response_of(entry_v(m, t2, txt)),
                                ));
                        }
                        IngestOutcome::Stored
                    },
                    Err(e) => {
                        if self.parse_failures < u64::MAX {
                            self.parse_failures = self.parse_failures + 1;
                        }
                        IngestOutcome::ParseFailed(e)
                    },
                }
            },
        }
    }
}

/// Law (round trip): a compressed payload that inflates exactly to some
/// plain bytes is decided exactly as those bytes themselves would be —
/// compressing a record changes nothing about what is parsed and stored.
/// (That a gzip or zlib compressor's output inflates back to its input is
/// the compressor's own guarantee, exercised in the tests.)
pub proof fn lemma_compressed_payload_equals_plain<P: GelfParser>(c: Seq<u8>, b: Seq<u8>)
    requires
        sniff_decompress(c) == Ok::<Seq<u8>, crate::compression::DecompressError>(b),
        sniff_decompress(b) == Ok::<Seq<u8>, crate::compression::DecompressError>(b),
    ensures
        payload_decision::<P>(c) == payload_decision::<P>(b),
{
}

/// Law (malformed payload isolation): a payload the pipeline drops leaves
/// the store's entries exactly as they were, and an accepted payload fed
/// right after lands exactly one entry — the accepted record, at the tail —
/// with the length growing by one up to the capacity.
pub proof fn lemma_malformed_payload_isolation<P: GelfParser>(
    entries: Seq<StoredMessageV>,
    cap: int,
    bad: Seq<u8>,
    good: Seq<u8>,
    t1: u64,
    t2: u64,
)
    requires
        cap >= 1,
        entries.len() <= cap,
        payload_decision::<P>(bad) is Err,
        payload_decision::<P>(good) is Ok,
    ensures
        ({
            let (m, text) = payload_decision::<P>(good)->Ok_0;
            let after = step_entries::<P>(step_entries::<P>(entries, cap, bad, t1), cap, good, t2);
            &&& after == append_spec(entries, cap, entry_v(m, t2, text))
            &&& after.len() == if entries.len() + 1 <= cap {
                entries.len() + 1
            } else {
                cap as nat
            }
            &&& after.last() == entry_v(m, t2, text)
        }),
{
    let (m, text) = payload_decision::<P>(good)->Ok_0;
    let pushed = entries.push(entry_v(m, t2, text));
    assert(step_entries::<P>(entries, cap, bad, t1) == entries);
    if pushed.len() > cap {
        assert(evict_spec(pushed, cap).len() == cap);
        assert(evict_spec(pushed, cap).last() == pushed.last());
    }
}

} // verus!
