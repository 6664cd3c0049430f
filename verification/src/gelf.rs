//! The canonical log record and its parser.
//!
//! A record is a single JSON object. Every named field is optional: a record
//! is rejected only when the payload is not a JSON object at all, or when a
//! named field is present with a value of the wrong shape. Unrecognized keys
//! are folded, in order, into the open `additional_fields` list and preserved
//! verbatim.

use vstd::prelude::*;

use crate::json::{
    json_doc, pairs_view, parse_json_object, JsonDoc, JsonFault, JsonValue, JsonValueV,
};

verus! {

/// One log event. All named fields are optional; timestamps are kept as the
/// decoder's canonical decimal text of the JSON number.
#[derive(Debug, PartialEq)]
pub struct GelfMessage {
    pub version: Option<String>,
    pub host: Option<String>,
    pub short_message: Option<String>,
    pub full_message: Option<String>,
    /// Originating time, seconds since the epoch, possibly fractional; the
    /// decoder's canonical decimal text of the number.
    pub timestamp: Option<String>,
    /// Severity, by convention 0 through 7; any value of the integer type is
    /// accepted as-is.
    pub level: Option<u8>,
    pub facility: Option<String>,
    pub line: Option<u32>,
    pub file: Option<String>,
    /// Every key that is not one of the named fields, in the decoder's
    /// order (sorted by key).
    pub additional_fields: Vec<(String, JsonValue)>,
}

/// The mathematical shape of a `GelfMessage`.
pub struct GelfMessageV {
    pub version: Option<Seq<char>>,
    pub host: Option<Seq<char>>,
    pub short_message: Option<Seq<char>>,
    pub full_message: Option<Seq<char>>,
    pub timestamp: Option<Seq<char>>,
    pub level: Option<u8>,
    pub facility: Option<Seq<char>>,
    pub line: Option<u32>,
    pub file: Option<Seq<char>>,
    pub additional_fields: Seq<(Seq<char>, JsonValueV)>,
}

/// The shape of an optional string.
pub open spec fn opt_str_view(o: Option<String>) -> Option<Seq<char>> {
    match o {
        Some(s) => Some(s@),
        None => None,
    }
}

impl View for GelfMessage {
    type V = GelfMessageV;

    open spec fn view(&self) -> GelfMessageV {
        GelfMessageV {
            version: opt_str_view(self.version),
            host: opt_str_view(self.host),
            short_message: opt_str_view(self.short_message),
            full_message: opt_str_view(self.full_message),
            timestamp: opt_str_view(self.timestamp),
            level: self.level,
            facility: opt_str_view(self.facility),
            line: self.line,
            file: opt_str_view(self.file),
            additional_fields: pairs_view(self.additional_fields@),
        }
    }
}

/// The record with every field absent.
pub open spec fn empty_record() -> GelfMessageV {
    GelfMessageV {
        version: None,
        host: None,
        short_message: None,
        full_message: None,
        timestamp: None,
        level: None,
        facility: None,
        line: None,
        file: None,
        additional_fields: Seq::empty(),
    }
}

fn clone_opt_string(o: &Option<String>) -> (r: Option<String>)
    ensures
        opt_str_view(r) == opt_str_view(*o),
{
    match o {
        Some(s) => Some(s.clone()),
        None => None,
    }
}

fn clone_pairs(ps: &Vec<(String, JsonValue)>) -> (r: Vec<(String, JsonValue)>)
    ensures
        pairs_view(r@) == pairs_view(ps@),
{
    let mut out: Vec<(String, JsonValue)> = Vec::new();
    let n = ps.len();
    let mut i: usize = 0;
    while i < n
        invariant
            i <= n,
            n == ps@.len(),
            out@.len() == i,
            forall|j: int| 0 <= j < i ==> (#[trigger] out@[j]).0@ == ps@[j].0@ && out@[j].1@
                == ps@[j].1@,
        decreases n - i,
    {
        let k = ps[i].0.clone();
        let v = ps[i].1.clone();
        out.push((k, v));
        i = i + 1;
    }
    proof {
        assert(pairs_view(out@) =~= pairs_view(ps@));
    }
    out
}

impl Clone for GelfMessage {
    fn clone(&self) -> (r: Self)
        ensures
            r@ == self@,
    {
        GelfMessage {
            version: clone_opt_string(&self.version),
            host: clone_opt_string(&self.host),
            short_message: clone_opt_string(&self.short_message),
            full_message: clone_opt_string(&self.full_message),
            timestamp: clone_opt_string(&self.timestamp),
            level: self.level,
            facility: clone_opt_string(&self.facility),
            line: self.line,
            file: clone_opt_string(&self.file),
            additional_fields: clone_pairs(&self.additional_fields),
        }
    }
}

impl GelfMessage {
    /// A record with every field absent.
    pub fn empty() -> (r: Self)
        ensures
            r@ == empty_record(),
    {
        let r = GelfMessage {
            version: None,
            host: None,
            short_message: None,
            full_message: None,
            timestamp: None,
            level: None,
            facility: None,
            line: None,
            file: None,
            additional_fields: Vec::new(),
        };
        proof {
            assert(r@.additional_fields =~= empty_record().additional_fields);
        }
        r
    }
}

/// The named field whose value had the wrong shape.
#[derive(Debug, Clone, Copy, PartialEq, Eq)]
pub enum FieldKind {
    Version,
    Host,
    ShortMessage,
    FullMessage,
    Timestamp,
    Level,
    Facility,
    Line,
    File,
}

/// Why a payload was rejected by the parser. Missing fields are never a
/// reason: only malformed top-level structure or a named field of the wrong
/// shape.
#[derive(Debug, Clone, Copy, PartialEq, Eq)]
pub enum ParseError {
    /// Not valid JSON; the position comes from the decoder.
    Syntax { line: usize, column: usize },
    /// Valid JSON whose top level is not an object.
    NotObject,
    /// A named field is present with a value of the wrong shape.
    BadField(FieldKind),
}

/// Every character is a decimal digit.
pub open spec fn all_digits(s: Seq<char>) -> bool {
    forall|i: int| 0 <= i < s.len() ==> '0' <= #[trigger] s[i] <= '9'
}

/// The value of a decimal digit string.
pub open spec fn digits_val(s: Seq<char>) -> int
    decreases s.len(),
{
    if s.len() == 0 {
        0
    } else {
        digits_val(s.drop_last()) * 10 + (s.last() as int - '0' as int)
    }
}

/// A non-empty digit string whose value is at most `max`: the shape the
/// integer fields `level` and `line` accept.
pub open spec fn is_uint_text(s: Seq<char>, max: int) -> bool {
    s.len() > 0 && all_digits(s) && digits_val(s) <= max
}

proof fn lemma_digits_val_nonneg(s: Seq<char>)
    requires
        all_digits(s),
    ensures
        digits_val(s) >= 0,
    decreases s.len(),
{
    if s.len() > 0 {
        lemma_digits_val_nonneg(s.drop_last());
    }
}

proof fn lemma_digits_val_prefix(s: Seq<char>, i: int)
    requires
        all_digits(s),
        0 <= i <= s.len(),
    ensures
        digits_val(s.take(i)) <= digits_val(s),
    decreases s.len() - i,
{
    if i < s.len() {
        assert(s.take(i + 1).drop_last() =~= s.take(i));
        assert(forall|j: int| 0 <= j < i ==> s.take(i)[j] == s[j]);
        lemma_digits_val_nonneg(s.take(i));
        assert(digits_val(s.take(i + 1)) == digits_val(s.take(i)) * 10 + (s[i] as int
            - '0' as int));
        lemma_digits_val_prefix(s, i + 1);
    } else {
        assert(s.take(i) =~= s);
    }
}

/// Reads a non-empty all-digit string as an integer, rejecting values above
/// `max`.
fn parse_uint_text(s: &String, max: u64) -> (r: Option<u64>)
    requires
        max <= 0xFFFF_FFFFu64,
    ensures
        match r {
            Some(v) => is_uint_text(s@, max as int) && v == digits_val(s@),
            None => !is_uint_text(s@, max as int),
        },
{
    let st: &str = s.as_str();
    if !st.is_ascii() {
        proof {
            let i = choose|i: int| 0 <= i < s@.len() && !('\0' <= #[trigger] s@[i] <= '\u{7f}');
            assert(!('0' <= s@[i] <= '9'));
        }
        return None;
    }
    let b: &[u8] = st.as_bytes();
    proof {
        vstd::string::is_ascii_spec_bytes(st);
        assert(b@.len() == s@.len());
        assert(forall|j: int| 0 <= j < s@.len() ==> b@[j] == #[trigger] s@[j] as u8);
    }
    if b.len() == 0 {
        return None;
    }
    let n = b.len();
    let mut acc: u64 = 0;
    let mut i: usize = 0;
    while i < n
        invariant
            i <= n,
            n == b@.len(),
            b@.len() == s@.len(),
            vstd::string::is_ascii(st),
            st@ == s@,
            forall|j: int| 0 <= j < s@.len() ==> b@[j] == #[trigger] s@[j] as u8,
            forall|j: int| 0 <= j < i ==> '0' <= #[trigger] s@[j] <= '9',
            acc == digits_val(s@.take(i as int)),
            acc <= max,
            max <= 0xFFFF_FFFFu64,
        decreases n - i,
    {
        let d = b[i];
        proof {
            assert(s@[i as int] <= '\u{7f}');
            assert(d == s@[i as int] as u8);
            assert(d as int == s@[i as int] as int);
        }
        if d < 48 || d > 57 {
            proof {
                assert(!('0' <= s@[i as int] <= '9'));
            }
            return None;
        }
        proof {
            assert('0' <= s@[i as int] <= '9');
            assert(s@.take(i as int + 1).drop_last() =~= s@.take(i as int));
            assert(s@.take(i as int + 1).last() == s@[i as int]);
        }
        acc = acc * 10 + ((d - 48) as u64);
        proof {
            assert(acc == digits_val(s@.take(i as int + 1)));
        }
        if acc > max {
            proof {
                if all_digits(s@) {
                    lemma_digits_val_prefix(s@, i as int + 1);
                }
            }
            return None;
        }
        i = i + 1;
    }
    proof {
        assert(s@.take(n as int) =~= s@);
    }
    Some(acc)
}

/// Applies one top-level key/value pair to a record under construction.
///
/// A named key with a string (or, for `timestamp`, `level` and `line`, a
/// number) sets the field; a named key with `null` leaves the record
/// unchanged; a named key with any other shape rejects the record. Any other
/// key is appended to `additional_fields`.
pub open spec fn field_rule(r: GelfMessageV, k: Seq<char>, v: JsonValueV) -> Result<
    GelfMessageV,
    ParseError,
> {
    if k == "version"@ {
        match v {
            JsonValueV::Str(s) => Ok(GelfMessageV { version: Some(s), ..r }),
            JsonValueV::Null => Ok(r),
            _ => Err(ParseError::BadField(FieldKind::Version)),
        }
    } else if k == "host"@ {
        match v {
            JsonValueV::Str(s) => Ok(GelfMessageV { host: Some(s), ..r }),
            JsonValueV::Null => Ok(r),
            _ => Err(ParseError::BadField(FieldKind::Host)),
        }
    } else if k == "short_message"@ {
        match v {
            JsonValueV::Str(s) => Ok(GelfMessageV { short_message: Some(s), ..r }),
            JsonValueV::Null => Ok(r),
            _ => Err(ParseError::BadField(FieldKind::ShortMessage)),
        }
    } else if k == "full_message"@ {
        match v {
            JsonValueV::Str(s) => Ok(GelfMessageV { full_message: Some(s), ..r }),
            JsonValueV::Null => Ok(r),
            _ => Err(ParseError::BadField(FieldKind::FullMessage)),
        }
    } else if k == "timestamp"@ {
        match v {
            JsonValueV::Num(t) => Ok(GelfMessageV { timestamp: Some(t), ..r }),
            JsonValueV::Null => Ok(r),
            _ => Err(ParseError::BadField(FieldKind::Timestamp)),
        }
    } else if k == "level"@ {
        match v {
            JsonValueV::Num(t) => if is_uint_text(t, 255) {
                Ok(GelfMessageV { level: Some(digits_val(t) as u8), ..r })
            } else {
                Err(ParseError::BadField(FieldKind::Level))
            },
            JsonValueV::Null => Ok(r),
            _ => Err(ParseError::BadField(FieldKind::Level)),
        }
    } else if k == "facility"@ {
        match v {
            JsonValueV::Str(s) => Ok(GelfMessageV { facility: Some(s), ..r }),
            JsonValueV::Null => Ok(r),
            _ => Err(ParseError::BadField(FieldKind::Facility)),
        }
    } else if k == "line"@ {
        match v {
            JsonValueV::Num(t) => if is_uint_text(t, 0xFFFF_FFFF) {
                Ok(GelfMessageV { line: Some(digits_val(t) as u32), ..r })
            } else {
                Err(ParseError::BadField(FieldKind::Line))
            },
            JsonValueV::Null => Ok(r),
            _ => Err(ParseError::BadField(FieldKind::Line)),
        }
    } else if k == "file"@ {
        match v {
            JsonValueV::Str(s) => Ok(GelfMessageV { file: Some(s), ..r }),
            JsonValueV::Null => Ok(r),
            _ => Err(ParseError::BadField(FieldKind::File)),
        }
    } else {
        Ok(GelfMessageV { additional_fields: r.additional_fields.push((k, v)), ..r })
    }
}

/// Folds the pairs of the record object, in order, over `field_rule`,
/// starting from the empty record. The first bad field rejects the record.
pub open spec fn build_record(ps: Seq<(Seq<char>, JsonValueV)>) -> Result<
    GelfMessageV,
    ParseError,
>
    decreases ps.len(),
{
    if ps.len() == 0 {
        Ok(empty_record())
    } else {
        match build_record(ps.drop_last()) {
            Ok(r) => field_rule(r, ps.last().0, ps.last().1),
            Err(e) => Err(e),
        }
    }
}

proof fn lemma_build_record_error_sticks(ps: Seq<(Seq<char>, JsonValueV)>, i: int)
    requires
        0 <= i <= ps.len(),
        build_record(ps.take(i)) is Err,
    ensures
        build_record(ps) == build_record(ps.take(i)),
    decreases ps.len() - i,
{
    if i < ps.len() {
        assert(ps.take(i + 1).drop_last() =~= ps.take(i));
        lemma_build_record_error_sticks(ps, i + 1);
    } else {
        assert(ps.take(i) =~= ps);
    }
}

/// A key that names one of the record's built-in fields.
pub open spec fn builtin_key(k: Seq<char>) -> bool {
    ||| k == "version"@
    ||| k == "host"@
    ||| k == "short_message"@
    ||| k == "full_message"@
    ||| k == "timestamp"@
    ||| k == "level"@
    ||| k == "facility"@
    ||| k == "line"@
    ||| k == "file"@
}

/// Law (unknown-field preservation): a record built from an object holds in
/// `additional_fields` exactly the pairs whose key names no built-in field,
/// in the decoder's order, with the values the decoder handed over.
pub proof fn lemma_unknown_fields_preserved(ps: Seq<(Seq<char>, JsonValueV)>)
    requires
        build_record(ps) is Ok,
    ensures
        (build_record(ps)->Ok_0).additional_fields == ps.filter(
            |p: (Seq<char>, JsonValueV)| !builtin_key(p.0),
        ),
    decreases ps.len(),
{
    reveal(Seq::filter);
    let pred = |p: (Seq<char>, JsonValueV)| !builtin_key(p.0);
    if ps.len() == 0 {
        assert(ps.filter(pred) == Seq::<(Seq<char>, JsonValueV)>::empty());
    } else {
        lemma_unknown_fields_preserved(ps.drop_last());
        let prev = build_record(ps.drop_last())->Ok_0;
        let k = ps.last().0;
        let v = ps.last().1;
        if builtin_key(k) {
            assert((field_rule(prev, k, v)->Ok_0).additional_fields == prev.additional_fields);
            assert(ps.filter(pred) == ps.drop_last().filter(pred));
        } else {
            assert((field_rule(prev, k, v)->Ok_0).additional_fields == prev.additional_fields.push(
                (k, v),
            ));
            assert(ps.filter(pred) == ps.drop_last().filter(pred).push(ps.last()));
        }
    }
}

/// What parsing a payload text yields: the decoded object folded into a
/// record, or the reason the payload is rejected.
pub open spec fn parse_spec(text: Seq<char>) -> Result<GelfMessageV, ParseError> {
    match json_doc(text) {
        JsonDoc::Invalid { line, column } => Err(ParseError::Syntax { line, column }),
        JsonDoc::NotObject => Err(ParseError::NotObject),
        JsonDoc::Object(pairs) => build_record(pairs),
    }
}

fn key_is(k: &String, name: &str) -> (r: bool)
    ensures
        r == (k@ == name@),
{
    *k == name.to_owned()
}

fn build_from_pairs(pairs: Vec<(String, JsonValue)>) -> (r: Result<GelfMessage, ParseError>)
    ensures
        match r {
            Ok(m) => build_record(pairs_view(pairs@)) == Ok::<GelfMessageV, ParseError>(m@),
            Err(e) => build_record(pairs_view(pairs@)) == Err::<GelfMessageV, ParseError>(e),
        },
{
    let ghost ps = pairs_view(pairs@);
    let mut rec = GelfMessage::empty();
    let n = pairs.len();
    let mut i: usize = 0;
    proof {
        assert(ps.take(0) =~= Seq::<(Seq<char>, JsonValueV)>::empty());
    }
    while i < n
        invariant
            i <= n,
            n == pairs@.len(),
            ps == pairs_view(pairs@),
            ps.len() == n,
            build_record(ps.take(i as int)) == Ok::<GelfMessageV, ParseError>(rec@),
        decreases n - i,
    {
        let ghost prev = rec@;
        proof {
            assert(ps.take(i as int + 1).drop_last() =~= ps.take(i as int));
            assert(ps.take(i as int + 1).last() == ps[i as int]);
            assert(ps[i as int] == (pairs@[i as int].0@, pairs@[i as int].1@));
        }
        let k = &pairs[i].0;
        let v = &pairs[i].1;
        if key_is(k, "version") {
            match v {
                JsonValue::Str(s) => { rec.version = Some(s.clone()) },
                JsonValue::Null => {},
                _ => { return Err(bad_field_at(FieldKind::Version, Ghost(ps), Ghost(i as int))) },
            }
        } else if key_is(k, "host") {
            match v {
                JsonValue::Str(s) => { rec.host = Some(s.clone()) },
                JsonValue::Null => {},
                _ => { return Err(bad_field_at(FieldKind::Host, Ghost(ps), Ghost(i as int))) },
            }
        } else if key_is(k, "short_message") {
            match v {
                JsonValue::Str(s) => { rec.short_message = Some(s.clone()) },
                JsonValue::Null => {},
                _ => {
                    return Err(bad_field_at(FieldKind::ShortMessage, Ghost(ps), Ghost(i as int)))
                },
            }
        } else if key_is(k, "full_message") {
            match v {
                JsonValue::Str(s) => { rec.full_message = Some(s.clone()) },
                JsonValue::Null => {},
                _ => {
                    return Err(bad_field_at(FieldKind::FullMessage, Ghost(ps), Ghost(i as int)))
                },
            }
        } else if key_is(k, "timestamp") {
            match v {
                JsonValue::Num(t) => { rec.timestamp = Some(t.clone()) },
                JsonValue::Null => {},
                _ => { return Err(bad_field_at(FieldKind::Timestamp, Ghost(ps), Ghost(i as int))) },
            }
        } else if key_is(k, "level") {
            match v {
                JsonValue::Num(t) => {
                    match parse_uint_text(t, 255) {
                        Some(val) => { rec.level = Some(val as u8) },
                        None => {
                            return Err(bad_field_at(FieldKind::Level, Ghost(ps), Ghost(i as int)))
                        },
                    }
                },
                JsonValue::Null => {},
                _ => { return Err(bad_field_at(FieldKind::Level, Ghost(ps), Ghost(i as int))) },
            }
        } else if key_is(k, "facility") {
            match v {
                JsonValue::Str(s) => { rec.facility = Some(s.clone()) },
                JsonValue::Null => {},
                _ => { return Err(bad_field_at(FieldKind::Facility, Ghost(ps), Ghost(i as int))) },
            }
        } else if key_is(k, "line") {
            match v {
                JsonValue::Num(t) => {
                    match parse_uint_text(t, 0xFFFF_FFFF) {
                        Some(val) => { rec.line = Some(val as u32) },
                        None => {
                            return Err(bad_field_at(FieldKind::Line, Ghost(ps), Ghost(i as int)))
                        },
                    }
                },
                JsonValue::Null => {},
                _ => { return Err(bad_field_at(FieldKind::Line, Ghost(ps), Ghost(i as int))) },
            }
        } else if key_is(k, "file") {
            match v {
                JsonValue::Str(s) => { rec.file = Some(s.clone()) },
                JsonValue::Null => {},
                _ => { return Err(bad_field_at(FieldKind::File, Ghost(ps), Ghost(i as int))) },
            }
        } else {
            let kc = k.clone();
            let vc = v.clone();
            rec.additional_fields.push((kc, vc));
            proof {
                assert(pairs_view(rec.additional_fields@) =~= prev.additional_fields.push(
                    (ps[i as int].0, ps[i as int].1),
                ));
            }
        }
        proof {
            assert(field_rule(prev, ps[i as int].0, ps[i as int].1) == Ok::<
                GelfMessageV,
                ParseError,
            >(rec@));
        }
        i = i + 1;
    }
    proof {
        assert(ps.take(n as int) =~= ps);
    }
    Ok(rec)
}

/// The rejection that `field_rule` yields at pair `i`, wrapped so that the
/// caller's early return carries the proof that the whole fold rejects.
fn bad_field_at(kind: FieldKind, Ghost(ps): Ghost<Seq<(Seq<char>, JsonValueV)>>, Ghost(i): Ghost<
    int,
>) -> (r: ParseError)
    requires
        0 <= i < ps.len(),
        build_record(ps.take(i)) is Ok,
        field_rule(build_record(ps.take(i))->Ok_0, ps[i].0, ps[i].1) == Err::<
            GelfMessageV,
            ParseError,
        >(ParseError::BadField(kind)),
    ensures
        build_record(ps) == Err::<GelfMessageV, ParseError>(r),
        r == ParseError::BadField(kind),
{
    proof {
        assert(ps.take(i + 1).drop_last() =~= ps.take(i));
        assert(ps.take(i + 1).last() == ps[i]);
        assert(build_record(ps.take(i + 1)) == Err::<GelfMessageV, ParseError>(
            ParseError::BadField(kind),
        ));
        lemma_build_record_error_sticks(ps, i + 1);
    }
    ParseError::BadField(kind)
}

/// One entry as retained by the store: the record, the server-assigned
/// reception time, and the raw decoded payload text kept for diagnostics.
/// Built exactly once, when the store accepts the record, and immutable
/// thereafter.
#[derive(Debug, PartialEq)]
pub struct StoredMessage {
    pub gelf_message: GelfMessage,
    /// Reception time: milliseconds since the epoch, by the server clock.
    pub received_at: u64,
    pub raw_message: String,
}

/// The mathematical shape of a `StoredMessage`.
pub struct StoredMessageV {
    pub gelf_message: GelfMessageV,
    pub received_at: u64,
    pub raw_message: Seq<char>,
}

impl View for StoredMessage {
    type V = StoredMessageV;

    open spec fn view(&self) -> StoredMessageV {
        StoredMessageV {
            gelf_message: self.gelf_message@,
            received_at: self.received_at,
            raw_message: self.raw_message@,
        }
    }
}

/// The externally visible projection of a stored entry: the record and its
/// reception time, without the raw text.
#[derive(Debug, PartialEq)]
pub struct MessageResponse {
    pub gelf_message: GelfMessage,
    /// Reception time: milliseconds since the epoch, by the server clock.
    pub received_at: u64,
}

/// The mathematical shape of a `MessageResponse`.
pub struct MessageResponseV {
    pub gelf_message: GelfMessageV,
    pub received_at: u64,
}

impl View for MessageResponse {
    type V = MessageResponseV;

    open spec fn view(&self) -> MessageResponseV {
        MessageResponseV { gelf_message: self.gelf_message@, received_at: self.received_at }
    }
}

impl Clone for MessageResponse {
    fn clone(&self) -> (r: Self)
        ensures
            r@ == self@,
    {
        MessageResponse { gelf_message: self.gelf_message.clone(), received_at: self.received_at }
    }
}

/// What a stored entry shows to the outside.
pub open spec fn response_of(m: StoredMessageV) -> MessageResponseV {
    MessageResponseV { gelf_message: m.gelf_message, received_at: m.received_at }
}

/// Relies on `std::time::SystemTime::now` for the reception clock, read as
/// milliseconds since `std::time::UNIX_EPOCH`; the result depends on the
/// wall clock, so nothing is promised of it.
#[verifier::external_body]
pub(crate) fn now_millis() -> u64 {
    std::time::SystemTime::now()
        .duration_since(std::time::UNIX_EPOCH)
        .map(|d| d.as_millis() as u64)
        .unwrap_or(0)
}

impl StoredMessage {
    /// Wraps an accepted record with the current reception time.
    pub fn new(gelf_message: GelfMessage, raw_message: String) -> (r: Self)
        ensures
            r.gelf_message@ == gelf_message@,
            r.raw_message@ == raw_message@,
    {
        let received_at = now_millis();
        StoredMessage { gelf_message, received_at, raw_message }
    }

    pub fn to_response(&self) -> (r: MessageResponse)
        ensures
            r@ == response_of(self@),
    {
        MessageResponse { gelf_message: self.gelf_message.clone(), received_at: self.received_at }
    }
}

/// A parser from payload text to the canonical record.
pub trait GelfParser {
    /// What this parser yields on a text.
    spec fn spec_parse(text: Seq<char>) -> Result<GelfMessageV, ParseError>;

    fn parse(&self, message_str: &str) -> (r: Result<GelfMessage, ParseError>)
        ensures
            match r {
                Ok(m) => Self::spec_parse(message_str@) == Ok::<GelfMessageV, ParseError>(m@),
                Err(e) => Self::spec_parse(message_str@) == Err::<GelfMessageV, ParseError>(e),
            },
    ;
}

/// The default parser: the payload text is a single JSON object.
pub struct JsonGelfParser;

impl GelfParser for JsonGelfParser {
    open spec fn spec_parse(text: Seq<char>) -> Result<GelfMessageV, ParseError> {
        parse_spec(text)
    }

    fn parse(&self, message_str: &str) -> (r: Result<GelfMessage, ParseError>) {
        match parse_json_object(message_str) {
            Ok(pairs) => build_from_pairs(pairs),
            Err(JsonFault::Syntax { line, column }) => Err(ParseError::Syntax { line, column }),
            Err(JsonFault::NotObject) => Err(ParseError::NotObject),
        }
    }
}

} // verus!
