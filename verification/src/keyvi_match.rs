//! The result of one dictionary query.
//!
//! A [`KeyviMatch`] is either empty — the key was absent, which is not an
//! error — or carries the marshaled fields of one native result: the stored
//! key that matched, the canonical textual encoding of the value, the
//! value's compact binary encoding, and the engine's relevance signal.  The
//! shim that performs the native calls copies those fields out of the native
//! result immediately and destroys it; from then on a match is an ordinary
//! owned value, independent of the cursor or dictionary that produced it.

use vstd::prelude::*;

use crate::config::Compression;
use crate::error::ValueParseError;

verus! {

#[verifier::external_type_specification]
#[verifier::external_body]
pub struct ExJsonValue(serde_json::Value);

/// Whether a textual payload is well-formed JSON, as `serde_json` decides it.
pub uninterp spec fn json_parse_ok(s: Seq<char>) -> bool;

/// Relies on `serde_json::from_str::<serde_json::Value>`: a textual payload
/// parses into a structured value exactly when it is well-formed JSON, a
/// property of the text alone.
#[verifier::external_body]
fn parse_json_text(s: &str) -> (r: Option<serde_json::Value>)
    ensures
        r is Some <==> json_parse_ok(s@),
{
    serde_json::from_str::<serde_json::Value>(s).ok()
}

/// What snap's raw `Decoder` recovers from a compressed block, if anything.
pub uninterp spec fn snappy_decompressed(c: Seq<u8>) -> Option<Seq<u8>>;

/// What `zstd::decode_all` recovers from a compressed stream, if anything.
pub uninterp spec fn zstd_decompressed(c: Seq<u8>) -> Option<Seq<u8>>;

/// What flate2's `ZlibDecoder` recovers from a compressed stream, if
/// anything.
pub uninterp spec fn zlib_decompressed(c: Seq<u8>) -> Option<Seq<u8>>;

/// The largest input the snappy block format accepts; above it the encoder
/// reports the input as too big.
pub const MAX_COMPRESS_INPUT: usize = 0xBFFF_FFFF;

/// Relies on `snap::raw::Encoder::compress_vec`: for input within the block
/// format's size bound it returns a block that snap's raw `Decoder`
/// decompresses back to exactly the input.
#[verifier::external_body]
fn snappy_compress(b: &Vec<u8>) -> (r: Vec<u8>)
    requires
        b@.len() <= MAX_COMPRESS_INPUT,
    ensures
        snappy_decompressed(r@) == Some(b@),
{
    let mut encoder = snap::raw::Encoder::new();
    encoder.compress_vec(b).unwrap()
}

/// Relies on `zstd::encode_all`: compressing an in-memory buffer cannot
/// fail, and `zstd::decode_all` recovers exactly the input from the result.
#[verifier::external_body]
fn zstd_compress(b: &Vec<u8>) -> (r: Vec<u8>)
    ensures
        zstd_decompressed(r@) == Some(b@),
{
    zstd::encode_all(b.as_slice(), 0).unwrap()
}

/// Relies on flate2's `ZlibEncoder`: compressing an in-memory buffer cannot
/// fail, and flate2's `ZlibDecoder` recovers exactly the input from the
/// result.
#[verifier::external_body]
fn zlib_compress(b: &Vec<u8>) -> (r: Vec<u8>)
    ensures
        zlib_decompressed(r@) == Some(b@),
{
    let mut encoder = flate2::write::ZlibEncoder::new(Vec::new(), flate2::Compression::default());
    std::io::Write::write_all(&mut encoder, b).unwrap();
    encoder.finish().unwrap()
}

fn copy_bytes(v: &Vec<u8>) -> (r: Vec<u8>)
    ensures
        r@ == v@,
{
    let mut r: Vec<u8> = Vec::new();
    let mut i: usize = 0;
    while i < v.len()
        invariant
            i <= v@.len(),
            r@ == v@.subrange(0, i as int),
        decreases v@.len() - i,
    {
        r.push(v[i]);
        i = i + 1;
        proof {
            assert(r@ =~= v@.subrange(0, i as int));
        }
    }
    proof {
        assert(r@ =~= v@);
    }
    r
}

/// The fields of a non-empty match.
struct MatchData {
    matched: String,
    value: String,
    msgpack: Vec<u8>,
    score_bits: u64,
}

/// What a match stands for: either nothing, or one stored entry together
/// with the engine's relevance signal, carried bit-exactly.
pub struct MatchView {
    pub empty: bool,
    pub matched: Seq<char>,
    pub value: Seq<char>,
    pub msgpack: Seq<u8>,
    pub score_bits: u64,
}

/// The result of one query: empty, or one marshaled native result.
pub struct KeyviMatch {
    inner: Option<MatchData>,
}

impl View for KeyviMatch {
    type V = MatchView;

    closed spec fn view(&self) -> MatchView {
        match self.inner {
            Some(d) => MatchView {
                empty: false,
                matched: d.matched@,
                value: d.value@,
                msgpack: d.msgpack@,
                score_bits: d.score_bits,
            },
            None => MatchView {
                empty: true,
                matched: Seq::<char>::empty(),
                value: Seq::<char>::empty(),
                msgpack: Seq::<u8>::empty(),
                score_bits: 0,
            },
        }
    }
}

impl KeyviMatch {
    /// Wraps the fields marshaled out of one native result.
    pub fn new(matched: String, value: String, msgpack: Vec<u8>, score_bits: u64) -> (m:
        KeyviMatch)
        ensures
            !m@.empty,
            m@.matched == matched@,
            m@.value == value@,
            m@.msgpack == msgpack@,
            m@.score_bits == score_bits,
    {
        KeyviMatch { inner: Some(MatchData { matched, value, msgpack, score_bits }) }
    }

    /// The match that stands for "no entry found".
    pub fn empty() -> (m: KeyviMatch)
        ensures
            m@.empty,
    {
        KeyviMatch { inner: None }
    }

    /// True exactly when no entry was found.
    pub fn is_empty(&self) -> (r: bool)
        ensures
            r == self@.empty,
    {
        self.inner.is_none()
    }

    /// The stored key that matched; for an empty match, the empty string.
    pub fn matched_string(&self) -> (r: String)
        ensures
            r@ == self@.matched,
    {
        match &self.inner {
            Some(d) => d.matched.clone(),
            None => String::new(),
        }
    }

    /// The canonical textual encoding of the stored value; for an empty
    /// match, the empty string.
    pub fn get_value_as_string(&self) -> (r: String)
        ensures
            r@ == self@.value,
    {
        match &self.inner {
            Some(d) => d.value.clone(),
            None => String::new(),
        }
    }

    /// The compact binary encoding of the stored value; for an empty match,
    /// the empty sequence — never an absent marker.
    pub fn get_msgpacked_value(&self) -> (r: Vec<u8>)
        ensures
            r@ == self@.msgpack,
    {
        match &self.inner {
            Some(d) => copy_bytes(&d.msgpack),
            None => Vec::new(),
        }
    }

    /// The engine's relevance signal, carried as the raw bits of its 64-bit
    /// value so that callers can order or round-trip it without loss; zero
    /// for an empty match.
    pub fn get_score_bits(&self) -> (r: u64)
        ensures
            r == self@.score_bits,
    {
        match &self.inner {
            Some(d) => d.score_bits,
            None => 0,
        }
    }

    /// Parses the textual value payload into a structured value.  The parse
    /// succeeds exactly when the payload is well-formed JSON; an empty match
    /// carries an empty payload, which is not, so it reports a parse error
    /// rather than crashing.
    pub fn get_value(&self) -> (r: Result<serde_json::Value, ValueParseError>)
        ensures
            r is Ok <==> json_parse_ok(self@.value),
    {
        match &self.inner {
            Some(d) => match parse_json_text(d.value.as_str()) {
                Some(v) => Ok(v),
                None => Err(ValueParseError {}),
            },
            None => {
                proof {
                    reveal_strlit("");
                    assert(""@ =~= Seq::<char>::empty());
                }
                match parse_json_text("") {
                    Some(v) => Ok(v),
                    None => Err(ValueParseError {}),
                }
            },
        }
    }

    /// The binary value encoding passed through the chosen codec.  With no
    /// compression the bytes equal `get_msgpacked_value` exactly; with a
    /// codec, the corresponding standard decompressor recovers exactly those
    /// bytes.
    pub fn get_msgpacked_value_compressed(&self, algo: Compression) -> (r: Vec<u8>)
        requires
            algo is SNAPPY_COMPRESSION ==> self@.msgpack.len() <= MAX_COMPRESS_INPUT,
        ensures
            algo is NO_COMPRESSION ==> r@ == self@.msgpack,
            algo is SNAPPY_COMPRESSION ==> snappy_decompressed(r@) == Some(self@.msgpack),
            algo is ZSTD_COMPRESSION ==> zstd_decompressed(r@) == Some(self@.msgpack),
            algo is ZLIB_COMPRESSION ==> zlib_decompressed(r@) == Some(self@.msgpack),
    {
        let plain = self.get_msgpacked_value();
        match algo {
            Compression::NO_COMPRESSION => plain,
            Compression::SNAPPY_COMPRESSION => snappy_compress(&plain),
            Compression::ZSTD_COMPRESSION => zstd_compress(&plain),
            Compression::ZLIB_COMPRESSION => zlib_compress(&plain),
        }
    }

    /// The match as a (matched key, structured value) pair; fails exactly
    /// when the value payload does not parse.
    pub fn to_key_value(self) -> (r: Result<(String, serde_json::Value), ValueParseError>)
        ensures
            r is Ok <==> json_parse_ok(self@.value),
            r matches Ok(kv) ==> kv.0@ == self@.matched,
    {
        let key = self.matched_string();
        match self.get_value() {
            Ok(v) => Ok((key, v)),
            Err(e) => Err(e),
        }
    }

    /// The match as a (matched key, structured value, score bits) triple;
    /// fails exactly when the value payload does not parse.
    pub fn to_key_value_score(self) -> (r: Result<
        (String, serde_json::Value, u64),
        ValueParseError,
    >)
        ensures
            r is Ok <==> json_parse_ok(self@.value),
            r matches Ok(kvs) ==> kvs.0@ == self@.matched && kvs.2 == self@.score_bits,
    {
        let key = self.matched_string();
        let score = self.get_score_bits();
        match self.get_value() {
            Ok(v) => Ok((key, v, score)),
            Err(e) => Err(e),
        }
    }
}

/// An empty match is blank throughout: it matched no stored key, its textual
/// value is the empty string, its binary value is the empty sequence, and
/// its score signal is zero.
pub proof fn lemma_empty_match_is_blank(m: KeyviMatch)
    requires
        m@.empty,
    ensures
        m@.matched == Seq::<char>::empty(),
        m@.value == Seq::<char>::empty(),
        m@.msgpack == Seq::<u8>::empty(),
        m@.score_bits == 0,
{
}

} // verus!
