use std::io::Read;

use flate2::read::ZlibDecoder;
use serde_json::Value;
use snap::raw::Decoder;

use keyvi::config::Compression;
use keyvi::keyvi_match::KeyviMatch;

fn sample_match() -> KeyviMatch {
    // The entry {"a": [12, 13]}: textual value "[12,13]", msgpack [0x92, 12, 13].
    KeyviMatch::new(
        String::from("a"),
        String::from("[12,13]"),
        vec![0x92, 12, 13],
        0,
    )
}

#[test]
fn match_string() {
    let m = sample_match();
    assert_eq!(m.matched_string(), "a");
}

#[test]
fn match_value_as_string() {
    let m = sample_match();
    assert_eq!(m.get_value_as_string(), "[12,13]");
}

#[test]
fn match_msgpacked_value_array() {
    let m = sample_match();
    assert_eq!(m.get_msgpacked_value(), vec![146, 12, 13]);
}

#[test]
fn match_value_array() {
    let m = sample_match();
    match m.get_value() {
        Ok(Value::Array(n)) => assert_eq!(n, vec![12, 13]),
        _ => panic!("expected an array value"),
    }
}

#[test]
fn match_value_int() {
    let m = KeyviMatch::new(
        String::from("mozilla footprint"),
        String::from("30"),
        vec![30],
        0,
    );
    match m.get_value() {
        Ok(Value::Number(n)) => assert_eq!(n.as_i64().unwrap(), 30),
        _ => panic!("expected a number value"),
    }
}

#[test]
fn match_value_unparseable() {
    let m = KeyviMatch::new(
        String::from("k"),
        String::from("[12,"),
        Vec::new(),
        0,
    );
    assert!(m.get_value().is_err());
}

#[test]
fn match_is_empty() {
    let m = sample_match();
    assert_eq!(m.is_empty(), false);
}

#[test]
fn empty_match_is_blank() {
    let m = KeyviMatch::empty();
    assert!(m.is_empty());
    assert_eq!(m.matched_string(), "");
    assert_eq!(m.get_value_as_string(), "");
    assert_eq!(m.get_msgpacked_value(), Vec::<u8>::new());
    assert_eq!(m.get_score_bits(), 0);
    assert!(m.get_value().is_err());
}

#[test]
fn match_score_bits_round_trip() {
    let score: f64 = 3.0;
    let m = KeyviMatch::new(
        String::from("aabc"),
        String::from("22"),
        vec![22],
        score.to_bits(),
    );
    assert_eq!(f64::from_bits(m.get_score_bits()), 3.0);
}

#[test]
fn match_into_key_value() {
    let (k, v) = sample_match().to_key_value().unwrap();
    assert_eq!(k, "a");
    match v {
        Value::Array(n) => assert_eq!(n, vec![12, 13]),
        _ => panic!("expected an array value"),
    }
}

#[test]
fn match_into_key_value_score() {
    let score: f64 = 1.5;
    let m = KeyviMatch::new(
        String::from("b"),
        String::from("7"),
        vec![7],
        score.to_bits(),
    );
    let (k, v, s) = m.to_key_value_score().unwrap();
    assert_eq!(k, "b");
    match v {
        Value::Number(n) => assert_eq!(n.as_i64().unwrap(), 7),
        _ => panic!("expected a number value"),
    }
    assert_eq!(f64::from_bits(s), 1.5);
}

#[test]
fn match_msgpacked_value_compressed_array() {
    let m = sample_match();

    assert_eq!(
        m.get_msgpacked_value_compressed(Compression::NO_COMPRESSION),
        vec![146, 12, 13]
    );

    let mut snap_decoder = Decoder::new();
    let value_compressed_snap = m.get_msgpacked_value_compressed(Compression::SNAPPY_COMPRESSION);
    let value_uncompressed_snap = snap_decoder.decompress_vec(&value_compressed_snap);
    assert_eq!(value_uncompressed_snap.unwrap(), vec![146, 12, 13]);

    let value_compressed_zstd = m.get_msgpacked_value_compressed(Compression::ZSTD_COMPRESSION);
    let value_uncompressed_zstd: Vec<u8> = zstd::decode_all(value_compressed_zstd.as_slice()).unwrap();
    assert_eq!(value_uncompressed_zstd, vec![146, 12, 13]);

    let value_compressed_zlib = m.get_msgpacked_value_compressed(Compression::ZLIB_COMPRESSION);
    let mut zlib_decoder = ZlibDecoder::new(value_compressed_zlib.as_slice());
    let mut value_uncompressed_zlib: Vec<u8> = Vec::new();
    let _ = zlib_decoder.read_to_end(&mut value_uncompressed_zlib);
    assert_eq!(value_uncompressed_zlib, vec![146, 12, 13]);
}

#[test]
fn empty_match_compressed_value_is_empty_uncompressed() {
    let m = KeyviMatch::empty();
    assert_eq!(
        m.get_msgpacked_value_compressed(Compression::NO_COMPRESSION),
        Vec::<u8>::new()
    );
}
