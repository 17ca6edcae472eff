use keyvi::dictionary::{Dictionary, EngineQuery};
use keyvi::handle::NativeHandle;
use keyvi::keyvi_string::KeyviString;

fn open_dictionary(token: u64) -> Dictionary {
    Dictionary::new(Some(token)).expect("a handle token opens the dictionary")
}

#[test]
fn open_adopts_the_engine_handle() {
    let mut d = open_dictionary(7);
    assert!(d.is_live());
    assert_eq!(d.token(), 7);
    let token = d.release();
    assert_eq!(token, 7);
    assert!(!d.is_live());
}

#[test]
fn lookup_carries_the_key_byte_exactly() {
    let d = open_dictionary(1);
    match d.get(b"a") {
        EngineQuery::Lookup { key } => assert_eq!(key, b"a"),
        _ => panic!("expected an exact lookup"),
    }
}

#[test]
fn keys_with_embedded_nul_stay_distinct() {
    let d = open_dictionary(1);
    let q1 = d.get(b"d\0");
    let q2 = d.get(b"e\0f");
    let q3 = d.get(b"d");
    let (k1, k2, k3) = match (q1, q2, q3) {
        (
            EngineQuery::Lookup { key: k1 },
            EngineQuery::Lookup { key: k2 },
            EngineQuery::Lookup { key: k3 },
        ) => (k1, k2, k3),
        _ => panic!("expected exact lookups"),
    };
    // Every byte survives the transfer, so the three keys resolve
    // independently instead of collapsing at the first NUL.
    assert_eq!(k1, b"d\0");
    assert_eq!(k2, b"e\0f");
    assert_eq!(k3, b"d");
    assert_ne!(k1, k3);
    assert_ne!(k1, k2);
}

#[test]
fn prefix_completions_carry_prefix_and_cutoff() {
    let d = open_dictionary(1);
    match d.get_prefix_completions(b"a", 10) {
        EngineQuery::PrefixCompletions { key, cutoff } => {
            assert_eq!(key, b"a");
            assert_eq!(cutoff, 10);
        }
        _ => panic!("expected a prefix completion query"),
    }
}

#[test]
fn fuzzy_query_carries_distance() {
    let d = open_dictionary(1);
    match d.get_fuzzy("aafc\u{fc}l".as_bytes(), 3) {
        EngineQuery::FuzzyMatches { key, max_edit_distance } => {
            assert_eq!(key, "aafc\u{fc}l".as_bytes());
            assert_eq!(max_edit_distance, 3);
        }
        _ => panic!("expected a fuzzy query"),
    }
}

#[test]
fn multi_word_query_carries_text_and_cutoff() {
    let d = open_dictionary(1);
    match d.get_multi_word_completions(b"mozilla f", 10) {
        EngineQuery::MultiWordCompletions { key, cutoff } => {
            assert_eq!(key, b"mozilla f");
            assert_eq!(cutoff, 10);
        }
        _ => panic!("expected a multi-word completion query"),
    }
}

#[test]
fn all_items_query() {
    let d = open_dictionary(1);
    assert!(matches!(d.get_all_items(), EngineQuery::AllItems));
}

#[test]
fn native_handle_release_hands_back_the_token() {
    let mut h = NativeHandle::acquire(42);
    assert!(h.is_live());
    assert_eq!(h.token(), 42);
    let t = h.release();
    assert_eq!(t, 42);
    assert!(!h.is_live());
}

#[test]
fn native_text_decodes_utf8() {
    let s = KeyviString::new(b"number of keys: 3".to_vec());
    assert_eq!(s.len(), 17);
    assert_eq!(s.to_owned().unwrap(), "number of keys: 3");
}

#[test]
fn native_text_decodes_non_ascii() {
    let s = KeyviString::new("t\u{fc}v s\u{fc}d".as_bytes().to_vec());
    assert_eq!(s.to_owned().unwrap(), "t\u{fc}v s\u{fc}d");
}

#[test]
fn native_text_rejects_invalid_utf8() {
    let s = KeyviString::new(vec![0x74, 0xff, 0xfe]);
    assert!(s.to_owned().is_none());
}
