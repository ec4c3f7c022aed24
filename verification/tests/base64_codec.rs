use visa_sdk::base64::b64_decode;
use visa_sdk::base64::b64_encode;

fn encode_str(s: &str) -> String {
    String::from_utf8(b64_encode(s.as_bytes())).unwrap()
}

#[test]
fn encode_known_vectors() {
    assert_eq!(encode_str(""), "");
    assert_eq!(encode_str("f"), "Zg==");
    assert_eq!(encode_str("fo"), "Zm8=");
    assert_eq!(encode_str("foo"), "Zm9v");
    assert_eq!(encode_str("foob"), "Zm9vYg==");
    assert_eq!(encode_str("fooba"), "Zm9vYmE=");
    assert_eq!(encode_str("foobar"), "Zm9vYmFy");
}

#[test]
fn encode_uses_full_alphabet() {
    assert_eq!(b64_encode(&[251, 239]), b"++8=".to_vec());
    assert_eq!(b64_encode(&[255, 255, 255]), b"////".to_vec());
    assert_eq!(b64_encode(&[0, 0, 0]), b"AAAA".to_vec());
}

#[test]
fn decode_known_vectors() {
    assert_eq!(b64_decode(b""), Some(Vec::new()));
    assert_eq!(b64_decode(b"Zg=="), Some(b"f".to_vec()));
    assert_eq!(b64_decode(b"Zm8="), Some(b"fo".to_vec()));
    assert_eq!(b64_decode(b"Zm9v"), Some(b"foo".to_vec()));
    assert_eq!(b64_decode(b"Zm9vYmFy"), Some(b"foobar".to_vec()));
}

#[test]
fn decode_round_trips_every_small_input() {
    for a in 0..=255u8 {
        let one = vec![a];
        assert_eq!(b64_decode(&b64_encode(&one)), Some(one));
        let two = vec![a, a.wrapping_add(17)];
        assert_eq!(b64_decode(&b64_encode(&two)), Some(two));
        let three = vec![a, a.wrapping_add(1), a.wrapping_add(2)];
        assert_eq!(b64_decode(&b64_encode(&three)), Some(three));
        let four = vec![a, 3, 5, 7];
        assert_eq!(b64_decode(&b64_encode(&four)), Some(four));
    }
}

#[test]
fn decode_rejects_bad_length() {
    assert_eq!(b64_decode(b"Z"), None);
    assert_eq!(b64_decode(b"Zg"), None);
    assert_eq!(b64_decode(b"Zg="), None);
    assert_eq!(b64_decode(b"Zm9vZ"), None);
}

#[test]
fn decode_rejects_bad_bytes() {
    assert_eq!(b64_decode(b"Zg!="), None);
    assert_eq!(b64_decode(b"===="), None);
    assert_eq!(b64_decode(b"Zm9v===="), None);
    assert_eq!(b64_decode(b"=g=="), None);
}
