use xsd_types::lexical::base64_binary::{decode_base64_binary, encode_base64_binary};
use xsd_types::lexical::LexicalError;
use xsd_types::Base64BinaryBuf;

#[test]
fn base64_decoding() {
    assert_eq!(decode_base64_binary(""), Ok(vec![]));
    assert_eq!(decode_base64_binary("AA=="), Ok(vec![0]));
    assert_eq!(decode_base64_binary("AAA="), Ok(vec![0, 0]));
    assert_eq!(decode_base64_binary("AAAA"), Ok(vec![0, 0, 0]));
    assert_eq!(decode_base64_binary("/w=="), Ok(vec![255]));
    assert_eq!(decode_base64_binary("//8="), Ok(vec![255, 255]));
    assert_eq!(decode_base64_binary("////"), Ok(vec![255, 255, 255]));
    assert_eq!(decode_base64_binary("aGVsbG8="), Ok(b"hello".to_vec()));
    assert_eq!(decode_base64_binary("aGVsbG8h"), Ok(b"hello!".to_vec()));
    assert_eq!(decode_base64_binary("TWFu"), Ok(b"Man".to_vec()));
    assert_eq!(decode_base64_binary("+/+/"), Ok(vec![0xfb, 0xff, 0xbf]));
    assert_eq!(decode_base64_binary("0123456789ab"), Ok(vec![211, 93, 183, 227, 158, 187, 243, 214, 155]));
}

#[test]
fn base64_spaces() {
    assert_eq!(decode_base64_binary("aGVs bG8="), Ok(b"hello".to_vec()));
    assert_eq!(decode_base64_binary("a G V s b G 8 ="), Ok(b"hello".to_vec()));
    assert_eq!(decode_base64_binary("AA= ="), Ok(vec![0]));
    assert_eq!(decode_base64_binary(" aGVsbG8="), Err(LexicalError::Malformed));
    assert_eq!(decode_base64_binary("aGVsbG8= "), Err(LexicalError::Malformed));
    assert_eq!(decode_base64_binary("aGVs  bG8="), Err(LexicalError::Malformed));
    assert_eq!(decode_base64_binary(" "), Err(LexicalError::Malformed));
    assert_eq!(decode_base64_binary("aGVs\nbG8="), Err(LexicalError::Malformed));
    assert_eq!(decode_base64_binary("aGVs\tbG8="), Err(LexicalError::Malformed));
}

#[test]
fn base64_malformed() {
    for s in [
        "A", "AA", "AAA", "AAAAA", "=", "==", "===", "====", "A===", "AA=A", "A=AA", "=AAA",
        "AB==", "AAB=", "AA==AAAA", "aGVsbG8", "aGVs-G8=", "aGVs_G8=", "aGVsbG8=====", "AA=",
    ] {
        assert_eq!(decode_base64_binary(s), Err(LexicalError::Malformed), "{}", s);
    }
    assert_eq!(decode_base64_binary("aGVsbG8é"), Err(LexicalError::NonAscii));
}

#[test]
fn base64_encoding() {
    assert_eq!(encode_base64_binary(b""), "");
    assert_eq!(encode_base64_binary(b"f"), "Zg==");
    assert_eq!(encode_base64_binary(b"fo"), "Zm8=");
    assert_eq!(encode_base64_binary(b"foo"), "Zm9v");
    assert_eq!(encode_base64_binary(b"foob"), "Zm9vYg==");
    assert_eq!(encode_base64_binary(b"fooba"), "Zm9vYmE=");
    assert_eq!(encode_base64_binary(b"foobar"), "Zm9vYmFy");
    assert_eq!(encode_base64_binary(&[0xfb, 0xff, 0xbf]), "+/+/");
    assert_eq!(encode_base64_binary(&[255]), "/w==");
}

#[test]
fn base64_round_trip() {
    let all: Vec<u8> = (0..=255).collect();
    for n in 0..all.len() {
        let bytes = &all[..n];
        let text = Base64BinaryBuf::from_bytes(bytes.to_vec()).to_string();
        assert_eq!(text.len(), 4 * ((n + 2) / 3));
        let back = Base64BinaryBuf::from_str(&text).unwrap();
        assert_eq!(back.as_bytes(), bytes);
        assert_eq!(back.to_string(), text);
    }
    let v = Base64BinaryBuf::from_str("a G V s b G 8 =").unwrap();
    assert_eq!(v.to_string(), "aGVsbG8=");
    assert_eq!(v.into_bytes(), b"hello".to_vec());
}
