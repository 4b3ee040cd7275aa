use xsd_types::lexical::integer::Sign;
use xsd_types::{Integer, NegativeInteger, NonPositiveInteger};

fn integer(s: &str) -> Integer {
    Integer::from_str(s).unwrap()
}

#[test]
fn integer_from_magnitude_bytes() {
    assert_eq!(Integer::from_bytes_be(Sign::Plus, b"A"), integer("65"));
    assert_eq!(Integer::from_bytes_be(Sign::Plus, b"AB"), integer("16706"));
    assert_eq!(Integer::from_bytes_le(Sign::Plus, b"AB"), integer("16961"));
    assert_eq!(Integer::from_bytes_be(Sign::Minus, &[4, 101]), integer("-1125"));
    assert_eq!(Integer::from_bytes_le(Sign::Minus, &[101, 4]), integer("-1125"));
    assert_eq!(Integer::from_bytes_be(Sign::NoSign, &[4, 101]), integer("0"));
    assert_eq!(Integer::from_bytes_be(Sign::Minus, &[]), integer("0"));
    assert_eq!(Integer::from_bytes_be(Sign::Plus, &[0, 0, 1]), integer("1"));
    assert_eq!(
        Integer::from_bytes_be(Sign::Plus, b"Hello world!"),
        integer("22405534230753963835153736737")
    );
}

#[test]
fn integer_from_twos_complement_bytes() {
    assert_eq!(Integer::from_signed_bytes_be(&[251, 155]), integer("-1125"));
    assert_eq!(Integer::from_signed_bytes_le(&[155, 251]), integer("-1125"));
    assert_eq!(Integer::from_signed_bytes_be(&[0x80]), integer("-128"));
    assert_eq!(Integer::from_signed_bytes_be(&[0x7f]), integer("127"));
    assert_eq!(Integer::from_signed_bytes_be(&[0x00, 0x80]), integer("128"));
    assert_eq!(Integer::from_signed_bytes_be(&[0xff, 0xff]), integer("-1"));
    assert_eq!(Integer::from_signed_bytes_le(&[0x00, 0x80]), integer("-32768"));
    assert_eq!(Integer::from_signed_bytes_be(&[]), integer("0"));
}

#[test]
fn integer_to_bytes() {
    assert_eq!(integer("-1125").to_bytes_be(), (Sign::Minus, vec![4, 101]));
    assert_eq!(integer("-1125").to_bytes_le(), (Sign::Minus, vec![101, 4]));
    assert_eq!(integer("1125").to_bytes_be(), (Sign::Plus, vec![4, 101]));
    assert_eq!(integer("0").to_bytes_be(), (Sign::NoSign, vec![0]));
    assert_eq!(integer("0").to_bytes_le(), (Sign::NoSign, vec![0]));
    assert_eq!(integer("256").to_bytes_be(), (Sign::Plus, vec![1, 0]));
    assert_eq!(integer("-1125").to_signed_bytes_be(), vec![251, 155]);
    assert_eq!(integer("-1125").to_signed_bytes_le(), vec![155, 251]);
    assert_eq!(integer("128").to_signed_bytes_be(), vec![0, 128]);
    assert_eq!(integer("-128").to_signed_bytes_be(), vec![128]);
    assert_eq!(integer("0").to_signed_bytes_be(), vec![0]);
}

#[test]
fn bytes_round_trip() {
    for s in ["0", "1", "-1", "255", "-255", "256", "-256", "32767", "-32768", "1234567890123456789012345"] {
        let v = integer(s);
        let (sign, bytes) = v.to_bytes_be();
        assert_eq!(Integer::from_bytes_be(sign, &bytes), v);
        let (sign, bytes) = v.to_bytes_le();
        assert_eq!(Integer::from_bytes_le(sign, &bytes), v);
        assert_eq!(Integer::from_signed_bytes_be(&v.to_signed_bytes_be()), v);
        assert_eq!(Integer::from_signed_bytes_le(&v.to_signed_bytes_le()), v);
    }
}

#[test]
fn non_positive_integer_bytes() {
    assert_eq!(NonPositiveInteger::from_bytes_be(&[4, 101]).to_string(), "-1125");
    assert_eq!(NonPositiveInteger::from_bytes_le(&[101, 4]).to_string(), "-1125");
    assert!(NonPositiveInteger::from_bytes_be(&[0]).is_zero());
    assert_eq!(
        NonPositiveInteger::from_signed_bytes_be(&[251, 155]).unwrap().to_string(),
        "-1125"
    );
    assert_eq!(NonPositiveInteger::from_signed_bytes_le(&[0]).unwrap().to_string(), "0");
    assert_eq!(
        NonPositiveInteger::from_signed_bytes_be(&[4, 101]).err().map(|e| e.0),
        Some(integer("1125"))
    );
    let v = NonPositiveInteger::from_str("-1125").unwrap();
    assert_eq!(v.to_bytes_be(), (Sign::Minus, vec![4, 101]));
    assert_eq!(v.to_bytes_le(), (Sign::Minus, vec![101, 4]));
    assert_eq!(v.to_signed_bytes_be(), vec![251, 155]);
    assert_eq!(v.to_signed_bytes_le(), vec![155, 251]);
}

#[test]
fn negative_integer_bytes() {
    assert_eq!(NegativeInteger::from_bytes_be(&[1]).unwrap().to_string(), "-1");
    assert_eq!(NegativeInteger::from_bytes_le(&[0, 1]).unwrap().to_string(), "-256");
    assert_eq!(NegativeInteger::from_bytes_be(&[0, 0]).err().map(|e| e.0), Some(integer("0")));
    assert!(NegativeInteger::from_bytes_be(&[]).is_err());
    assert_eq!(NegativeInteger::from_signed_bytes_be(&[0xff]).unwrap().to_string(), "-1");
    assert_eq!(
        NegativeInteger::from_signed_bytes_le(&[0x7f]).err().map(|e| e.0),
        Some(integer("127"))
    );
    let v = NegativeInteger::from_str("-1").unwrap();
    assert_eq!(v.to_bytes_be(), (Sign::Minus, vec![1]));
    assert_eq!(v.to_bytes_le(), (Sign::Minus, vec![1]));
    assert_eq!(v.to_signed_bytes_be(), vec![255]);
    assert_eq!(v.to_signed_bytes_le(), vec![255]);
}
