use xsd_types::lexical::float::{DoubleBuf, FloatBuf};
use xsd_types::{Datatype, Value};

fn canonical_float() -> pretty_dtoa::FmtFloatConfig {
    pretty_dtoa::FmtFloatConfig::default().force_e_notation().capitalize_e(true)
}

fn float_of(l: &FloatBuf) -> f32 {
    l.as_str().parse::<f32>().unwrap()
}

fn double_of(l: &DoubleBuf) -> f64 {
    l.as_str().parse::<f64>().unwrap()
}

fn parse_float(text: &str) -> FloatBuf {
    match Datatype::Float.parse(text) {
        Ok(Value::Float(l)) => l,
        other => panic!("{:?}", other),
    }
}

#[test]
fn exponent_marks_denote_the_same_float() {
    let upper = float_of(&parse_float("1.0E10"));
    let lower = float_of(&parse_float("1.0e10"));
    assert_eq!(upper.to_bits(), lower.to_bits());
    assert_eq!(pretty_dtoa::ftoa(upper, canonical_float()), "1.0E10");
    assert_eq!(pretty_dtoa::ftoa(lower, canonical_float()), "1.0E10");
}

#[test]
fn every_float_literal_is_read_by_the_standard_parser() {
    for s in ["0", "-0", "1e5", "1E-5", "+1.5e+007", ".5", "5.", "-.5E0", "12", "1e400"] {
        let l = FloatBuf::new(s).unwrap();
        assert!(!float_of(&l).is_nan(), "{}", s);
        let d = DoubleBuf::new(s).unwrap();
        assert!(!double_of(&d).is_nan(), "{}", s);
    }
    assert_eq!(float_of(&FloatBuf::new("INF").unwrap()), f32::INFINITY);
    assert_eq!(float_of(&FloatBuf::new("-INF").unwrap()), f32::NEG_INFINITY);
    assert!(float_of(&FloatBuf::new("NaN").unwrap()).is_nan());
    assert_eq!(double_of(&DoubleBuf::new("-INF").unwrap()), f64::NEG_INFINITY);
}

#[test]
fn canonical_float_literals_are_float_literals() {
    for f in [0.0f32, 1.0, -1.5, 1.0e10, 3.4028235e38, 1.0e-40, 123456.79] {
        let text = pretty_dtoa::ftoa(f, canonical_float());
        let l = FloatBuf::new(&text).unwrap();
        assert_eq!(float_of(&l).to_bits(), f.to_bits(), "{}", text);
    }
}
