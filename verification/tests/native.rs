use xsd_types::{Decimal, Integer, NonNegativeInteger};

fn samples() -> Vec<i128> {
    let mut v = vec![0, 1, -1, 2, -2, 7, -7, 10, -10, 255, 256, -255, -256, 65535, 65536];
    let mut x: i128 = 1;
    for _ in 0..20 {
        x = x * 37 + 11;
        v.push(x);
        v.push(-x);
    }
    v.push(i64::MAX as i128);
    v.push(i64::MIN as i128);
    v
}

#[test]
fn arithmetic_agrees_with_native_integers() {
    for a in samples() {
        for b in samples() {
            let x = Integer::from_i128(a);
            let y = Integer::from_i128(b);
            assert_eq!(x.add(&y).to_i128(), a.checked_add(b), "{} + {}", a, b);
            assert_eq!(x.sub(&y).to_i128(), a.checked_sub(b), "{} - {}", a, b);
            if let Some(p) = a.checked_mul(b) {
                assert_eq!(x.mul(&y).to_i128(), Some(p), "{} * {}", a, b);
            }
            if b != 0 {
                assert_eq!(x.checked_div(&y).unwrap().to_i128(), Some(a / b), "{} / {}", a, b);
            } else {
                assert_eq!(x.checked_div(&y), None);
            }
            assert_eq!(x.le(&y), a <= b);
            assert_eq!(x.eq(&y), a == b);
            assert_eq!(x == y, a == b);
        }
    }
}

#[test]
fn signs_agree_with_native_integers() {
    for a in samples() {
        let x = Integer::from_i128(a);
        assert_eq!(x.is_zero(), a == 0);
        assert_eq!(x.is_negative(), a < 0);
        assert_eq!(x.is_positive(), a > 0);
        assert_eq!(x.to_string(), a.to_string());
        assert_eq!(Integer::from_str(&a.to_string()).unwrap(), x);
        assert_eq!(Integer::from_str(&format!("{:+}", a)).unwrap(), x);
        assert_eq!(Integer::from_str(&format!("{:+040}", a)).unwrap(), x);
        assert_eq!(NonNegativeInteger::try_from(x.clone()).is_ok(), a >= 0);
        assert_eq!(x.clone().to_i64().ok(), i64::try_from(a).ok());
        assert_eq!(x.clone().to_u64().ok(), u64::try_from(a).ok());
        assert_eq!(x.clone().to_i32().ok(), i32::try_from(a).ok());
        assert_eq!(x.clone().to_u16().ok(), u16::try_from(a).ok());
        assert_eq!(x.clone().to_i8().ok(), i8::try_from(a).ok());
        assert_eq!(x.to_u8().ok(), u8::try_from(a).ok());
    }
}

#[test]
fn bytes_agree_with_native_integers() {
    for a in samples() {
        let x = Integer::from_i128(a);
        assert_eq!(Integer::from_signed_bytes_be(&a.to_be_bytes()), x);
        assert_eq!(Integer::from_signed_bytes_le(&a.to_le_bytes()), x);
        let be = x.to_signed_bytes_be();
        let mut wide = [if a < 0 { 0xff } else { 0 }; 16];
        wide[16 - be.len()..].copy_from_slice(&be);
        assert_eq!(i128::from_be_bytes(wide), a);
    }
}

#[test]
fn decimals_written_in_many_ways() {
    for (unscaled, scale) in [(0i64, 0usize), (5, 0), (5, 1), (-5, 3), (123456, 2), (-1, 10)] {
        let digits = unscaled.unsigned_abs().to_string();
        let digits = format!("{:0>width$}", digits, width = scale + 1);
        let (whole, fraction) = digits.split_at(digits.len() - scale);
        let sign = if unscaled < 0 { "-" } else { "" };
        let plain = format!("{}{}.{}", sign, whole, fraction);
        let padded = format!("{}000{}.{}000", sign, whole, fraction);
        let a = Decimal::from_str(&plain).unwrap();
        let b = Decimal::from_str(&padded).unwrap();
        assert_eq!(a, b, "{} {}", plain, padded);
        assert_eq!(a.to_string(), b.to_string());
        assert_eq!(Decimal::from_str(&a.to_string()).unwrap(), a);
        if unscaled % 10 != 0 || scale == 0 {
            assert_eq!(a.unscaled(), &Integer::from_i128(unscaled as i128));
            assert_eq!(a.scale(), scale);
        }
    }
}
