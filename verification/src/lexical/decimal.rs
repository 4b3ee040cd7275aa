//! The lexical space of `xsd:decimal`: an optional sign, then decimal digits with at most
//! one decimal point among them. At least one digit is needed, on either side of the point.
use crate::lexical::{scan_outcome, LexicalError};
use crate::lexical::integer::{
    all_digits, digit_char, digits_value, has_minus, has_sign, is_digit, lemma_digits_zero,
    lemma_nat_digits, nat_digits, unsigned_part,
};
use crate::text::{
    ascii_bytes, byte_char, bytes_spell, is_ascii_text, DIGIT_0, DIGIT_9, MINUS, PLUS, POINT,
};
use vstd::prelude::*;

verus! {

/// True when `b` holds only decimal digits and decimal points, and at most one point.
pub open spec fn decimal_body_prefix(b: Seq<char>) -> bool {
    &&& forall|i: int| 0 <= i < b.len() ==> is_digit(#[trigger] b[i]) || b[i] == '.'
    &&& forall|i: int, j: int|
        0 <= i < j < b.len() && #[trigger] b[i] == '.' ==> #[trigger] b[j] != '.'
}

/// True when `b` is an unsigned decimal numeral: digits with at most one decimal point
/// among them, and at least one digit.
pub open spec fn is_decimal_body(b: Seq<char>) -> bool {
    decimal_body_prefix(b) && exists|i: int| 0 <= i < b.len() && is_digit(#[trigger] b[i])
}

/// The lexical space of `xsd:decimal`.
pub open spec fn is_decimal(s: Seq<char>) -> bool {
    is_decimal_body(unsigned_part(s))
}

/// The texts that start an `xsd:decimal` literal.
pub open spec fn decimal_prefix(s: Seq<char>) -> bool {
    decimal_body_prefix(unsigned_part(s))
}

/// What the validator of `xsd:decimal` answers on the text `s`.
pub open spec fn decimal_outcome(s: Seq<char>, r: Result<(), LexicalError>) -> bool {
    scan_outcome(s, |t: Seq<char>| is_decimal(t), |t: Seq<char>| decimal_prefix(t), r)
}

/// Validates `s` against the lexical space of `xsd:decimal`.
pub fn check_decimal(s: &str) -> (r: Result<(), LexicalError>)
    ensures
        r is Ok <==> is_decimal(s@),
        decimal_outcome(s@, r),
{
    let b = match ascii_bytes(s) {
        Some(b) => b,
        None => {
            proof {
                let i = choose|i: int|
                    0 <= i < s@.len() && !('\0' <= (#[trigger] s@[i]) <= '\u{7f}');
                if has_sign(s@) {
                    assert(i > 0);
                    assert(unsigned_part(s@)[i - 1] == s@[i]);
                } else {
                    assert(unsigned_part(s@)[i] == s@[i]);
                }
            }
            return Err(LexicalError::NonAscii);
        },
    };
    let n: usize = b.len();
    if n == 0 {
        return Err(LexicalError::Empty);
    }
    let start: usize = if b[0] == PLUS || b[0] == MINUS {
        1
    } else {
        0
    };
    assert(has_sign(s@) <==> start == 1);
    let ghost u = unsigned_part(s@);
    let mut seen_digit: bool = false;
    let mut seen_point: bool = false;
    let ghost mut point: int = 0;
    let mut i: usize = start;
    while i < n
        invariant
            bytes_spell(b@, s@),
            is_ascii_text(s@),
            n == b@.len(),
            n > 0,
            start <= i <= n,
            start <= 1,
            has_sign(s@) <==> start == 1,
            u == s@.skip(start as int),
            forall|j: int| start <= j < i ==> is_digit(#[trigger] s@[j]) || s@[j] == '.',
            seen_digit <==> exists|j: int| start <= j < i && is_digit(#[trigger] s@[j]),
            seen_point ==> start <= point < i && s@[point] == '.',
            forall|j: int| start <= j < i && #[trigger] s@[j] == '.' ==> seen_point && j == point,
        decreases n - i,
    {
        let c: u8 = b[i];
        assert(byte_char(c) == s@[i as int]);
        let is_point: bool = c == POINT;
        let is_number: bool = DIGIT_0 <= c && c <= DIGIT_9;
        if (is_point && seen_point) || (!is_point && !is_number) {
            proof {
                let before = s@.take(i as int);
                let upto = s@.take(i + 1);
                assert(upto[0] == s@[0]);
                assert(has_sign(upto) <==> start == 1);
                let ub = unsigned_part(before);
                let uu = unsigned_part(upto);
                assert(uu == upto.skip(start as int));
                assert(uu[i - start] == s@[i as int]);
                if i > 0 {
                    assert(before[0] == s@[0]);
                    assert(has_sign(before) <==> start == 1);
                    assert(ub == before.skip(start as int));
                    assert forall|j: int| 0 <= j < ub.len() implies is_digit(#[trigger] ub[j])
                        || ub[j] == '.' by {
                        assert(ub[j] == s@[j + start]);
                    }
                    assert forall|j: int, k: int|
                        0 <= j < k < ub.len() && #[trigger] ub[j] == '.' implies #[trigger] ub[k]
                        != '.' by {
                        assert(ub[j] == s@[j + start]);
                        assert(ub[k] == s@[k + start]);
                    }
                } else {
                    assert(ub.len() == 0);
                }
                assert(decimal_prefix(before));
                if is_point {
                    assert(uu[point - start] == s@[point]);
                }
                assert(!decimal_prefix(upto));
                assert(u[i - start] == s@[i as int]);
                if is_point {
                    assert(u[point - start] == s@[point]);
                }
                assert(!decimal_prefix(s@));
            }
            return Err(LexicalError::UnexpectedCharacter(i));
        }
        if is_point {
            seen_point = true;
            proof {
                point = i as int;
            }
        } else {
            seen_digit = true;
        }
        i += 1;
    }
    proof {
        assert forall|j: int| 0 <= j < u.len() implies is_digit(#[trigger] u[j]) || u[j] == '.' by {
            assert(u[j] == s@[j + start]);
        }
        assert forall|j: int, k: int|
            0 <= j < k < u.len() && #[trigger] u[j] == '.' implies #[trigger] u[k] != '.' by {
            assert(u[j] == s@[j + start]);
            assert(u[k] == s@[k + start]);
        }
        assert(decimal_prefix(s@));
        if seen_digit {
            let j = choose|j: int| start <= j < n && is_digit(#[trigger] s@[j]);
            assert(u[j - start] == s@[j]);
        } else {
            if is_decimal(s@) {
                let j = choose|j: int| 0 <= j < u.len() && is_digit(#[trigger] u[j]);
                assert(u[j] == s@[j + start]);
            }
        }
    }
    if seen_digit {
        Ok(())
    } else {
        Err(LexicalError::UnexpectedEnd)
    }
}

/// Where the decimal point of `b` stands: the index of its first `.`, or the length of `b`
/// when it has none.
pub open spec fn point_index(b: Seq<char>) -> int
    decreases b.len(),
{
    if b.len() == 0 || b[0] == '.' {
        0
    } else {
        1 + point_index(b.skip(1))
    }
}

/// The digits before the decimal point of an `xsd:decimal` literal.
pub open spec fn integer_digits(s: Seq<char>) -> Seq<char> {
    let b = unsigned_part(s);
    b.take(point_index(b))
}

/// The digits after the decimal point of an `xsd:decimal` literal; none when it has no
/// point.
pub open spec fn fraction_digits(s: Seq<char>) -> Seq<char> {
    let b = unsigned_part(s);
    if point_index(b) < b.len() {
        b.skip(point_index(b) + 1)
    } else {
        Seq::empty()
    }
}

/// `f` without the zeros at its end.
pub open spec fn strip_trailing_zeros(f: Seq<char>) -> Seq<char>
    decreases f.len(),
{
    if f.len() > 0 && f.last() == '0' {
        strip_trailing_zeros(f.drop_last())
    } else {
        f
    }
}

/// The digits that count in an `xsd:decimal` literal: those before the point, then
/// those after it up to the last that is not zero.
pub open spec fn significant_digits(s: Seq<char>) -> Seq<char> {
    integer_digits(s) + strip_trailing_zeros(fraction_digits(s))
}

/// The number of digits after the point that count in an `xsd:decimal` literal.
pub open spec fn decimal_scale(s: Seq<char>) -> nat {
    strip_trailing_zeros(fraction_digits(s)).len()
}

/// The integer that the significant digits of an `xsd:decimal` literal denote, with the
/// sign of the literal. The literal denotes this integer divided by ten to the power
/// `decimal_scale`.
pub open spec fn decimal_unscaled(s: Seq<char>) -> int {
    if has_minus(s) {
        -(digits_value(significant_digits(s)) as int)
    } else {
        digits_value(significant_digits(s)) as int
    }
}

/// The point of `b` stands at `k` when no point stands before `k`, and `k` is the end of
/// `b` or holds a point.
pub proof fn lemma_point_index(b: Seq<char>, k: int)
    requires
        0 <= k <= b.len(),
        forall|i: int| 0 <= i < k ==> #[trigger] b[i] != '.',
        k < b.len() ==> b[k] == '.',
    ensures
        point_index(b) == k,
    decreases k,
{
    if k > 0 {
        let t = b.skip(1);
        assert forall|i: int| 0 <= i < k - 1 implies #[trigger] t[i] != '.' by {
            assert(t[i] == b[i + 1]);
        }
        lemma_point_index(t, k - 1);
    }
}

/// What is left after the zeros at the end of `f` are taken away does not end in zero.
pub proof fn lemma_strip_trailing_zeros(f: Seq<char>)
    ensures
        strip_trailing_zeros(f).len() <= f.len(),
        strip_trailing_zeros(f) == f.take(strip_trailing_zeros(f).len() as int),
        strip_trailing_zeros(f).len() > 0 ==> strip_trailing_zeros(f).last() != '0',
        forall|i: int|
            strip_trailing_zeros(f).len() <= i < f.len() ==> #[trigger] f[i] == '0',
    decreases f.len(),
{
    if f.len() > 0 && f.last() == '0' {
        let g = f.drop_last();
        lemma_strip_trailing_zeros(g);
        let t = strip_trailing_zeros(g);
        assert(t =~= f.take(t.len() as int));
        assert forall|i: int| t.len() <= i < f.len() implies #[trigger] f[i] == '0' by {
            if i < g.len() {
                assert(g[i] == f[i]);
            }
        }
    } else {
        assert(f =~= f.take(f.len() as int));
    }
}

/// `n` zeros.
pub open spec fn zeros(n: nat) -> Seq<char> {
    Seq::new(n, |i: int| '0')
}

/// The canonical numeral of the number `m / 10^scale`, for `m` zero or more: the decimal
/// point stands between at least one digit on either side, and no zero stands before the
/// digits of the whole part unless it is the only one.
pub open spec fn canonical_decimal_body(m: nat, scale: nat) -> Seq<char> {
    let d = nat_digits(m);
    if d.len() <= scale {
        seq!['0', '.'] + zeros((scale - d.len()) as nat) + d
    } else if scale == 0 {
        d + seq!['.', '0']
    } else {
        d.take(d.len() - scale) + seq!['.'] + d.skip(d.len() - scale)
    }
}

/// The canonical literal of the decimal number `unscaled / 10^scale`: its canonical
/// numeral, after a `-` when the number is negative.
pub open spec fn canonical_decimal(unscaled: int, scale: nat) -> Seq<char> {
    if unscaled < 0 {
        seq!['-'] + canonical_decimal_body((-unscaled) as nat, scale)
    } else {
        canonical_decimal_body(unscaled as nat, scale)
    }
}

/// Zeros before digits do not change the number that the digits denote.
pub proof fn lemma_leading_zeros(z: Seq<char>, d: Seq<char>)
    requires
        forall|i: int| 0 <= i < z.len() ==> #[trigger] z[i] == '0',
    ensures
        digits_value(z + d) == digits_value(d),
    decreases d.len(),
{
    if d.len() == 0 {
        assert(z + d =~= z);
        lemma_digits_zero(z);
    } else {
        lemma_leading_zeros(z, d.drop_last());
        assert((z + d).drop_last() =~= z + d.drop_last());
        assert((z + d).last() == d.last());
    }
}

/// The last decimal digit of `m` stands for the remainder of `m` by ten.
pub proof fn lemma_nat_digits_last(m: nat)
    ensures
        nat_digits(m).len() > 0,
        nat_digits(m).last() == digit_char(m % 10),
        nat_digits(m).last() == '0' <==> m % 10 == 0,
{
    lemma_nat_digits(m);
}

/// The canonical numeral of a reduced decimal number is an unsigned decimal numeral that
/// starts with a digit, and its parts are those of the number.
pub proof fn lemma_canonical_decimal_body(m: nat, scale: nat)
    requires
        scale > 0 ==> m % 10 != 0,
    ensures
        ({
            let b = canonical_decimal_body(m, scale);
            &&& is_decimal_body(b)
            &&& b.len() > 0
            &&& is_digit(b[0])
            &&& all_digits(b.take(point_index(b)))
            &&& point_index(b) < b.len()
            &&& digits_value(
                b.take(point_index(b)) + strip_trailing_zeros(b.skip(point_index(b) + 1)),
            ) == m
            &&& strip_trailing_zeros(b.skip(point_index(b) + 1)).len() == scale
        }),
{
    let d = nat_digits(m);
    let b = canonical_decimal_body(m, scale);
    lemma_nat_digits(m);
    lemma_nat_digits_last(m);
    if d.len() <= scale {
        let z = zeros((scale - d.len()) as nat);
        let f = z + d;
        let w = seq!['0'];
        assert(b =~= w + seq!['.'] + f);
        assert forall|i: int| 0 <= i < 1 implies #[trigger] b[i] != '.' by {}
        lemma_point_index(b, 1);
        assert(b.take(1) =~= w);
        assert(b.skip(2) =~= f);
        assert(f.last() == d.last());
        assert(strip_trailing_zeros(f) == f);
        assert(w + f =~= (w + z) + d);
        lemma_leading_zeros(w + z, d);
        assert forall|i: int| 0 <= i < b.len() implies is_digit(#[trigger] b[i]) || b[i]
            == '.' by {
            if i >= 2 + z.len() {
                assert(b[i] == d[i - 2 - z.len()]);
            }
        }
        assert forall|i: int, j: int|
            0 <= i < j < b.len() && #[trigger] b[i] == '.' implies #[trigger] b[j] != '.' by {
            if j >= 2 + z.len() {
                assert(b[j] == d[j - 2 - z.len()]);
            }
            if i >= 2 + z.len() {
                assert(b[i] == d[i - 2 - z.len()]);
            }
        }
        assert(is_digit(b[0]));
        assert(all_digits(w));
    } else {
        let k = d.len() - scale;
        let w = d.take(k);
        let f: Seq<char> = if scale == 0 {
            seq!['0']
        } else {
            d.skip(k)
        };
        assert(b =~= w + seq!['.'] + f);
        assert forall|i: int| 0 <= i < k implies #[trigger] b[i] != '.' by {
            assert(b[i] == d[i]);
        }
        assert(b[k] == '.');
        lemma_point_index(b, k);
        assert(b.take(k) =~= w);
        assert(b.skip(k + 1) =~= f);
        if scale == 0 {
            assert(f.drop_last() =~= Seq::<char>::empty());
            assert(f.last() == '0');
            assert(strip_trailing_zeros(f.drop_last()) == f.drop_last());
            assert(strip_trailing_zeros(f) == Seq::<char>::empty());
            assert(w =~= d);
            assert(w + Seq::<char>::empty() =~= d);
        } else {
            assert(f.last() == d.last());
            assert(strip_trailing_zeros(f) == f);
            assert(w + f =~= d);
        }
        assert forall|i: int| 0 <= i < b.len() implies is_digit(#[trigger] b[i]) || b[i]
            == '.' by {
            if i < k {
                assert(b[i] == d[i]);
            } else if i > k {
                if scale > 0 {
                    assert(b[i] == d[i - 1]);
                }
            }
        }
        assert forall|i: int, j: int|
            0 <= i < j < b.len() && #[trigger] b[i] == '.' implies #[trigger] b[j] != '.' by {
            if i < k {
                assert(b[i] == d[i]);
            }
            if i > k && scale > 0 {
                assert(b[i] == d[i - 1]);
            }
            if j > k && scale > 0 {
                assert(b[j] == d[j - 1]);
            }
        }
        assert(b[0] == d[0]);
        assert(is_digit(b[0]));
        assert forall|i: int| 0 <= i < w.len() implies is_digit(#[trigger] w[i]) by {
            assert(w[i] == d[i]);
        }
    }
}

/// The canonical literal of a reduced decimal number is a literal of `xsd:decimal` and
/// denotes that number.
pub proof fn lemma_canonical_decimal(unscaled: int, scale: nat)
    requires
        scale > 0 ==> unscaled % 10 != 0,
    ensures
        is_decimal(canonical_decimal(unscaled, scale)),
        decimal_unscaled(canonical_decimal(unscaled, scale)) == unscaled,
        decimal_scale(canonical_decimal(unscaled, scale)) == scale,
{
    let m: nat = if unscaled < 0 {
        (-unscaled) as nat
    } else {
        unscaled as nat
    };
    let b = canonical_decimal_body(m, scale);
    let c = canonical_decimal(unscaled, scale);
    lemma_canonical_decimal_body(m, scale);
    if unscaled < 0 {
        assert(c[0] == '-');
        assert(unsigned_part(c) =~= b);
    } else {
        assert(c[0] == b[0]);
        assert(unsigned_part(c) == b);
    }
}

/// Reduced decimal numbers with the same canonical literal are the same number.
pub proof fn lemma_canonical_decimal_is_injective(a: (int, nat), b: (int, nat))
    requires
        a.1 > 0 ==> a.0 % 10 != 0,
        b.1 > 0 ==> b.0 % 10 != 0,
        canonical_decimal(a.0, a.1) == canonical_decimal(b.0, b.1),
    ensures
        a == b,
{
    lemma_canonical_decimal(a.0, a.1);
    lemma_canonical_decimal(b.0, b.1);
}

} // verus!
