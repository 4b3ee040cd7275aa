//! The value space of `xsd:decimal`: the numbers that a finite decimal numeral can write.
use crate::datatype::Datatype;
use crate::lexical::LexicalError;
use crate::lexical::decimal::{
    canonical_decimal, canonical_decimal_body, check_decimal, decimal_outcome, decimal_scale,
    decimal_unscaled, fraction_digits, integer_digits, is_decimal, lemma_point_index,
    lemma_strip_trailing_zeros, point_index, significant_digits, strip_trailing_zeros, zeros,
};
use crate::lexical::integer::{
    all_digits, digit_value, digits_value, has_minus, has_sign, integer_value, is_digit, is_integer,
    lemma_canonical_integer, lemma_integer_is_ascii, nat_digits, unsigned_part,
};
use crate::parse::{ParseRdf, ParseRdfError};
use crate::text::{ascii_bytes, byte_char, bytes_spell, is_ascii_text, DIGIT_0, MINUS, PLUS, POINT};
use crate::value::XsdDatatype;
use crate::value::integer::Integer;
use vstd::prelude::*;
use vstd::string::{StrSliceExecFns, StringExecFns};

verus! {

/// A decimal number: an integer divided by a power of ten.
///
/// The power is the least that will do, so that two decimal numbers are equal exactly
/// when they hold the same integer and the same power.
#[derive(Debug, PartialEq, Eq, Hash)]
pub struct Decimal {
    unscaled: Integer,
    scale: usize,
}

impl View for Decimal {
    /// The integer and the exponent of ten that divides it.
    type V = (int, nat);

    closed spec fn view(&self) -> (int, nat) {
        (self.unscaled@, self.scale as nat)
    }
}

/// True when the decimal number `unscaled / 10^scale` cannot be written with a smaller
/// `scale`.
pub open spec fn is_reduced(unscaled: int, scale: nat) -> bool {
    scale > 0 ==> unscaled % 10 != 0
}

/// Ten to the power `n`.
pub open spec fn pow10(n: nat) -> nat
    decreases n,
{
    if n == 0 {
        1
    } else {
        10 * pow10((n - 1) as nat)
    }
}

/// True when `a.0 / 10^a.1` and `b.0 / 10^b.1` are the same number.
pub open spec fn same_number(a: (int, nat), b: (int, nat)) -> bool {
    a.0 * pow10(b.1) == b.0 * pow10(a.1)
}

/// Powers of ten are positive, and multiply as their exponents add.
proof fn lemma_pow10(a: nat, b: nat)
    ensures
        pow10(a) > 0,
        pow10(a + b) == pow10(a) * pow10(b),
    decreases a,
{
    if a == 0 {
        assert(pow10(a) * pow10(b) == pow10(b));
    } else {
        lemma_pow10((a - 1) as nat, b);
        assert((a + b - 1) as nat == (a - 1) as nat + b);
        assert(pow10(a + b) == 10 * pow10((a + b - 1) as nat));
        assert(10 * (pow10((a - 1) as nat) * pow10(b)) == (10 * pow10((a - 1) as nat)) * pow10(b))
            by (nonlinear_arith);
    }
}

/// A number has one reduced form: reduced decimal numbers that are the same number have
/// the same integer and the same power of ten.
pub proof fn lemma_reduced_is_unique(a: (int, nat), b: (int, nat))
    requires
        is_reduced(a.0, a.1),
        is_reduced(b.0, b.1),
        same_number(a, b),
    ensures
        a == b,
    decreases (if a.1 <= b.1 { 0nat } else { 1nat }),
{
    if a.1 <= b.1 {
        let d = (b.1 - a.1) as nat;
        lemma_pow10(a.1, d);
        lemma_pow10(d, 0);
        let p = pow10(a.1);
        let q = pow10(d);
        assert(a.0 * (p * q) == (a.0 * q) * p) by (nonlinear_arith);
        assert(a.0 * q == b.0) by (nonlinear_arith)
            requires
                (a.0 * q) * p == b.0 * p,
                p > 0,
        ;
        if d > 0 {
            let r = pow10((d - 1) as nat);
            assert(q == 10 * r);
            assert(b.0 == 10 * (a.0 * r)) by (nonlinear_arith)
                requires
                    b.0 == a.0 * q,
                    q == 10 * r,
            ;
            assert(b.0 % 10 == 0);
        } else {
            assert(q == 1);
            assert(a.0 * 1 == a.0);
            assert(a.0 == b.0);
            assert(a.1 == b.1);
        }
    } else {
        lemma_reduced_is_unique(b, a);
    }
}

/// Zeros at the end of digits multiply the number that the digits denote by ten each.
proof fn lemma_trailing_zeros(d: Seq<char>, f: Seq<char>)
    ensures
        digits_value(d + f) == digits_value(d + strip_trailing_zeros(f)) * pow10(
            (f.len() - strip_trailing_zeros(f).len()) as nat,
        ),
    decreases f.len(),
{
    lemma_strip_trailing_zeros(f);
    let t = strip_trailing_zeros(f);
    if f.len() > 0 && f.last() == '0' {
        let g = f.drop_last();
        lemma_trailing_zeros(d, g);
        lemma_strip_trailing_zeros(g);
        assert((d + f).drop_last() =~= d + g);
        assert((d + f).last() == '0');
        let n = (g.len() - t.len()) as nat;
        assert(pow10(n + 1) == 10 * pow10(n));
        assert(10 * (digits_value(d + t) * pow10(n)) == digits_value(d + t) * (10 * pow10(n)))
            by (nonlinear_arith);
    } else {
        assert(digits_value(d + t) * 1 == digits_value(d + t));
    }
}

/// What a literal of `xsd:decimal` denotes is the number that its digits write: the
/// integer that all its digits denote, with its sign, divided by ten to the power of the
/// number of digits after the point.
pub proof fn lemma_decimal_value_is_exact(s: Seq<char>)
    requires
        is_decimal(s),
    ensures
        same_number(
            decimal_value(s),
            (
                if has_minus(s) {
                    -(digits_value(integer_digits(s) + fraction_digits(s)) as int)
                } else {
                    digits_value(integer_digits(s) + fraction_digits(s)) as int
                },
                fraction_digits(s).len(),
            ),
        ),
{
    let w = integer_digits(s);
    let f = fraction_digits(s);
    let t = strip_trailing_zeros(f);
    lemma_trailing_zeros(w, f);
    lemma_strip_trailing_zeros(f);
    let n = (f.len() - t.len()) as nat;
    lemma_pow10(t.len(), n);
    let a = digits_value(w + t) as int;
    let p = pow10(t.len()) as int;
    let q = pow10(n) as int;
    assert(a * (p * q) == (a * q) * p) by (nonlinear_arith);
    assert((-a) * (p * q) == (-(a * q)) * p) by (nonlinear_arith);
}

/// The number that an `xsd:decimal` literal denotes, as an integer and the exponent of
/// ten that divides it.
pub open spec fn decimal_value(s: Seq<char>) -> (int, nat) {
    (decimal_unscaled(s), decimal_scale(s))
}

/// A literal of `xsd:decimal` is made of ASCII characters.
pub proof fn lemma_decimal_is_ascii(s: Seq<char>)
    requires
        is_decimal(s),
    ensures
        is_ascii_text(s),
{
    let u = unsigned_part(s);
    assert forall|i: int| 0 <= i < s.len() implies '\0' <= (#[trigger] s[i]) <= '\u{7f}' by {
        if has_sign(s) {
            if i > 0 {
                assert(u[i - 1] == s[i]);
            }
        } else {
            assert(u[i] == s[i]);
        }
    }
}

/// The zeros at the end of `f` start at `m` when `f` holds zeros from `m` on and no zero
/// just before `m`.
proof fn lemma_strip_to(f: Seq<char>, m: int)
    requires
        0 <= m <= f.len(),
        forall|i: int| m <= i < f.len() ==> #[trigger] f[i] == '0',
        m > 0 ==> f[m - 1] != '0',
    ensures
        strip_trailing_zeros(f) == f.take(m),
    decreases f.len() - m,
{
    if m < f.len() {
        let g = f.drop_last();
        assert(f.last() == f[f.len() - 1]);
        assert forall|i: int| m <= i < g.len() implies #[trigger] g[i] == '0' by {
            assert(g[i] == f[i]);
        }
        if m > 0 {
            assert(g[m - 1] == f[m - 1]);
        }
        lemma_strip_to(g, m);
        assert(g.take(m) =~= f.take(m));
    } else {
        assert(f.take(m) =~= f);
        if m > 0 {
            assert(f.last() == f[m - 1]);
        }
    }
}

/// The number that digits denote ends, in base ten, in the number of their last digit.
proof fn lemma_last_digit(d: Seq<char>)
    requires
        d.len() > 0,
        is_digit(d.last()),
    ensures
        digits_value(d) % 10 == digit_value(d.last()),
{
}

/// Where the parts of a decimal literal stand in its text.
struct DecimalParts {
    /// Whether the literal starts with `-`.
    minus: bool,
    /// Where the digits before the point start.
    start: usize,
    /// Where the point stands, or the end of the text when there is none.
    point: usize,
    /// Where the digits after the point start.
    fraction: usize,
    /// Where the digits after the point that count end.
    end: usize,
}

impl DecimalParts {
    /// True when the parts are those of the literal `s`.
    spec fn describes(self, s: Seq<char>) -> bool {
        &&& self.minus == has_minus(s)
        &&& self.start <= self.point <= s.len()
        &&& self.fraction <= self.end <= s.len()
        &&& s.subrange(self.start as int, self.point as int) == integer_digits(s)
        &&& s.subrange(self.fraction as int, self.end as int) == strip_trailing_zeros(
            fraction_digits(s),
        )
    }
}

/// Finds the parts of the literal `s`, whose bytes are `b`.
fn decimal_parts(b: &[u8], Ghost(s): Ghost<Seq<char>>) -> (r: DecimalParts)
    requires
        bytes_spell(b@, s),
        is_decimal(s),
    ensures
        r.describes(s),
{
    let n: usize = b.len();
    let ghost body = unsigned_part(s);
    assert(n > 0) by {
        let j = choose|j: int| 0 <= j < body.len() && is_digit(#[trigger] body[j]);
    }
    let minus: bool = b[0] == MINUS;
    let start: usize = if b[0] == PLUS || minus {
        1
    } else {
        0
    };
    assert(has_sign(s) <==> start == 1);
    assert(body == s.skip(start as int));
    let mut p: usize = start;
    while p < n && b[p] != POINT
        invariant
            bytes_spell(b@, s),
            n == b@.len(),
            start <= p <= n,
            forall|i: int| start <= i < p ==> #[trigger] s[i] != '.',
        decreases n - p,
    {
        assert(byte_char(b@[p as int]) == s[p as int]);
        p += 1;
    }
    proof {
        if p < n {
            assert(byte_char(b@[p as int]) == s[p as int]);
        }
        assert forall|i: int| 0 <= i < p - start implies #[trigger] body[i] != '.' by {
            assert(body[i] == s[i + start]);
        }
        lemma_point_index(body, p - start);
        assert(s.subrange(start as int, p as int) =~= integer_digits(s));
    }
    if p == n {
        assert(s.subrange(n as int, n as int) =~= fraction_digits(s));
        return DecimalParts { minus, start, point: p, fraction: n, end: n };
    }
    let from: usize = p + 1;
    let mut end: usize = n;
    while end > from && b[end - 1] == DIGIT_0
        invariant
            bytes_spell(b@, s),
            n == b@.len(),
            from <= end <= n,
            forall|i: int| end <= i < n ==> #[trigger] s[i] == '0',
        decreases end,
    {
        assert(byte_char(b@[end - 1]) == s[end - 1]);
        end -= 1;
    }
    proof {
        let f = fraction_digits(s);
        assert(f =~= s.subrange(from as int, n as int));
        assert forall|i: int| end - from <= i < f.len() implies #[trigger] f[i] == '0' by {
            assert(f[i] == s[i + from]);
        }
        if end > from {
            assert(byte_char(b@[end - 1]) == s[end - 1]);
            assert(f[end - from - 1] == s[end - 1]);
        }
        lemma_strip_to(f, end - from);
        assert(s.subrange(from as int, end as int) =~= f.take(end - from));
    }
    DecimalParts { minus, start, point: p, fraction: from, end }
}

/// The significant digits of a decimal literal are digits, and the last of them is not
/// zero when it stands after the point.
proof fn lemma_significant_digits(s: Seq<char>)
    requires
        is_decimal(s),
    ensures
        all_digits(significant_digits(s)),
        decimal_scale(s) > 0 ==> digits_value(significant_digits(s)) % 10 != 0,
{
    let body = unsigned_part(s);
    let w = integer_digits(s);
    let f = fraction_digits(s);
    let t = strip_trailing_zeros(f);
    let d = significant_digits(s);
    let p = point_index(body);
    lemma_point_bounds(body);
    lemma_strip_trailing_zeros(f);
    assert forall|i: int| 0 <= i < d.len() implies is_digit(#[trigger] d[i]) by {
        if i < w.len() {
            assert(d[i] == body[i]);
        } else {
            assert(d[i] == t[i - w.len()]);
            assert(t[i - w.len()] == f[i - w.len()]);
            assert(f[i - w.len()] == body[i + 1]);
        }
    }
    if t.len() > 0 {
        assert(d.last() == t.last());
        assert(is_digit(d[d.len() - 1]));
        lemma_last_digit(d);
    }
}

/// The point index of `b` lies within `b`, no point stands before it, and a point stands
/// at it unless it is the end of `b`.
proof fn lemma_point_bounds(b: Seq<char>)
    ensures
        0 <= point_index(b) <= b.len(),
        forall|i: int| 0 <= i < point_index(b) ==> #[trigger] b[i] != '.',
        point_index(b) < b.len() ==> b[point_index(b)] == '.',
    decreases b.len(),
{
    if b.len() == 0 || b[0] == '.' {
    } else {
        let t = b.skip(1);
        lemma_point_bounds(t);
        assert forall|i: int| 0 <= i < point_index(b) implies #[trigger] b[i] != '.' by {
            if i > 0 {
                assert(t[i - 1] == b[i]);
            }
        }
        if point_index(b) < b.len() {
            assert(t[point_index(t)] == b[point_index(b)]);
        }
    }
}

/// The integer literal made of a `-` when `minus` holds and of `digits`, or of `0` when
/// there are no digits, denotes the number of the digits with that sign.
proof fn lemma_signed_digits(minus: bool, digits: Seq<char>, literal: Seq<char>)
    requires
        all_digits(digits),
        literal == (if minus {
            seq!['-']
        } else {
            Seq::<char>::empty()
        }) + (if digits.len() == 0 {
            seq!['0']
        } else {
            digits
        }),
    ensures
        is_integer(literal),
        integer_value(literal) == (if minus {
            -(digits_value(digits) as int)
        } else {
            digits_value(digits) as int
        }),
{
    let shown: Seq<char> = if digits.len() == 0 {
        seq!['0']
    } else {
        digits
    };
    assert(is_digit(shown[0]));
    if minus {
        assert(literal[0] == '-');
    } else {
        assert(literal[0] == shown[0]);
    }
    assert(unsigned_part(literal) =~= shown);
    if digits.len() == 0 {
        assert(shown.drop_last() =~= Seq::<char>::empty());
        assert(digits_value(shown.drop_last()) == 0);
        assert(shown.last() == '0');
        assert(digits_value(shown) == 0);
    }
}

impl Decimal {
    /// What holds of every value of this type: the power of ten is the least that will do.
    #[verifier::type_invariant]
    pub open spec fn wf(&self) -> bool {
        is_reduced(self@.0, self@.1)
    }

    /// Reads a decimal number from a literal of `xsd:decimal`.
    pub fn from_str(s: &str) -> (r: Result<Decimal, LexicalError>)
        ensures
            r is Ok <==> is_decimal(s@),
            r matches Ok(d) ==> d@ == decimal_value(s@) && is_reduced(d@.0, d@.1),
            r matches Err(e) ==> decimal_outcome(s@, Err(e)),
    {
        match check_decimal(s) {
            Ok(()) => {},
            Err(e) => {
                return Err(e);
            },
        }
        proof {
            lemma_decimal_is_ascii(s@);
        }
        let b = match ascii_bytes(s) {
            Some(b) => b,
            None => {
                return Err(LexicalError::NonAscii);
            },
        };
        let parts = decimal_parts(b, Ghost(s@));
        let whole = s.substring_ascii(parts.start, parts.point);
        let fraction = s.substring_ascii(parts.fraction, parts.end);
        let scale: usize = parts.end - parts.fraction;
        let no_digits: bool = parts.point - parts.start == 0 && scale == 0;
        let mut literal = String::new();
        if parts.minus {
            literal.append("-");
        }
        literal.append(whole);
        literal.append(fraction);
        if no_digits {
            literal.append("0");
        }
        proof {
            reveal_strlit("-");
            reveal_strlit("0");
            assert("-"@ =~= seq!['-']);
            assert("0"@ =~= seq!['0']);
            lemma_significant_digits(s@);
            let d = significant_digits(s@);
            assert(whole@ + fraction@ =~= d);
            assert(no_digits <==> d.len() == 0);
            assert(literal@ =~= (if parts.minus {
                seq!['-']
            } else {
                Seq::<char>::empty()
            }) + (if d.len() == 0 {
                seq!['0']
            } else {
                d
            }));
            lemma_signed_digits(parts.minus, d, literal@);
        }
        let unscaled = Integer::from_literal(literal.as_str());
        Ok(Decimal { unscaled, scale })
    }

    /// The canonical literal of this number: at least one digit on either side of the
    /// decimal point, no other zero before the whole part or after the fraction, and a
    /// `-` before a negative number.
    pub fn to_string(&self) -> (r: String)
        ensures
            r@ == canonical_decimal(self@.0, self@.1),
    {
        let text = self.unscaled.to_string();
        let ghost u = self.unscaled@;
        let ghost m: nat = if u < 0 {
            (-u) as nat
        } else {
            u as nat
        };
        let ghost d = nat_digits(m);
        proof {
            lemma_canonical_integer(u);
            lemma_integer_is_ascii(text@);
            crate::lexical::integer::lemma_nat_digits(m);
        }
        let b = match ascii_bytes(text.as_str()) {
            Some(b) => b,
            None => {
                return text;
            },
        };
        let n: usize = b.len();
        let minus: bool = b[0] == MINUS;
        let start: usize = if minus {
            1
        } else {
            0
        };
        proof {
            assert(byte_char(b@[0]) == text@[0]);
            if u < 0 {
                assert(text@[0] == '-');
            } else {
                assert(text@[0] == d[0]);
                assert(is_digit(d[0]));
            }
        }
        let digits = text.as_str().substring_ascii(start, n);
        assert(digits@ =~= d);
        let count: usize = n - start;
        let scale: usize = self.scale;
        let mut out = String::new();
        proof {
            reveal_strlit("-");
            reveal_strlit("0.");
            reveal_strlit("0");
            reveal_strlit(".");
            reveal_strlit(".0");
            assert("-"@ =~= seq!['-']);
            assert("0."@ =~= seq!['0', '.']);
            assert("0"@ =~= seq!['0']);
            assert("."@ =~= seq!['.']);
            assert(".0"@ =~= seq!['.', '0']);
        }
        if minus {
            out.append("-");
        }
        let ghost sign = out@;
        if count <= scale {
            out.append("0.");
            let mut i: usize = 0;
            while i < scale - count
                invariant
                    count <= scale,
                    i <= scale - count,
                    "0"@ == seq!['0'],
                    out@ == sign + seq!['0', '.'] + zeros(i as nat),
                decreases scale - count - i,
            {
                out.append("0");
                proof {
                    assert(zeros(i as nat) + seq!['0'] =~= zeros((i + 1) as nat));
                    assert(out@ =~= sign + seq!['0', '.'] + zeros((i + 1) as nat));
                }
                i += 1;
            }
            out.append(digits);
            assert(out@ =~= sign + canonical_decimal_body(m, scale as nat));
        } else if scale == 0 {
            out.append(digits);
            out.append(".0");
            assert(out@ =~= sign + canonical_decimal_body(m, scale as nat));
        } else {
            let whole = digits.substring_ascii(0, count - scale);
            let fraction = digits.substring_ascii(count - scale, count);
            out.append(whole);
            out.append(".");
            out.append(fraction);
            assert(out@ =~= sign + canonical_decimal_body(m, scale as nat));
        }
        assert(out@ =~= canonical_decimal(u, scale as nat));
        out
    }

    /// The integer that, divided by ten to the power `scale`, gives this number.
    pub fn unscaled(&self) -> (r: &Integer)
        ensures
            r@ == self@.0,
    {
        &self.unscaled
    }

    /// The exponent of the power of ten that divides `unscaled`.
    pub fn scale(&self) -> (r: usize)
        ensures
            r == self@.1,
    {
        self.scale
    }
}

impl Clone for Decimal {
    fn clone(&self) -> (r: Self)
        ensures
            r@ == self@,
    {
        proof {
            use_type_invariant(self);
        }
        Decimal { unscaled: self.unscaled.clone(), scale: self.scale }
    }
}

impl XsdDatatype for Decimal {
    open spec fn spec_type(&self) -> Datatype {
        Datatype::Decimal(None)
    }

    fn type_(&self) -> (r: Datatype) {
        Datatype::Decimal(None)
    }
}

impl ParseRdf for Decimal {
    open spec fn is_literal(s: Seq<char>) -> bool {
        is_decimal(s)
    }

    open spec fn in_value_space(s: Seq<char>) -> bool {
        true
    }

    open spec fn denotes(s: Seq<char>, v: Self) -> bool {
        v@ == decimal_value(s)
    }

    open spec fn lexical_error(s: Seq<char>, e: LexicalError) -> bool {
        decimal_outcome(s, Err(e))
    }

    fn parse_rdf(lexical_value: &str) -> (r: Result<Self, ParseRdfError<LexicalError, Integer>>) {
        match Decimal::from_str(lexical_value) {
            Ok(v) => Ok(v),
            Err(e) => Err(ParseRdfError::InvalidLexicalForm(e)),
        }
    }
}

} // verus!
