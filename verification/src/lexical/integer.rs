//! The lexical space of `xsd:integer` and of the datatypes derived from it: an optional
//! sign, then one or more decimal digits. Leading zeros are allowed.
use crate::lexical::{scan_outcome, LexicalError};
use crate::text::{
    ascii_bytes, byte_char, bytes_spell, is_ascii_text, DIGIT_0, DIGIT_9, MINUS, PLUS,
};
use vstd::prelude::*;

verus! {

/// True for the ten decimal digits.
pub open spec fn is_digit(c: char) -> bool {
    '0' <= c && c <= '9'
}

/// The number that a decimal digit stands for.
pub open spec fn digit_value(c: char) -> nat {
    (c as int - '0' as int) as nat
}

/// The decimal digit that stands for `d`, for `d` below ten.
pub open spec fn digit_char(d: nat) -> char {
    ((d + DIGIT_0) as u8) as char
}

/// True when every character of `s` is a decimal digit.
pub open spec fn all_digits(s: Seq<char>) -> bool {
    forall|i: int| 0 <= i < s.len() ==> is_digit(#[trigger] s[i])
}

/// The number that a sequence of decimal digits denotes, most significant digit first.
/// The empty sequence denotes zero.
pub open spec fn digits_value(s: Seq<char>) -> nat
    decreases s.len(),
{
    if s.len() == 0 {
        0
    } else {
        10 * digits_value(s.drop_last()) + digit_value(s.last())
    }
}

/// True when `s` starts with `+` or `-`.
pub open spec fn has_sign(s: Seq<char>) -> bool {
    s.len() > 0 && (s[0] == '+' || s[0] == '-')
}

/// True when `s` starts with `-`.
pub open spec fn has_minus(s: Seq<char>) -> bool {
    s.len() > 0 && s[0] == '-'
}

/// `s` without its sign, if it has one.
pub open spec fn unsigned_part(s: Seq<char>) -> Seq<char> {
    if has_sign(s) {
        s.skip(1)
    } else {
        s
    }
}

/// The lexical space of `xsd:integer`.
pub open spec fn is_integer(s: Seq<char>) -> bool {
    unsigned_part(s).len() > 0 && all_digits(unsigned_part(s))
}

/// The texts that start an `xsd:integer` literal.
pub open spec fn integer_prefix(s: Seq<char>) -> bool {
    all_digits(unsigned_part(s))
}

/// The integer that an `xsd:integer` literal denotes.
pub open spec fn integer_value(s: Seq<char>) -> int {
    if has_minus(s) {
        -(digits_value(unsigned_part(s)) as int)
    } else {
        digits_value(unsigned_part(s)) as int
    }
}

/// The decimal digits of `n`, most significant first, without leading zeros: `"0"` for
/// zero.
pub open spec fn nat_digits(n: nat) -> Seq<char>
    decreases n,
{
    if n < 10 {
        seq![digit_char(n)]
    } else {
        nat_digits(n / 10).push(digit_char(n % 10))
    }
}

/// The canonical literal of the integer `v`: its decimal digits without leading zeros,
/// after a `-` when `v` is negative. No `+` is written.
pub open spec fn canonical_integer(v: int) -> Seq<char> {
    if v < 0 {
        seq!['-'] + nat_digits((-v) as nat)
    } else {
        nat_digits(v as nat)
    }
}

/// The digits of `n` are digits, there is at least one, the first is `0` only for zero,
/// and they denote `n`.
pub proof fn lemma_nat_digits(n: nat)
    ensures
        nat_digits(n).len() > 0,
        all_digits(nat_digits(n)),
        digits_value(nat_digits(n)) == n,
        nat_digits(n)[0] == '0' <==> n == 0,
    decreases n,
{
    if n < 10 {
        let s = nat_digits(n);
        assert(s.drop_last() =~= Seq::<char>::empty());
        assert(digits_value(s.drop_last()) == 0);
    } else {
        lemma_nat_digits(n / 10);
        let s = nat_digits(n);
        let p = nat_digits(n / 10);
        assert(s.drop_last() =~= p);
        assert(s.last() == digit_char(n % 10));
        assert(s[0] == p[0]);
        assert forall|i: int| 0 <= i < s.len() implies is_digit(#[trigger] s[i]) by {
            if i < p.len() {
                assert(s[i] == p[i]);
            }
        }
    }
}

/// The canonical literal of an integer is a literal of `xsd:integer` and denotes that
/// integer.
pub proof fn lemma_canonical_integer(v: int)
    ensures
        is_integer(canonical_integer(v)),
        integer_value(canonical_integer(v)) == v,
        has_minus(canonical_integer(v)) <==> v < 0,
{
    let s = canonical_integer(v);
    if v < 0 {
        lemma_nat_digits((-v) as nat);
        assert(s[0] == '-');
        assert(s.skip(1) =~= nat_digits((-v) as nat));
    } else {
        lemma_nat_digits(v as nat);
        assert(is_digit(s[0]));
        assert(unsigned_part(s) == s);
    }
}

/// Integers with the same canonical literal are the same integer.
pub proof fn lemma_canonical_integer_is_injective(a: int, b: int)
    requires
        canonical_integer(a) == canonical_integer(b),
    ensures
        a == b,
{
    lemma_canonical_integer(a);
    lemma_canonical_integer(b);
}

/// A sequence of digits denotes zero exactly when all its digits are `0`.
pub proof fn lemma_digits_zero(s: Seq<char>)
    requires
        all_digits(s),
    ensures
        digits_value(s) == 0 <==> (forall|i: int| 0 <= i < s.len() ==> #[trigger] s[i] == '0'),
    decreases s.len(),
{
    if s.len() > 0 {
        let p = s.drop_last();
        assert forall|i: int| 0 <= i < p.len() implies is_digit(#[trigger] p[i]) by {
            assert(p[i] == s[i]);
        }
        lemma_digits_zero(p);
        assert(is_digit(s.last()));
        if digits_value(s) == 0 {
            assert forall|i: int| 0 <= i < s.len() implies #[trigger] s[i] == '0' by {
                if i < p.len() {
                    assert(p[i] == s[i]);
                }
            }
        } else {
            if forall|i: int| 0 <= i < s.len() ==> #[trigger] s[i] == '0' {
                assert forall|i: int| 0 <= i < p.len() implies #[trigger] p[i] == '0' by {
                    assert(p[i] == s[i]);
                }
                assert(s.last() == s[s.len() - 1]);
            }
        }
    }
}

/// What the validator of `xsd:integer` answers on the text `s`.
pub open spec fn integer_outcome(s: Seq<char>, r: Result<(), LexicalError>) -> bool {
    scan_outcome(s, |t: Seq<char>| is_integer(t), |t: Seq<char>| integer_prefix(t), r)
}

/// The sign of a number: negative, zero or positive.
#[derive(Clone, Copy, Debug, PartialEq, Eq, Hash)]
pub enum Sign {
    Minus,
    NoSign,
    Plus,
}

/// The sign of the integer `v`.
pub open spec fn sign_of(v: int) -> Sign {
    if v < 0 {
        Sign::Minus
    } else if v == 0 {
        Sign::NoSign
    } else {
        Sign::Plus
    }
}

/// A literal of `xsd:integer` is made of ASCII characters.
pub proof fn lemma_integer_is_ascii(s: Seq<char>)
    requires
        is_integer(s),
    ensures
        is_ascii_text(s),
{
    let u = unsigned_part(s);
    assert forall|i: int| 0 <= i < s.len() implies '\0' <= (#[trigger] s[i]) <= '\u{7f}' by {
        if has_sign(s) {
            if i > 0 {
                assert(is_digit(u[i - 1]));
            }
        } else {
            assert(is_digit(u[i]));
        }
    }
}

/// Validates `s` against the lexical space of `xsd:integer` and, for a literal, tells the
/// sign of the integer it denotes.
pub fn scan_integer(s: &str) -> (r: Result<Sign, LexicalError>)
    ensures
        r is Ok <==> is_integer(s@),
        r matches Ok(sign) ==> sign == sign_of(integer_value(s@)),
        r matches Err(e) ==> integer_outcome(s@, Err(e)),
{
    let b = match ascii_bytes(s) {
        Some(b) => b,
        None => {
            proof {
                if is_integer(s@) {
                    lemma_integer_is_ascii(s@);
                }
            }
            return Err(LexicalError::NonAscii);
        },
    };
    let n: usize = b.len();
    if n == 0 {
        return Err(LexicalError::Empty);
    }
    let minus: bool = b[0] == MINUS;
    let start: usize = if b[0] == PLUS || minus {
        1
    } else {
        0
    };
    assert(has_sign(s@) <==> start == 1);
    assert(has_minus(s@) <==> minus);
    let ghost u = unsigned_part(s@);
    let mut zero: bool = true;
    let mut i: usize = start;
    while i < n
        invariant
            bytes_spell(b@, s@),
            n == b@.len(),
            start <= i <= n,
            start <= 1,
            n > 0,
            is_ascii_text(s@),
            has_sign(s@) <==> start == 1,
            u == s@.skip(start as int),
            forall|j: int| start <= j < i ==> is_digit(#[trigger] s@[j]),
            zero <==> (forall|j: int| start <= j < i ==> #[trigger] s@[j] == '0'),
        decreases n - i,
    {
        let c: u8 = b[i];
        assert(byte_char(c) == s@[i as int]);
        if c < DIGIT_0 || c > DIGIT_9 {
            proof {
                let before = s@.take(i as int);
                let upto = s@.take(i + 1);
                assert(!is_digit(s@[i as int]));
                assert(upto[i as int] == s@[i as int]);
                assert(upto[0] == s@[0]);
                assert(u[i - start] == s@[i as int]);
                if i == 0 {
                    assert(!has_sign(upto));
                    assert(unsigned_part(upto) == upto);
                } else {
                    assert(before[0] == s@[0]);
                    assert(has_sign(upto) <==> start == 1);
                    assert(has_sign(before) <==> start == 1);
                    assert(unsigned_part(upto)[i - start] == s@[i as int]);
                    assert forall|j: int| 0 <= j < unsigned_part(before).len() implies is_digit(
                        #[trigger] unsigned_part(before)[j],
                    ) by {
                        assert(unsigned_part(before)[j] == s@[j + start]);
                    }
                }
                assert(integer_prefix(before));
                assert(!integer_prefix(upto));
            }
            return Err(LexicalError::UnexpectedCharacter(i));
        }
        if c != DIGIT_0 {
            zero = false;
        }
        i += 1;
    }
    proof {
        assert forall|j: int| 0 <= j < u.len() implies is_digit(#[trigger] u[j]) by {
            assert(u[j] == s@[j + start]);
        }
        lemma_digits_zero(u);
        if zero {
            assert forall|j: int| 0 <= j < u.len() implies #[trigger] u[j] == '0' by {
                assert(u[j] == s@[j + start]);
            }
        } else {
            let j = choose|j: int| start <= j < n && #[trigger] s@[j] != '0';
            assert(u[j - start] == s@[j]);
        }
    }
    if n == start {
        Err(LexicalError::UnexpectedEnd)
    } else if zero {
        Ok(Sign::NoSign)
    } else if minus {
        Ok(Sign::Minus)
    } else {
        Ok(Sign::Plus)
    }
}

/// The lexical space of `xsd:nonNegativeInteger`: the `xsd:integer` literals that denote
/// zero or more.
/// A `-` may stand only before zeros.
pub open spec fn is_non_negative_integer(s: Seq<char>) -> bool {
    is_integer(s) && integer_value(s) >= 0
}

/// The lexical space of `xsd:positiveInteger`: the `xsd:integer` literals that denote one or more.
pub open spec fn is_positive_integer(s: Seq<char>) -> bool {
    is_integer(s) && integer_value(s) > 0
}

/// The lexical space of `xsd:nonPositiveInteger`: the `xsd:integer` literals that denote
/// zero or less.
/// A `+` or no sign may stand only before zeros.
pub open spec fn is_non_positive_integer(s: Seq<char>) -> bool {
    is_integer(s) && integer_value(s) <= 0
}

/// The lexical space of `xsd:negativeInteger`: the `xsd:integer` literals that denote
/// minus one or less.
pub open spec fn is_negative_integer(s: Seq<char>) -> bool {
    is_integer(s) && integer_value(s) < 0
}

/// What a validator of a datatype derived from `xsd:integer` answers on the text `s`,
/// where `allowed` tells the integers of the datatype: `Ok` on a literal that denotes
/// an allowed integer, `OutOfRange` on a literal that denotes another, and on any other
/// text what the validator of `xsd:integer` answers.
pub open spec fn restricted_outcome(
    s: Seq<char>,
    allowed: spec_fn(int) -> bool,
    r: Result<(), LexicalError>,
) -> bool {
    match r {
        Ok(()) => is_integer(s) && allowed(integer_value(s)),
        Err(LexicalError::OutOfRange) => is_integer(s) && !allowed(integer_value(s)),
        Err(e) => !is_integer(s) && integer_outcome(s, Err(e)),
    }
}

/// Validates `s` against the lexical space of `xsd:integer`.
pub fn check_integer(s: &str) -> (r: Result<(), LexicalError>)
    ensures
        r is Ok <==> is_integer(s@),
        integer_outcome(s@, r),
{
    match scan_integer(s) {
        Ok(_) => Ok(()),
        Err(e) => Err(e),
    }
}

/// Validates `s` against the lexical space of `xsd:nonNegativeInteger`.
pub fn check_non_negative_integer(s: &str) -> (r: Result<(), LexicalError>)
    ensures
        r is Ok <==> is_non_negative_integer(s@),
        restricted_outcome(s@, |v: int| v >= 0, r),
{
    match scan_integer(s) {
        Ok(Sign::Minus) => Err(LexicalError::OutOfRange),
        Ok(_) => Ok(()),
        Err(e) => Err(e),
    }
}

/// Validates `s` against the lexical space of `xsd:positiveInteger`.
pub fn check_positive_integer(s: &str) -> (r: Result<(), LexicalError>)
    ensures
        r is Ok <==> is_positive_integer(s@),
        restricted_outcome(s@, |v: int| v > 0, r),
{
    match scan_integer(s) {
        Ok(Sign::Plus) => Ok(()),
        Ok(_) => Err(LexicalError::OutOfRange),
        Err(e) => Err(e),
    }
}

/// Validates `s` against the lexical space of `xsd:nonPositiveInteger`.
pub fn check_non_positive_integer(s: &str) -> (r: Result<(), LexicalError>)
    ensures
        r is Ok <==> is_non_positive_integer(s@),
        restricted_outcome(s@, |v: int| v <= 0, r),
{
    match scan_integer(s) {
        Ok(Sign::Plus) => Err(LexicalError::OutOfRange),
        Ok(_) => Ok(()),
        Err(e) => Err(e),
    }
}

/// Validates `s` against the lexical space of `xsd:negativeInteger`.
pub fn check_negative_integer(s: &str) -> (r: Result<(), LexicalError>)
    ensures
        r is Ok <==> is_negative_integer(s@),
        restricted_outcome(s@, |v: int| v < 0, r),
{
    match scan_integer(s) {
        Ok(Sign::Minus) => Ok(()),
        Ok(_) => Err(LexicalError::OutOfRange),
        Err(e) => Err(e),
    }
}

/// A text that has been validated as a literal of `xsd:integer`.
#[derive(Debug, PartialEq, Eq, Hash)]
pub struct IntegerBuf {
    text: String,
}

impl View for IntegerBuf {
    type V = Seq<char>;

    closed spec fn view(&self) -> Seq<char> {
        self.text@
    }
}

impl Clone for IntegerBuf {
    fn clone(&self) -> (r: Self)
        ensures
            r@ == self@,
    {
        proof {
            use_type_invariant(self);
        }
        IntegerBuf { text: self.text.clone() }
    }
}

impl IntegerBuf {
    /// What holds of every value of this type.
    #[verifier::type_invariant]
    pub open spec fn wf(&self) -> bool {
        is_integer(self@)
    }

    /// Validates `s` and keeps a copy of it.
    pub fn new(s: &str) -> (r: Result<Self, LexicalError>)
        ensures
            r is Ok <==> is_integer(s@),
            r matches Ok(l) ==> l@ == s@,
            r matches Err(e) ==> integer_outcome(s@, Err(e)),
    {
        match check_integer(s) {
            Ok(()) => Ok(IntegerBuf { text: s.to_owned() }),
            Err(e) => Err(e),
        }
    }

    /// Keeps `text`, which the caller knows to be a literal.
    pub(crate) fn new_unchecked(text: String) -> (r: Self)
        requires
            is_integer(text@),
        ensures
            r@ == text@,
    {
        IntegerBuf { text }
    }

    /// The literal.
    pub fn as_str(&self) -> (r: &str)
        ensures
            r@ == self@,
            is_integer(r@),
    {
        proof {
            use_type_invariant(self);
        }
        self.text.as_str()
    }

    /// The literal, as an owned string.
    pub fn into_string(self) -> (r: String)
        ensures
            r@ == self@,
            is_integer(r@),
    {
        proof {
            use_type_invariant(&self);
        }
        self.text
    }
}

/// A text that has been validated as a literal of `xsd:nonNegativeInteger`.
#[derive(Debug, PartialEq, Eq, Hash)]
pub struct NonNegativeIntegerBuf {
    text: String,
}

impl View for NonNegativeIntegerBuf {
    type V = Seq<char>;

    closed spec fn view(&self) -> Seq<char> {
        self.text@
    }
}

impl Clone for NonNegativeIntegerBuf {
    fn clone(&self) -> (r: Self)
        ensures
            r@ == self@,
    {
        proof {
            use_type_invariant(self);
        }
        NonNegativeIntegerBuf { text: self.text.clone() }
    }
}

impl NonNegativeIntegerBuf {
    /// What holds of every value of this type.
    #[verifier::type_invariant]
    pub open spec fn wf(&self) -> bool {
        is_non_negative_integer(self@)
    }

    /// Validates `s` and keeps a copy of it.
    pub fn new(s: &str) -> (r: Result<Self, LexicalError>)
        ensures
            r is Ok <==> is_non_negative_integer(s@),
            r matches Ok(l) ==> l@ == s@,
            r matches Err(e) ==> restricted_outcome(s@, |v: int| v >= 0, Err(e)),
    {
        match check_non_negative_integer(s) {
            Ok(()) => Ok(NonNegativeIntegerBuf { text: s.to_owned() }),
            Err(e) => Err(e),
        }
    }

    /// Keeps `text`, which the caller knows to be a literal.
    pub(crate) fn new_unchecked(text: String) -> (r: Self)
        requires
            is_non_negative_integer(text@),
        ensures
            r@ == text@,
    {
        NonNegativeIntegerBuf { text }
    }

    /// The literal.
    pub fn as_str(&self) -> (r: &str)
        ensures
            r@ == self@,
            is_non_negative_integer(r@),
    {
        proof {
            use_type_invariant(self);
        }
        self.text.as_str()
    }

    /// The literal, as an owned string.
    pub fn into_string(self) -> (r: String)
        ensures
            r@ == self@,
            is_non_negative_integer(r@),
    {
        proof {
            use_type_invariant(&self);
        }
        self.text
    }
}

/// A text that has been validated as a literal of `xsd:positiveInteger`.
#[derive(Debug, PartialEq, Eq, Hash)]
pub struct PositiveIntegerBuf {
    text: String,
}

impl View for PositiveIntegerBuf {
    type V = Seq<char>;

    closed spec fn view(&self) -> Seq<char> {
        self.text@
    }
}

impl Clone for PositiveIntegerBuf {
    fn clone(&self) -> (r: Self)
        ensures
            r@ == self@,
    {
        proof {
            use_type_invariant(self);
        }
        PositiveIntegerBuf { text: self.text.clone() }
    }
}

impl PositiveIntegerBuf {
    /// What holds of every value of this type.
    #[verifier::type_invariant]
    pub open spec fn wf(&self) -> bool {
        is_positive_integer(self@)
    }

    /// Validates `s` and keeps a copy of it.
    pub fn new(s: &str) -> (r: Result<Self, LexicalError>)
        ensures
            r is Ok <==> is_positive_integer(s@),
            r matches Ok(l) ==> l@ == s@,
            r matches Err(e) ==> restricted_outcome(s@, |v: int| v > 0, Err(e)),
    {
        match check_positive_integer(s) {
            Ok(()) => Ok(PositiveIntegerBuf { text: s.to_owned() }),
            Err(e) => Err(e),
        }
    }

    /// Keeps `text`, which the caller knows to be a literal.
    pub(crate) fn new_unchecked(text: String) -> (r: Self)
        requires
            is_positive_integer(text@),
        ensures
            r@ == text@,
    {
        PositiveIntegerBuf { text }
    }

    /// The literal.
    pub fn as_str(&self) -> (r: &str)
        ensures
            r@ == self@,
            is_positive_integer(r@),
    {
        proof {
            use_type_invariant(self);
        }
        self.text.as_str()
    }

    /// The literal, as an owned string.
    pub fn into_string(self) -> (r: String)
        ensures
            r@ == self@,
            is_positive_integer(r@),
    {
        proof {
            use_type_invariant(&self);
        }
        self.text
    }
}

/// A text that has been validated as a literal of `xsd:nonPositiveInteger`.
#[derive(Debug, PartialEq, Eq, Hash)]
pub struct NonPositiveIntegerBuf {
    text: String,
}

impl View for NonPositiveIntegerBuf {
    type V = Seq<char>;

    closed spec fn view(&self) -> Seq<char> {
        self.text@
    }
}

impl Clone for NonPositiveIntegerBuf {
    fn clone(&self) -> (r: Self)
        ensures
            r@ == self@,
    {
        proof {
            use_type_invariant(self);
        }
        NonPositiveIntegerBuf { text: self.text.clone() }
    }
}

impl NonPositiveIntegerBuf {
    /// What holds of every value of this type.
    #[verifier::type_invariant]
    pub open spec fn wf(&self) -> bool {
        is_non_positive_integer(self@)
    }

    /// Validates `s` and keeps a copy of it.
    pub fn new(s: &str) -> (r: Result<Self, LexicalError>)
        ensures
            r is Ok <==> is_non_positive_integer(s@),
            r matches Ok(l) ==> l@ == s@,
            r matches Err(e) ==> restricted_outcome(s@, |v: int| v <= 0, Err(e)),
    {
        match check_non_positive_integer(s) {
            Ok(()) => Ok(NonPositiveIntegerBuf { text: s.to_owned() }),
            Err(e) => Err(e),
        }
    }

    /// Keeps `text`, which the caller knows to be a literal.
    pub(crate) fn new_unchecked(text: String) -> (r: Self)
        requires
            is_non_positive_integer(text@),
        ensures
            r@ == text@,
    {
        NonPositiveIntegerBuf { text }
    }

    /// The literal.
    pub fn as_str(&self) -> (r: &str)
        ensures
            r@ == self@,
            is_non_positive_integer(r@),
    {
        proof {
            use_type_invariant(self);
        }
        self.text.as_str()
    }

    /// The literal, as an owned string.
    pub fn into_string(self) -> (r: String)
        ensures
            r@ == self@,
            is_non_positive_integer(r@),
    {
        proof {
            use_type_invariant(&self);
        }
        self.text
    }
}

/// A text that has been validated as a literal of `xsd:negativeInteger`.
#[derive(Debug, PartialEq, Eq, Hash)]
pub struct NegativeIntegerBuf {
    text: String,
}

impl View for NegativeIntegerBuf {
    type V = Seq<char>;

    closed spec fn view(&self) -> Seq<char> {
        self.text@
    }
}

impl Clone for NegativeIntegerBuf {
    fn clone(&self) -> (r: Self)
        ensures
            r@ == self@,
    {
        proof {
            use_type_invariant(self);
        }
        NegativeIntegerBuf { text: self.text.clone() }
    }
}

impl NegativeIntegerBuf {
    /// What holds of every value of this type.
    #[verifier::type_invariant]
    pub open spec fn wf(&self) -> bool {
        is_negative_integer(self@)
    }

    /// Validates `s` and keeps a copy of it.
    pub fn new(s: &str) -> (r: Result<Self, LexicalError>)
        ensures
            r is Ok <==> is_negative_integer(s@),
            r matches Ok(l) ==> l@ == s@,
            r matches Err(e) ==> restricted_outcome(s@, |v: int| v < 0, Err(e)),
    {
        match check_negative_integer(s) {
            Ok(()) => Ok(NegativeIntegerBuf { text: s.to_owned() }),
            Err(e) => Err(e),
        }
    }

    /// Keeps `text`, which the caller knows to be a literal.
    pub(crate) fn new_unchecked(text: String) -> (r: Self)
        requires
            is_negative_integer(text@),
        ensures
            r@ == text@,
    {
        NegativeIntegerBuf { text }
    }

    /// The literal.
    pub fn as_str(&self) -> (r: &str)
        ensures
            r@ == self@,
            is_negative_integer(r@),
    {
        proof {
            use_type_invariant(self);
        }
        self.text.as_str()
    }

    /// The literal, as an owned string.
    pub fn into_string(self) -> (r: String)
        ensures
            r@ == self@,
            is_negative_integer(r@),
    {
        proof {
            use_type_invariant(&self);
        }
        self.text
    }
}

} // verus!
