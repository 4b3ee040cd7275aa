//! The lexical space of `xsd:base64Binary`: the characters of the Base64 alphabet, four for
//! every three bytes, with `=` to fill the last four. A single space may follow any
//! character but the last.
use crate::lexical::LexicalError;
use crate::text::{
    ascii_bytes, byte_char, bytes_spell, is_ascii_text, string_from_ascii, DIGIT_0, DIGIT_9, EQUALS,
    LOWER_A, LOWER_Z, PLUS, SLASH, SPACE, UPPER_A, UPPER_Z,
};
use vstd::prelude::*;

verus! {

/// True for the 64 characters of the Base64 alphabet.
pub open spec fn is_base64_char(c: char) -> bool {
    ('A' <= c && c <= 'Z') || ('a' <= c && c <= 'z') || ('0' <= c && c <= '9') || c == '+' || c
        == '/'
}

/// The number, below 64, that a character of the Base64 alphabet stands for.
pub open spec fn base64_char_value(c: char) -> nat {
    if 'A' <= c && c <= 'Z' {
        (c as int - 'A' as int) as nat
    } else if 'a' <= c && c <= 'z' {
        (c as int - 'a' as int + 26) as nat
    } else if '0' <= c && c <= '9' {
        (c as int - '0' as int + 52) as nat
    } else if c == '+' {
        62
    } else {
        63
    }
}

/// The character of the Base64 alphabet that stands for `v`, for `v` below 64.
pub open spec fn base64_char(v: nat) -> char {
    if v < 26 {
        ((v + UPPER_A) as u8) as char
    } else if v < 52 {
        ((v - 26 + LOWER_A) as u8) as char
    } else if v < 62 {
        ((v - 52 + DIGIT_0) as u8) as char
    } else if v == 62 {
        '+'
    } else {
        '/'
    }
}

/// `s` without its spaces.
pub open spec fn without_spaces(s: Seq<char>) -> Seq<char>
    decreases s.len(),
{
    if s.len() == 0 {
        s
    } else if s.last() == ' ' {
        without_spaces(s.drop_last())
    } else {
        without_spaces(s.drop_last()).push(s.last())
    }
}

/// True when every space of `s` stands alone between two other characters.
pub open spec fn well_spaced(s: Seq<char>) -> bool {
    forall|i: int|
        0 <= i < s.len() && #[trigger] s[i] == ' ' ==> 0 < i < s.len() - 1 && s[i - 1] != ' '
}

/// How many `=` end the text `t`, counting two at most.
pub open spec fn padding(t: Seq<char>) -> nat {
    if t.len() >= 2 && t[t.len() - 1] == '=' && t[t.len() - 2] == '=' {
        2
    } else if t.len() >= 1 && t[t.len() - 1] == '=' {
        1
    } else {
        0
    }
}

/// True when `t`, which holds no space, is Base64: its length is a multiple of four, it
/// holds the Base64 alphabet before its padding, and the bits that the padding leaves
/// unused are zero.
pub open spec fn is_base64_text(t: Seq<char>) -> bool {
    &&& t.len() % 4 == 0
    &&& forall|i: int| 0 <= i < t.len() - padding(t) ==> is_base64_char(#[trigger] t[i])
    &&& padding(t) == 1 ==> base64_char_value(t[t.len() - 2]) % 4 == 0
    &&& padding(t) == 2 ==> base64_char_value(t[t.len() - 3]) % 16 == 0
}

/// The lexical space of `xsd:base64Binary`.
pub open spec fn is_base64_binary(s: Seq<char>) -> bool {
    well_spaced(s) && is_base64_text(without_spaces(s))
}

/// The number of bytes that the Base64 text `t` denotes.
pub open spec fn base64_len(t: Seq<char>) -> nat {
    (3 * (t.len() / 4) - padding(t)) as nat
}

/// The byte at `i` among the bytes that the Base64 text `t` denotes: eight of the bits
/// that the four characters of its group hold, six each.
pub open spec fn base64_byte_at(t: Seq<char>, i: int) -> u8 {
    let g = 4 * (i / 3);
    if i % 3 == 0 {
        (base64_char_value(t[g]) * 4 + base64_char_value(t[g + 1]) / 16) as u8
    } else if i % 3 == 1 {
        ((base64_char_value(t[g + 1]) % 16) * 16 + base64_char_value(t[g + 2]) / 4) as u8
    } else {
        ((base64_char_value(t[g + 2]) % 4) * 64 + base64_char_value(t[g + 3])) as u8
    }
}

/// The bytes that an `xsd:base64Binary` literal denotes.
pub open spec fn base64_binary_value(s: Seq<char>) -> Seq<u8> {
    let t = without_spaces(s);
    Seq::new(base64_len(t), |i: int| base64_byte_at(t, i))
}

/// The character at `i` of the canonical literal of the bytes `b`.
pub open spec fn canonical_base64_char_at(b: Seq<u8>, i: int) -> char {
    let g = 3 * (i / 4);
    let b0 = b[g] as nat;
    let b1 = if g + 1 < b.len() {
        b[g + 1] as nat
    } else {
        0
    };
    let b2 = if g + 2 < b.len() {
        b[g + 2] as nat
    } else {
        0
    };
    if i % 4 == 0 {
        base64_char(b0 / 4)
    } else if i % 4 == 1 {
        base64_char((b0 % 4) * 16 + b1 / 16)
    } else if i % 4 == 2 {
        if g + 1 < b.len() {
            base64_char((b1 % 16) * 4 + b2 / 64)
        } else {
            '='
        }
    } else {
        if g + 2 < b.len() {
            base64_char(b2 % 64)
        } else {
            '='
        }
    }
}

/// The canonical literal of a sequence of bytes: four characters for every three bytes,
/// `=` where the last three are not full, and no space.
pub open spec fn canonical_base64_binary(b: Seq<u8>) -> Seq<char> {
    Seq::new(4 * ((b.len() + 2) / 3), |i: int| canonical_base64_char_at(b, i))
}

/// Why a text that is no `xsd:base64Binary` literal is refused.
pub open spec fn base64_error(s: Seq<char>) -> LexicalError {
    if !is_ascii_text(s) {
        LexicalError::NonAscii
    } else {
        LexicalError::Malformed
    }
}

/// A character of the Base64 alphabet stands for the number it was chosen for.
pub proof fn lemma_base64_char(v: nat)
    requires
        v < 64,
    ensures
        is_base64_char(base64_char(v)),
        base64_char_value(base64_char(v)) == v,
        base64_char(v) != ' ',
        base64_char(v) != '=',
        base64_char(v) <= '\u{7f}',
{
}

/// A text without spaces is what is left of it without its spaces.
pub proof fn lemma_without_spaces_of_spaceless(s: Seq<char>)
    requires
        forall|i: int| 0 <= i < s.len() ==> #[trigger] s[i] != ' ',
    ensures
        without_spaces(s) == s,
    decreases s.len(),
{
    if s.len() > 0 {
        let p = s.drop_last();
        assert forall|i: int| 0 <= i < p.len() implies #[trigger] p[i] != ' ' by {
            assert(p[i] == s[i]);
        }
        lemma_without_spaces_of_spaceless(p);
        assert(s.last() == s[s.len() - 1]);
        assert(p.push(s.last()) =~= s);
    }
}

/// What is left of a text without its spaces holds no space and only characters of the
/// text.
pub proof fn lemma_without_spaces(s: Seq<char>)
    ensures
        without_spaces(s).len() <= s.len(),
        forall|i: int| 0 <= i < without_spaces(s).len() ==> #[trigger] without_spaces(s)[i] != ' ',
        is_ascii_text(s) ==> is_ascii_text(without_spaces(s)),
    decreases s.len(),
{
    if s.len() > 0 {
        let p = s.drop_last();
        lemma_without_spaces(p);
        if is_ascii_text(s) {
            assert forall|i: int| 0 <= i < p.len() implies '\0' <= (#[trigger] p[i])
                <= '\u{7f}' by {
                assert(p[i] == s[i]);
            }
            assert(s.last() == s[s.len() - 1]);
        }
    }
}

/// From four numbers below 64 to three bytes and back: the arithmetic of one group.
proof fn lemma_group(b0: nat, b1: nat, b2: nat)
    requires
        b0 < 256,
        b1 < 256,
        b2 < 256,
    ensures
        b0 / 4 < 64,
        (b0 % 4) * 16 + b1 / 16 < 64,
        (b1 % 16) * 4 + b2 / 64 < 64,
        b2 % 64 < 64,
        (b0 / 4) * 4 + ((b0 % 4) * 16 + b1 / 16) / 16 == b0,
        (((b0 % 4) * 16 + b1 / 16) % 16) * 16 + ((b1 % 16) * 4 + b2 / 64) / 4 == b1,
        (((b1 % 16) * 4 + b2 / 64) % 4) * 64 + b2 % 64 == b2,
        ((b0 % 4) * 16) % 16 == 0,
        ((b1 % 16) * 4) % 4 == 0,
{
}

/// The characters of a canonical literal: those of the Base64 alphabet, and `=` only
/// where the last group of bytes is not full.
proof fn lemma_canonical_base64_chars(b: Seq<u8>, i: int)
    requires
        0 <= i < canonical_base64_binary(b).len(),
    ensures
        ({
            let c = canonical_base64_binary(b)[i];
            let g = 3 * (i / 4);
            &&& g < b.len()
            &&& c != ' '
            &&& c <= '\u{7f}'
            &&& (c == '=' <==> (i % 4 == 2 && g + 1 >= b.len()) || (i % 4 == 3 && g + 2
                >= b.len()))
            &&& c != '=' ==> is_base64_char(c)
        }),
{
    let g = 3 * (i / 4);
    let b0 = b[g] as nat;
    let b1 = if g + 1 < b.len() {
        b[g + 1] as nat
    } else {
        0
    };
    let b2 = if g + 2 < b.len() {
        b[g + 2] as nat
    } else {
        0
    };
    lemma_group(b0, b1, b2);
    lemma_base64_char(b0 / 4);
    lemma_base64_char((b0 % 4) * 16 + b1 / 16);
    lemma_base64_char((b1 % 16) * 4 + b2 / 64);
    lemma_base64_char(b2 % 64);
}

/// The canonical literal of a sequence of bytes is a literal of `xsd:base64Binary` and
/// denotes those bytes.
pub proof fn lemma_canonical_base64_binary(b: Seq<u8>)
    ensures
        is_base64_binary(canonical_base64_binary(b)),
        base64_binary_value(canonical_base64_binary(b)) == b,
{
    let c = canonical_base64_binary(b);
    let n = b.len() as int;
    let len = c.len() as int;
    assert forall|i: int| 0 <= i < c.len() implies #[trigger] c[i] != ' ' by {
        lemma_canonical_base64_chars(b, i);
    }
    lemma_without_spaces_of_spaceless(c);
    if len > 0 {
        lemma_canonical_base64_chars(b, len - 1);
        lemma_canonical_base64_chars(b, len - 2);
        lemma_canonical_base64_chars(b, len - 3);
        let g = 3 * ((len - 1) / 4);
        assert((len - 2) / 4 == (len - 1) / 4);
        assert((len - 3) / 4 == (len - 1) / 4);
        let b0 = b[g] as nat;
        let b1 = if g + 1 < n {
            b[g + 1] as nat
        } else {
            0
        };
        let b2 = if g + 2 < n {
            b[g + 2] as nat
        } else {
            0
        };
        lemma_group(b0, b1, b2);
        lemma_base64_char((b0 % 4) * 16 + b1 / 16);
        lemma_base64_char((b1 % 16) * 4 + b2 / 64);
    }
    assert(padding(c) == (len / 4) * 3 - n);
    assert forall|i: int| 0 <= i < c.len() - padding(c) implies is_base64_char(
        #[trigger] c[i],
    ) by {
        lemma_canonical_base64_chars(b, i);
    }
    assert(is_base64_text(c));
    let v = base64_binary_value(c);
    assert(v.len() == n);
    assert forall|i: int| 0 <= i < n implies v[i] == b[i] by {
        let q = i / 3;
        let g = 3 * q;
        let b0 = b[g] as nat;
        let b1 = if g + 1 < n {
            b[g + 1] as nat
        } else {
            0
        };
        let b2 = if g + 2 < n {
            b[g + 2] as nat
        } else {
            0
        };
        lemma_group(b0, b1, b2);
        lemma_base64_char(b0 / 4);
        lemma_base64_char((b0 % 4) * 16 + b1 / 16);
        lemma_base64_char((b1 % 16) * 4 + b2 / 64);
        lemma_base64_char(b2 % 64);
        assert((4 * q) / 4 == q);
        assert((4 * q + 1) / 4 == q);
        assert((4 * q + 2) / 4 == q);
        assert((4 * q + 3) / 4 == q);
        assert(c[4 * q] == canonical_base64_char_at(b, 4 * q));
        assert(c[4 * q + 1] == canonical_base64_char_at(b, 4 * q + 1));
        if i % 3 >= 1 {
            assert(c[4 * q + 2] == canonical_base64_char_at(b, 4 * q + 2));
        }
        if i % 3 == 2 {
            assert(c[4 * q + 3] == canonical_base64_char_at(b, 4 * q + 3));
        }
    }
    assert(v =~= b);
}

/// Every character of `s` that is no space is left in `s` without its spaces.
proof fn lemma_without_spaces_keeps(s: Seq<char>, i: int)
    requires
        0 <= i < s.len(),
        s[i] != ' ',
    ensures
        exists|j: int| 0 <= j < without_spaces(s).len() && #[trigger] without_spaces(s)[j] == s[i],
    decreases s.len(),
{
    let p = s.drop_last();
    let t = without_spaces(s);
    if i == s.len() - 1 {
        assert(t[t.len() - 1] == s[i]);
    } else {
        lemma_without_spaces_keeps(p, i);
        let j = choose|j: int| 0 <= j < without_spaces(p).len() && #[trigger] without_spaces(p)[j]
            == p[i];
        assert(t[j] == s[i]);
    }
}

/// A character that is neither of the Base64 alphabet nor `=` makes a text no Base64.
proof fn lemma_foreign_char(t: Seq<char>, j: int)
    requires
        0 <= j < t.len(),
        !is_base64_char(t[j]),
        t[j] != '=',
    ensures
        !is_base64_text(t),
{
}

/// The number that the ASCII byte `c` stands for in the Base64 alphabet, if it is of it.
fn base64_value_of(c: u8) -> (r: Option<u8>)
    requires
        c < 128,
    ensures
        r is Some <==> is_base64_char(byte_char(c)),
        r matches Some(v) ==> v == base64_char_value(byte_char(c)) && v < 64,
{
    if UPPER_A <= c && c <= UPPER_Z {
        Some(c - UPPER_A)
    } else if LOWER_A <= c && c <= LOWER_Z {
        Some(c - LOWER_A + 26)
    } else if DIGIT_0 <= c && c <= DIGIT_9 {
        Some(c - DIGIT_0 + 52)
    } else if c == PLUS {
        Some(62)
    } else if c == SLASH {
        Some(63)
    } else {
        None
    }
}

/// The character of the Base64 alphabet for `v`, as an ASCII byte.
fn base64_byte_of(v: u8) -> (r: u8)
    requires
        v < 64,
    ensures
        r < 128,
        byte_char(r) == base64_char(v as nat),
{
    if v < 26 {
        v + UPPER_A
    } else if v < 52 {
        v - 26 + LOWER_A
    } else if v < 62 {
        v - 52 + DIGIT_0
    } else if v == 62 {
        PLUS
    } else {
        SLASH
    }
}

/// The bytes of `s` without its spaces, when every space of `s` stands alone between two
/// other characters.
fn strip_spaces(b: &[u8], Ghost(s): Ghost<Seq<char>>) -> (r: Option<Vec<u8>>)
    requires
        bytes_spell(b@, s),
    ensures
        r is Some <==> well_spaced(s),
        r matches Some(t) ==> bytes_spell(t@, without_spaces(s)),
{
    let n: usize = b.len();
    let mut t: Vec<u8> = Vec::new();
    let mut i: usize = 0;
    while i < n
        invariant
            bytes_spell(b@, s),
            n == b@.len(),
            i <= n,
            bytes_spell(t@, without_spaces(s.take(i as int))),
            forall|j: int|
                0 <= j < i && #[trigger] s[j] == ' ' ==> 0 < j < s.len() - 1 && s[j - 1] != ' ',
        decreases n - i,
    {
        let c: u8 = b[i];
        assert(byte_char(c) == s[i as int]);
        let ghost before = s.take(i as int);
        let ghost upto = s.take(i + 1);
        proof {
            assert(upto.drop_last() =~= before);
            assert(upto.last() == s[i as int]);
        }
        if c == SPACE {
            if i == 0 || i == n - 1 || b[i - 1] == SPACE {
                proof {
                    if i > 0 {
                        assert(byte_char(b@[i - 1]) == s[i - 1]);
                    }
                }
                return None;
            }
            proof {
                assert(byte_char(b@[i - 1]) == s[i - 1]);
            }
        } else {
            let ghost old_t = t@;
            t.push(c);
            proof {
                let w = without_spaces(upto);
                assert(w == without_spaces(before).push(s[i as int]));
                assert forall|j: int| 0 <= j < w.len() implies (#[trigger] t@[j]) < 128
                    && byte_char(t@[j]) == w[j] by {
                    if j < old_t.len() {
                        assert(t@[j] == old_t[j]);
                    }
                }
            }
        }
        i += 1;
    }
    assert(s.take(n as int) =~= s);
    Some(t)
}

/// Validates `s` against the lexical space of `xsd:base64Binary` and gives the bytes that
/// a literal denotes.
pub fn decode_base64_binary(s: &str) -> (r: Result<Vec<u8>, LexicalError>)
    ensures
        r is Ok <==> is_base64_binary(s@),
        r matches Ok(b) ==> b@ == base64_binary_value(s@),
        r matches Err(e) ==> e == base64_error(s@),
{
    let b = match ascii_bytes(s) {
        Some(b) => b,
        None => {
            proof {
                let i = choose|i: int|
                    0 <= i < s@.len() && !('\0' <= (#[trigger] s@[i]) <= '\u{7f}');
                lemma_without_spaces_keeps(s@, i);
                let t = without_spaces(s@);
                let j = choose|j: int| 0 <= j < t.len() && #[trigger] t[j] == s@[i];
                lemma_foreign_char(t, j);
            }
            return Err(LexicalError::NonAscii);
        },
    };
    let t = match strip_spaces(b, Ghost(s@)) {
        Some(t) => t,
        None => {
            return Err(LexicalError::Malformed);
        },
    };
    let ghost text = without_spaces(s@);
    let m: usize = t.len();
    if m % 4 != 0 {
        return Err(LexicalError::Malformed);
    }
    let pad: usize = if m >= 2 && t[m - 1] == EQUALS && t[m - 2] == EQUALS {
        2
    } else if m >= 1 && t[m - 1] == EQUALS {
        1
    } else {
        0
    };
    proof {
        if m >= 1 {
            assert(byte_char(t@[m - 1]) == text[m - 1]);
        }
        if m >= 2 {
            assert(byte_char(t@[m - 2]) == text[m - 2]);
        }
        assert(pad == padding(text));
    }
    let mut i: usize = 0;
    while i < m - pad
        invariant
            bytes_spell(t@, text),
            m == t@.len(),
            pad <= 2,
            pad <= m,
            pad == padding(text),
            text == without_spaces(s@),
            is_ascii_text(s@),
            i <= m - pad,
            forall|j: int| 0 <= j < i ==> is_base64_char(#[trigger] text[j]),
        decreases m - pad - i,
    {
        assert(byte_char(t@[i as int]) == text[i as int]);
        if base64_value_of(t[i]).is_none() {
            return Err(LexicalError::Malformed);
        }
        i += 1;
    }
    if pad == 1 {
        assert(byte_char(t@[m - 2]) == text[m - 2]);
        match base64_value_of(t[m - 2]) {
            Some(v) if v % 4 == 0 => {},
            _ => {
                return Err(LexicalError::Malformed);
            },
        }
    }
    if pad == 2 {
        assert(byte_char(t@[m - 3]) == text[m - 3]);
        match base64_value_of(t[m - 3]) {
            Some(v) if v % 16 == 0 => {},
            _ => {
                return Err(LexicalError::Malformed);
            },
        }
    }
    assert(is_base64_text(text));
    let count: usize = 3 * (m / 4) - pad;
    let mut out: Vec<u8> = Vec::new();
    let mut k: usize = 0;
    while k < count
        invariant
            bytes_spell(t@, text),
            m == t@.len(),
            m % 4 == 0,
            pad <= 2,
            count == 3 * (m / 4) - pad,
            forall|j: int| 0 <= j < m - pad ==> is_base64_char(#[trigger] text[j]),
            k <= count,
            out@.len() == k,
            forall|j: int| 0 <= j < k ==> #[trigger] out@[j] == base64_byte_at(text, j),
        decreases count - k,
    {
        let g: usize = 4 * (k / 3);
        assert(g + 3 < m);
        let first: usize = if k % 3 == 0 {
            g
        } else if k % 3 == 1 {
            g + 1
        } else {
            g + 2
        };
        assert(first + 1 < m - pad);
        assert(byte_char(t@[first as int]) == text[first as int]);
        assert(byte_char(t@[first + 1]) == text[first + 1]);
        let high: u8 = match base64_value_of(t[first]) {
            Some(v) => v,
            None => 0,
        };
        let low: u8 = match base64_value_of(t[first + 1]) {
            Some(v) => v,
            None => 0,
        };
        let byte: u8 = if k % 3 == 0 {
            high * 4 + low / 16
        } else if k % 3 == 1 {
            (high % 16) * 16 + low / 4
        } else {
            (high % 4) * 64 + low
        };
        out.push(byte);
        assert(out@[k as int] == base64_byte_at(text, k as int));
        k += 1;
    }
    assert(out@ =~= base64_binary_value(s@));
    Ok(out)
}

/// The canonical literal of `bytes`.
pub fn encode_base64_binary(bytes: &[u8]) -> (r: String)
    ensures
        r@ == canonical_base64_binary(bytes@),
{
    let n: usize = bytes.len();
    let groups: usize = if n % 3 == 0 {
        n / 3
    } else {
        n / 3 + 1
    };
    let ghost target = canonical_base64_binary(bytes@);
    assert(groups == (n + 2) / 3);
    let mut out: Vec<u8> = Vec::new();
    let mut q: usize = 0;
    while q < groups
        invariant
            n == bytes@.len(),
            groups == (n + 2) / 3,
            q <= groups,
            target == canonical_base64_binary(bytes@),
            out@.len() == 4 * q,
            forall|j: int|
                0 <= j < out@.len() ==> (#[trigger] out@[j]) < 128 && byte_char(out@[j])
                    == target[j],
        decreases groups - q,
    {
        let g: usize = 3 * q;
        let b0: u8 = bytes[g];
        let b1: u8 = if g + 1 < n {
            bytes[g + 1]
        } else {
            0
        };
        let b2: u8 = if g + 2 < n {
            bytes[g + 2]
        } else {
            0
        };
        proof {
            lemma_group(b0 as nat, b1 as nat, b2 as nat);
            assert((4 * q) / 4 == q);
            assert((4 * q + 1) / 4 == q);
            assert((4 * q + 2) / 4 == q);
            assert((4 * q + 3) / 4 == q);
        }
        let ghost before = out@;
        out.push(base64_byte_of(b0 / 4));
        out.push(base64_byte_of((b0 % 4) * 16 + b1 / 16));
        if g + 1 < n {
            out.push(base64_byte_of((b1 % 16) * 4 + b2 / 64));
        } else {
            out.push(EQUALS);
        }
        if g + 2 < n {
            out.push(base64_byte_of(b2 % 64));
        } else {
            out.push(EQUALS);
        }
        proof {
            assert forall|j: int| 0 <= j < out@.len() implies (#[trigger] out@[j]) < 128
                && byte_char(out@[j]) == target[j] by {
                if j < 4 * q {
                    assert(out@[j] == before[j]);
                } else {
                    assert(target[j] == canonical_base64_char_at(bytes@, j));
                }
            }
        }
        q += 1;
    }
    let ghost spelled = out@;
    let r = string_from_ascii(out);
    proof {
        assert forall|j: int| 0 <= j < r@.len() implies r@[j] == target[j] by {
            assert(byte_char(spelled[j]) == r@[j]);
        }
        assert(r@ =~= target);
    }
    r
}

} // verus!
