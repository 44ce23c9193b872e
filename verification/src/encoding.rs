//! Byte-level text encodings used when framing tokens and reading ids:
//! decimal rendering and parsing, JSON string escaping, URL-safe base64 and
//! lowercase hex.

use vstd::prelude::*;

verus! {

// ---------------------------------------------------------------------------
// Decimal rendering
// ---------------------------------------------------------------------------

/// The ASCII digits of `n`, most significant first.
pub open spec fn dec_digits(n: nat) -> Seq<u8>
    decreases n,
{
    if n < 10 {
        seq![(48 + n) as u8]
    } else {
        dec_digits(n / 10) + seq![(48 + n % 10) as u8]
    }
}

/// The ASCII rendering of a signed integer: a minus sign for negative
/// values, then the digits of the magnitude.
pub open spec fn dec_int_bytes(i: int) -> Seq<u8> {
    if i < 0 {
        seq![45u8] + dec_digits((-i) as nat)
    } else {
        dec_digits(i as nat)
    }
}

/// Renders `n` as ASCII decimal digits.
pub fn dec_u64_bytes(n: u64) -> (r: Vec<u8>)
    ensures
        r@ == dec_digits(n as nat),
    decreases n,
{
    if n < 10 {
        let mut v: Vec<u8> = Vec::new();
        v.push(48 + n as u8);
        proof {
            assert(v@ =~= dec_digits(n as nat));
        }
        v
    } else {
        let mut v = dec_u64_bytes(n / 10);
        v.push(48 + (n % 10) as u8);
        proof {
            assert(v@ =~= dec_digits((n / 10) as nat) + seq![(48 + n as nat % 10) as u8]);
        }
        v
    }
}

/// Renders `i` as an ASCII decimal number, with a sign when negative.
pub fn dec_i64_bytes(i: i64) -> (r: Vec<u8>)
    ensures
        r@ == dec_int_bytes(i as int),
{
    if i >= 0 {
        dec_u64_bytes(i as u64)
    } else {
        let mag: u64 = if i == i64::MIN {
            9223372036854775808u64
        } else {
            (-i) as u64
        };
        let mut v: Vec<u8> = Vec::new();
        v.push(45u8);
        let mut rest = dec_u64_bytes(mag);
        v.append(&mut rest);
        proof {
            assert(v@ =~= seq![45u8] + dec_digits(mag as nat));
        }
        v
    }
}

// ---------------------------------------------------------------------------
// Decimal parsing
// ---------------------------------------------------------------------------

/// Whether `c` is an ASCII decimal digit.
pub open spec fn is_dec_digit(c: char) -> bool {
    48 <= c as int <= 57
}

/// Whether every character of `s` is an ASCII decimal digit.
pub open spec fn all_dec_digits(s: Seq<char>) -> bool {
    forall|i: int| 0 <= i < s.len() ==> is_dec_digit(s[i])
}

/// The integer value of a digit string, most significant digit first.
pub open spec fn dec_val(s: Seq<char>) -> int
    decreases s.len(),
{
    if s.len() == 0 {
        0
    } else {
        dec_val(s.drop_last()) * 10 + (s.last() as int - 48)
    }
}

/// What parsing an unsigned decimal returns: the value exactly when the
/// string is non-empty, all digits, and the value fits in a `u64`.
pub open spec fn parse_u64_spec(s: Seq<char>) -> Option<u64> {
    if s.len() > 0 && all_dec_digits(s) && dec_val(s) <= u64::MAX {
        Some(dec_val(s) as u64)
    } else {
        None
    }
}

proof fn lemma_dec_val_nonneg(s: Seq<char>)
    requires
        all_dec_digits(s),
    ensures
        dec_val(s) >= 0,
    decreases s.len(),
{
    if s.len() > 0 {
        assert(all_dec_digits(s.drop_last())) by {
            assert(forall|i: int|
                0 <= i < s.drop_last().len() ==> s.drop_last()[i] == s[i]);
        }
        lemma_dec_val_nonneg(s.drop_last());
    }
}

proof fn lemma_dec_val_prefix(s: Seq<char>, j: int)
    requires
        all_dec_digits(s),
        0 <= j <= s.len(),
    ensures
        dec_val(s.take(j)) <= dec_val(s),
    decreases s.len() - j,
{
    if j < s.len() {
        assert(s.take(j + 1).drop_last() =~= s.take(j));
        assert(s.take(j + 1).last() == s[j]);
        assert(all_dec_digits(s.take(j))) by {
            assert(forall|i: int| 0 <= i < s.take(j).len() ==> s.take(j)[i] == s[i]);
        }
        lemma_dec_val_nonneg(s.take(j));
        assert(dec_val(s.take(j + 1)) == dec_val(s.take(j)) * 10 + (s[j] as int - 48));
        assert(dec_val(s.take(j)) <= dec_val(s.take(j + 1)));
        lemma_dec_val_prefix(s, j + 1);
    } else {
        assert(s.take(j) =~= s);
    }
}

/// Parses an unsigned decimal number, rejecting empty strings, non-digit
/// characters and values that do not fit in a `u64`.
pub fn parse_u64(s: &String) -> (r: Option<u64>)
    ensures
        r == parse_u64_spec(s@),
{
    let st: &str = s.as_str();
    let n = st.unicode_len();
    if n == 0 {
        return None;
    }
    let mut acc: u64 = 0;
    let mut i: usize = 0;
    while i < n
        invariant
            n == st@.len(),
            st@ == s@,
            0 < n,
            0 <= i <= n,
            all_dec_digits(s@.take(i as int)),
            acc == dec_val(s@.take(i as int)),
        decreases n - i,
    {
        let c = st.get_char(i);
        let cv: u32 = c as u32;
        if cv < 48 || cv > 57 {
            proof {
                assert(!is_dec_digit(s@[i as int]));
                assert(!all_dec_digits(s@));
            }
            return None;
        }
        let d: u64 = (cv - 48) as u64;
        proof {
            assert(s@.take(i + 1).drop_last() =~= s@.take(i as int));
            assert(s@.take(i + 1).last() == s@[i as int]);
        }
        if acc > (u64::MAX - d) / 10 {
            proof {
                assert(all_dec_digits(s@.take(i + 1)));
                assert(dec_val(s@.take(i + 1)) == acc * 10 + d);
                assert(acc * 10 + d > u64::MAX) by (nonlinear_arith)
                    requires
                        acc > (u64::MAX - d) / 10,
                        d <= 9,
                ;
                if all_dec_digits(s@) {
                    lemma_dec_val_prefix(s@, i + 1);
                    assert(dec_val(s@) > u64::MAX);
                }
            }
            return None;
        }
        proof {
            assert(acc * 10 + d <= u64::MAX) by (nonlinear_arith)
                requires
                    acc <= (u64::MAX - d) / 10,
                    d <= 9,
            ;
        }
        acc = acc * 10 + d;
        i = i + 1;
    }
    proof {
        assert(s@.take(n as int) =~= s@);
    }
    Some(acc)
}

// ---------------------------------------------------------------------------
// Lowercase hex
// ---------------------------------------------------------------------------

/// The lowercase hex digit of a value below 16.
pub open spec fn hex_char(d: u8) -> char
    recommends
        d < 16,
{
    if d < 10 {
        ((48 + d) as u8) as char
    } else {
        ((87 + d) as u8) as char
    }
}

/// The lowercase hex rendering of a byte sequence: two digits per byte.
pub open spec fn hex_of(s: Seq<u8>) -> Seq<char>
    decreases s.len(),
{
    if s.len() == 0 {
        Seq::empty()
    } else {
        seq![hex_char((s.first() / 16) as u8), hex_char((s.first() % 16) as u8)]
            + hex_of(s.drop_first())
    }
}

/// Hex spells each byte with exactly two digits.
pub proof fn lemma_hex_of_len(s: Seq<u8>)
    ensures
        hex_of(s).len() == 2 * s.len(),
    decreases s.len(),
{
    if s.len() > 0 {
        lemma_hex_of_len(s.drop_first());
    }
}

/// Relies on `hex::encode`: every input byte becomes exactly two lowercase
/// hex digits, most significant nibble first.
#[verifier::external_body]
pub(crate) fn hex_encode(b: &[u8]) -> (r: String)
    ensures
        r@ == hex_of(b@),
{
    hex::encode(b)
}

// ---------------------------------------------------------------------------
// JSON string escaping
// ---------------------------------------------------------------------------

/// What one byte of a JSON string body becomes: quotes and backslashes get
/// a backslash escape, control bytes a `\u00XX` escape, and every other
/// byte (including UTF-8 continuation bytes) passes through.
pub open spec fn json_esc_byte(b: u8) -> Seq<u8> {
    if b == 34 {
        seq![92u8, 34u8]
    } else if b == 92 {
        seq![92u8, 92u8]
    } else if b < 32 {
        seq![
            92u8,
            117u8,
            48u8,
            48u8,
            hex_char((b / 16) as u8) as u8,
            hex_char((b % 16) as u8) as u8,
        ]
    } else {
        seq![b]
    }
}

/// The JSON escaping of a whole byte sequence.
pub open spec fn json_escape_bytes(s: Seq<u8>) -> Seq<u8>
    decreases s.len(),
{
    if s.len() == 0 {
        Seq::empty()
    } else {
        json_esc_byte(s.first()) + json_escape_bytes(s.drop_first())
    }
}

/// Appends the JSON escaping of `s` to `out`.
pub fn json_escape_push(out: &mut Vec<u8>, s: &[u8])
    ensures
        final(out)@ == old(out)@ + json_escape_bytes(s@),
{
    let n = s.len();
    let mut i: usize = 0;
    proof {
        assert(s@.skip(0) =~= s@);
    }
    while i < n
        invariant
            n == s@.len(),
            0 <= i <= n,
            out@ + json_escape_bytes(s@.skip(i as int)) == old(out)@ + json_escape_bytes(s@),
        decreases n - i,
    {
        let b = s[i];
        proof {
            assert(s@.skip(i as int).first() == s@[i as int]);
            assert(s@.skip(i as int).drop_first() =~= s@.skip(i + 1));
            assert(json_escape_bytes(s@.skip(i as int)) == json_esc_byte(s@[i as int])
                + json_escape_bytes(s@.skip(i + 1)));
        }
        let ghost prev = out@;
        if b == 34 {
            out.push(92);
            out.push(34);
        } else if b == 92 {
            out.push(92);
            out.push(92);
        } else if b < 32 {
            out.push(92);
            out.push(117);
            out.push(48);
            out.push(48);
            let hi = b / 16;
            let lo = b % 16;
            out.push(if hi < 10 { 48 + hi } else { 87 + hi });
            out.push(if lo < 10 { 48 + lo } else { 87 + lo });
        } else {
            out.push(b);
        }
        proof {
            assert(out@ =~= prev + json_esc_byte(s@[i as int]));
        }
        i = i + 1;
    }
    proof {
        assert(s@.skip(n as int) =~= Seq::<u8>::empty());
        assert(final(out)@ =~= old(out)@ + json_escape_bytes(s@));
    }
}

// ---------------------------------------------------------------------------
// URL-safe base64, without padding
// ---------------------------------------------------------------------------

/// The URL-safe base64 alphabet, as ASCII bytes.
pub open spec fn b64url_char(d: u8) -> u8
    recommends
        d < 64,
{
    if d < 26 {
        (65 + d) as u8
    } else if d < 52 {
        (97 + (d - 26)) as u8
    } else if d < 62 {
        (48 + (d - 52)) as u8
    } else if d == 62 {
        45u8
    } else {
        95u8
    }
}

/// The unpadded URL-safe base64 rendering of a byte sequence, three input
/// bytes to four output characters, with two- and three-character tails for
/// one or two trailing bytes.
pub open spec fn b64url_bytes(s: Seq<u8>) -> Seq<u8>
    decreases s.len(),
{
    if s.len() == 0 {
        Seq::empty()
    } else if s.len() == 1 {
        seq![
            b64url_char((s[0] / 4) as u8),
            b64url_char(((s[0] % 4) * 16) as u8),
        ]
    } else if s.len() == 2 {
        seq![
            b64url_char((s[0] / 4) as u8),
            b64url_char(((s[0] % 4) * 16 + s[1] / 16) as u8),
            b64url_char(((s[1] % 16) * 4) as u8),
        ]
    } else {
        seq![
            b64url_char((s[0] / 4) as u8),
            b64url_char(((s[0] % 4) * 16 + s[1] / 16) as u8),
            b64url_char(((s[1] % 16) * 4 + s[2] / 64) as u8),
            b64url_char((s[2] % 64) as u8),
        ] + b64url_bytes(s.skip(3))
    }
}

fn b64url_alphabet(d: u8) -> (r: u8)
    requires
        d < 64,
    ensures
        r == b64url_char(d),
{
    if d < 26 {
        65 + d
    } else if d < 52 {
        97 + (d - 26)
    } else if d < 62 {
        48 + (d - 52)
    } else if d == 62 {
        45
    } else {
        95
    }
}

fn b64url_tail(s: &[u8], i: usize) -> (r: Vec<u8>)
    requires
        i <= s@.len(),
    ensures
        r@ == b64url_bytes(s@.skip(i as int)),
    decreases s@.len() - i,
{
    let n = s.len();
    let rem = n - i;
    let ghost tail = s@.skip(i as int);
    if rem == 0 {
        let v: Vec<u8> = Vec::new();
        proof {
            assert(v@ =~= b64url_bytes(tail));
        }
        v
    } else if rem == 1 {
        let b0 = s[i];
        let mut v: Vec<u8> = Vec::new();
        v.push(b64url_alphabet(b0 / 4));
        v.push(b64url_alphabet((b0 % 4) * 16));
        proof {
            assert(tail[0] == s@[i as int]);
            assert(v@ =~= b64url_bytes(tail));
        }
        v
    } else if rem == 2 {
        let b0 = s[i];
        let b1 = s[i + 1];
        let mut v: Vec<u8> = Vec::new();
        v.push(b64url_alphabet(b0 / 4));
        v.push(b64url_alphabet((b0 % 4) * 16 + b1 / 16));
        v.push(b64url_alphabet((b1 % 16) * 4));
        proof {
            assert(tail[0] == s@[i as int]);
            assert(tail[1] == s@[i + 1]);
            assert(v@ =~= b64url_bytes(tail));
        }
        v
    } else {
        let b0 = s[i];
        let b1 = s[i + 1];
        let b2 = s[i + 2];
        let mut v: Vec<u8> = Vec::new();
        v.push(b64url_alphabet(b0 / 4));
        v.push(b64url_alphabet((b0 % 4) * 16 + b1 / 16));
        v.push(b64url_alphabet((b1 % 16) * 4 + b2 / 64));
        v.push(b64url_alphabet(b2 % 64));
        let mut rest = b64url_tail(s, i + 3);
        v.append(&mut rest);
        proof {
            assert(tail[0] == s@[i as int]);
            assert(tail[1] == s@[i + 1]);
            assert(tail[2] == s@[i + 2]);
            assert(tail.skip(3) =~= s@.skip(i + 3));
            assert(v@ =~= b64url_bytes(tail));
        }
        v
    }
}

/// Renders a byte sequence in unpadded URL-safe base64.
pub fn b64url_encode(s: &[u8]) -> (r: Vec<u8>)
    ensures
        r@ == b64url_bytes(s@),
{
    let r = b64url_tail(s, 0);
    proof {
        assert(s@.skip(0) =~= s@);
    }
    r
}

proof fn lemma_b64url_char_ascii(d: u8)
    requires
        d < 64,
    ensures
        b64url_char(d) < 128,
{
}

/// Every byte that base64 produces is ASCII.
pub proof fn lemma_b64url_ascii(s: Seq<u8>)
    ensures
        forall|i: int| 0 <= i < b64url_bytes(s).len() ==> b64url_bytes(s)[i] < 128,
    decreases s.len(),
{
    if s.len() == 0 {
    } else if s.len() == 1 {
        lemma_b64url_char_ascii((s[0] / 4) as u8);
        lemma_b64url_char_ascii(((s[0] % 4) * 16) as u8);
    } else if s.len() == 2 {
        lemma_b64url_char_ascii((s[0] / 4) as u8);
        lemma_b64url_char_ascii(((s[0] % 4) * 16 + s[1] / 16) as u8);
        lemma_b64url_char_ascii(((s[1] % 16) * 4) as u8);
    } else {
        lemma_b64url_char_ascii((s[0] / 4) as u8);
        lemma_b64url_char_ascii(((s[0] % 4) * 16 + s[1] / 16) as u8);
        lemma_b64url_char_ascii(((s[1] % 16) * 4 + s[2] / 64) as u8);
        lemma_b64url_char_ascii((s[2] % 64) as u8);
        lemma_b64url_ascii(s.skip(3));
        assert forall|i: int| 0 <= i < b64url_bytes(s).len() implies b64url_bytes(s)[i]
            < 128 by {
            if i >= 4 {
                assert(b64url_bytes(s)[i] == b64url_bytes(s.skip(3))[i - 4]);
            }
        }
    }
}

// ---------------------------------------------------------------------------
// ASCII bytes as text
// ---------------------------------------------------------------------------

/// The characters spelled by a sequence of ASCII bytes.
pub open spec fn ascii_chars_of(b: Seq<u8>) -> Seq<char> {
    Seq::new(b.len(), |i: int| b[i] as char)
}

/// Relies on `String::from_utf8`: ASCII bytes are valid UTF-8 and decode to
/// exactly those characters.
#[verifier::external_body]
pub(crate) fn ascii_to_string(v: Vec<u8>) -> (r: String)
    requires
        forall|i: int| 0 <= i < v@.len() ==> v@[i] < 128,
    ensures
        r@ == ascii_chars_of(v@),
{
    match String::from_utf8(v) {
        Ok(s) => s,
        Err(_) => String::new(),
    }
}

} // verus!
