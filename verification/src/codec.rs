//! Byte-level text codecs: standard base64 (RFC 4648), its URL-safe
//! unpadded variant, and lowercase hex. The base64 alphabet transform is
//! performed by the `base64` crate behind trusted wrappers whose contracts
//! state the encoding exactly; the URL-safe variant and hex are verified
//! code over those contracts.

use vstd::prelude::*;

verus! {

use vstd::string::StringSliceAdditionalSpecFns;
use vstd::utf8::encode_utf8;
use vstd::utf8::is_ascii_chars;
use vstd::utf8::is_ascii_chars_encode_utf8;

/// The characters of a sequence of ASCII bytes, one per byte.
pub open spec fn ascii_chars(s: Seq<u8>) -> Seq<char> {
    s.map_values(|b: u8| b as char)
}

/// The base64 alphabet of RFC 4648, section 4: `A`-`Z`, `a`-`z`, `0`-`9`,
/// `+`, `/`, indexed by the six-bit value.
pub open spec fn base64_digit(v: u8) -> u8 {
    if v < 26 {
        (65 + v) as u8
    } else if v < 52 {
        (97 + (v - 26)) as u8
    } else if v < 62 {
        (48 + (v - 52)) as u8
    } else if v == 62 {
        43
    } else {
        47
    }
}

/// Four base64 digits of one full three-byte group.
pub open spec fn base64_group(b0: u8, b1: u8, b2: u8) -> Seq<u8> {
    seq![
        base64_digit(b0 >> 2),
        base64_digit(((b0 & 0x03) << 4) | (b1 >> 4)),
        base64_digit(((b1 & 0x0f) << 2) | (b2 >> 6)),
        base64_digit(b2 & 0x3f),
    ]
}

/// Standard base64 with `=` padding, as ASCII bytes.
pub open spec fn base64_bytes(s: Seq<u8>) -> Seq<u8>
    decreases s.len(),
{
    if s.len() == 0 {
        seq![]
    } else if s.len() == 1 {
        seq![
            base64_digit(s[0] >> 2),
            base64_digit((s[0] & 0x03) << 4),
            61u8,
            61u8,
        ]
    } else if s.len() == 2 {
        seq![
            base64_digit(s[0] >> 2),
            base64_digit(((s[0] & 0x03) << 4) | (s[1] >> 4)),
            base64_digit((s[1] & 0x0f) << 2),
            61u8,
        ]
    } else {
        base64_group(s[0], s[1], s[2]) + base64_bytes(s.skip(3))
    }
}

/// How many leading digits of the base64 encoding of `n` input bytes are
/// alphabet digits rather than `=` padding.
pub open spec fn base64_unpadded_len(n: int) -> int {
    if n % 3 == 0 {
        4 * (n / 3)
    } else if n % 3 == 1 {
        4 * ((n + 2) / 3) - 2
    } else {
        4 * ((n + 2) / 3) - 1
    }
}

/// A byte of the base64 alphabet (never `=`).
pub open spec fn is_base64_alphabet_byte(b: u8) -> bool {
    (65 <= b <= 90) || (97 <= b <= 122) || (48 <= b <= 57) || b == 43 || b == 47
}

/// The URL-safe substitution of RFC 4648, section 5: `+` becomes `-` and
/// `/` becomes `_`; other bytes stay.
pub open spec fn base64_url_digit(b: u8) -> u8 {
    if b == 43 {
        45
    } else if b == 47 {
        95
    } else {
        b
    }
}

/// URL-safe base64 without padding, as ASCII bytes.
pub open spec fn base64url_bytes(s: Seq<u8>) -> Seq<u8> {
    base64_bytes(s).take(base64_unpadded_len(s.len() as int)).map_values(
        |b: u8| base64_url_digit(b),
    )
}

/// A byte of the URL-safe base64 alphabet: alphanumeric, `-` or `_`.
pub open spec fn is_base64url_alphabet_byte(b: u8) -> bool {
    (65 <= b <= 90) || (97 <= b <= 122) || (48 <= b <= 57) || b == 45 || b == 95
}

/// The lowercase hex digit of a value below sixteen.
pub open spec fn hex_digit(v: u8) -> u8 {
    if v < 10 {
        (48 + v) as u8
    } else {
        (87 + v) as u8
    }
}

/// Lowercase hex encoding, two digits per byte, as ASCII bytes.
pub open spec fn hex_bytes(s: Seq<u8>) -> Seq<u8>
    decreases s.len(),
{
    if s.len() == 0 {
        seq![]
    } else {
        seq![hex_digit(s[0] >> 4), hex_digit(s[0] & 0x0f)] + hex_bytes(s.skip(1))
    }
}

/// A lowercase hex digit byte: `0`-`9` or `a`-`f`.
pub open spec fn is_hex_digit_byte(b: u8) -> bool {
    (48 <= b <= 57) || (97 <= b <= 102)
}

/// The length and shape of a standard base64 encoding: four digits for
/// every started three-byte group, alphabet digits up to the unpadded
/// length and `=` padding after it.
pub proof fn lemma_base64_bytes_wf(s: Seq<u8>)
    ensures
        base64_bytes(s).len() == 4 * ((s.len() + 2) / 3),
        base64_unpadded_len(s.len() as int) <= base64_bytes(s).len(),
        forall|i: int|
            0 <= i < base64_unpadded_len(s.len() as int) ==> is_base64_alphabet_byte(
                #[trigger] base64_bytes(s)[i],
            ),
        forall|i: int|
            base64_unpadded_len(s.len() as int) <= i < base64_bytes(s).len()
                ==> #[trigger] base64_bytes(s)[i] == 61,
    decreases s.len(),
{
    if s.len() >= 3 {
        lemma_base64_bytes_wf(s.skip(3));
        let n = s.len() as int;
        assert((n + 2) / 3 == (n - 3 + 2) / 3 + 1) by (nonlinear_arith)
            requires n >= 3;
        assert(n % 3 == (n - 3) % 3) by (nonlinear_arith)
            requires n >= 3;
        assert(base64_unpadded_len(n) == base64_unpadded_len(n - 3) + 4);
    }
}

/// Every byte of a standard base64 encoding is ASCII.
pub proof fn lemma_base64_bytes_ascii(s: Seq<u8>)
    ensures
        forall|i: int|
            0 <= i < base64_bytes(s).len() ==> #[trigger] base64_bytes(s)[i] < 128,
{
    lemma_base64_bytes_wf(s);
}

/// URL-safe base64 never holds `+`, `/` or `=`: each of its bytes is
/// alphanumeric, `-` or `_`.
pub proof fn lemma_base64url_url_safe(s: Seq<u8>)
    ensures
        base64url_bytes(s).len() == base64_unpadded_len(s.len() as int),
        forall|i: int|
            0 <= i < base64url_bytes(s).len() ==> is_base64url_alphabet_byte(
                #[trigger] base64url_bytes(s)[i],
            ),
{
    lemma_base64_bytes_wf(s);
}

/// Hex encoding doubles the length and yields lowercase hex digit bytes
/// only.
pub proof fn lemma_hex_bytes_wf(s: Seq<u8>)
    ensures
        hex_bytes(s).len() == 2 * s.len(),
        forall|i: int|
            0 <= i < hex_bytes(s).len() ==> is_hex_digit_byte(#[trigger] hex_bytes(s)[i]),
    decreases s.len(),
{
    if s.len() > 0 {
        lemma_hex_bytes_wf(s.skip(1));
        let b0 = s[0];
        assert((b0 >> 4) < 16 && (b0 & 0x0f) < 16) by (bit_vector);
    }
}

/// ASCII bytes survive the round trip through characters: encoding the
/// characters of ASCII bytes in UTF-8 gives the bytes back.
pub proof fn lemma_ascii_chars_utf8(s: Seq<u8>)
    requires
        forall|i: int| 0 <= i < s.len() ==> #[trigger] s[i] < 128,
    ensures
        is_ascii_chars(ascii_chars(s)),
        encode_utf8(ascii_chars(s)) == s,
{
    let cs = ascii_chars(s);
    assert forall|i: int| 0 <= i < cs.len() implies '\0' <= #[trigger] cs[i] <= '\u{7f}' by {
        assert(s[i] < 128);
    }
    is_ascii_chars_encode_utf8(cs);
    assert(encode_utf8(cs) =~= s);
}

/// Relies on `base64::engine::general_purpose::STANDARD.encode`: standard
/// base64 of RFC 4648, section 4, with `=` padding.
#[verifier::external_body]
fn base64_encode_raw(data: &[u8]) -> (r: Vec<u8>)
    requires
        4 * data@.len() + 4 <= usize::MAX,
    ensures
        r@ == base64_bytes(data@),
{
    base64::Engine::encode(&base64::engine::general_purpose::STANDARD, data).into_bytes()
}

/// What decoding standard base64 gives back: any input that is the
/// standard encoding of some bytes yields exactly those bytes.
pub open spec fn base64_decode_post(text_bytes: Seq<u8>, r: Result<Vec<u8>, ()>) -> bool {
    forall|b: Seq<u8>|
        text_bytes == #[trigger] base64_bytes(b) ==> (r matches Ok(v) && v@ == b)
}

/// Relies on `base64::engine::general_purpose::STANDARD.decode`: a string
/// that is the standard base64 encoding of some bytes decodes to exactly
/// those bytes.
#[verifier::external_body]
fn base64_decode_raw(text: &str) -> (r: Result<Vec<u8>, ()>)
    ensures
        base64_decode_post(text.spec_bytes(), r),
{
    base64::Engine::decode(&base64::engine::general_purpose::STANDARD, text).map_err(|_| ())
}

/// Relies on `String::from_utf8`: ASCII bytes become the string of
/// exactly those characters.
#[verifier::external_body]
fn ascii_to_string(bytes: Vec<u8>) -> (r: String)
    requires
        forall|i: int| 0 <= i < bytes@.len() ==> #[trigger] bytes@[i] < 128,
    ensures
        r@ == ascii_chars(bytes@),
{
    String::from_utf8(bytes).unwrap_or_default()
}

/// Standard base64 with padding, as a string.
pub fn base64_encode(data: &[u8]) -> (r: String)
    requires
        4 * data@.len() + 4 <= usize::MAX,
    ensures
        r@ == ascii_chars(base64_bytes(data@)),
{
    let enc = base64_encode_raw(data);
    proof {
        lemma_base64_bytes_ascii(data@);
    }
    ascii_to_string(enc)
}

/// Decodes standard base64; any string that is the standard encoding of
/// some bytes yields exactly those bytes.
pub fn base64_decode(text: &str) -> (r: Result<Vec<u8>, ()>)
    ensures
        forall|b: Seq<u8>|
            text@ == ascii_chars(#[trigger] base64_bytes(b)) ==> (r matches Ok(v) && v@ == b),
{
    let r = base64_decode_raw(text);
    proof {
        assert forall|b: Seq<u8>|
            text@ == ascii_chars(#[trigger] base64_bytes(b)) implies r matches Ok(v) && v@
            == b by {
            lemma_base64_bytes_ascii(b);
            lemma_ascii_chars_utf8(base64_bytes(b));
        }
    }
    r
}

/// URL-safe base64 without padding: the standard encoding with `+`
/// replaced by `-`, `/` replaced by `_`, and padding stripped.
pub fn base64_url_encode(data: &[u8]) -> (r: String)
    requires
        4 * data@.len() + 4 <= usize::MAX,
    ensures
        r@ == ascii_chars(base64url_bytes(data@)),
{
    let enc = base64_encode_raw(data);
    proof {
        lemma_base64_bytes_wf(data@);
    }
    let pad: usize = if data.len() % 3 == 0 {
        0
    } else if data.len() % 3 == 1 {
        2
    } else {
        1
    };
    let end: usize = enc.len() - pad;
    assert(end == base64_unpadded_len(data@.len() as int));
    let mut out: Vec<u8> = Vec::new();
    let mut i: usize = 0;
    while i < end
        invariant
            0 <= i <= end,
            end == base64_unpadded_len(data@.len() as int),
            end <= enc@.len(),
            enc@ == base64_bytes(data@),
            out@ =~= base64_bytes(data@).take(end as int).map_values(
                |b: u8| base64_url_digit(b),
            ).take(i as int),
        decreases end - i,
    {
        let b = enc[i];
        let m: u8 = if b == 43 {
            45
        } else if b == 47 {
            95
        } else {
            b
        };
        out.push(m);
        i = i + 1;
    }
    assert(out@ =~= base64url_bytes(data@));
    proof {
        lemma_base64url_url_safe(data@);
        lemma_base64_bytes_wf(data@);
    }
    ascii_to_string(out)
}

/// Lowercase hex, two digits per byte.
pub fn hex_encode(data: &[u8]) -> (r: String)
    requires
        2 * data@.len() <= usize::MAX,
    ensures
        r@ == ascii_chars(hex_bytes(data@)),
{
    let mut out: Vec<u8> = Vec::new();
    let n = data.len();
    let mut i: usize = 0;
    assert(data@.skip(0) == data@);
    while i < n
        invariant
            0 <= i <= n,
            n == data@.len(),
            hex_bytes(data@) =~= out@ + hex_bytes(data@.skip(i as int)),
            out@.len() == 2 * i,
        decreases n - i,
    {
        let b = data[i];
        assert((b >> 4) < 16 && (b & 0x0f) < 16) by (bit_vector);
        let hi = b >> 4;
        let lo = b & 0x0f;
        let dh: u8 = if hi < 10 {
            48 + hi
        } else {
            87 + hi
        };
        let dl: u8 = if lo < 10 {
            48 + lo
        } else {
            87 + lo
        };
        out.push(dh);
        out.push(dl);
        proof {
            assert(data@.skip(i as int)[0] == data@[i as int]);
            assert(data@.skip(i as int).skip(1) =~= data@.skip(i as int + 1));
        }
        i = i + 1;
    }
    proof {
        assert(data@.skip(n as int) =~= Seq::<u8>::empty());
        assert(hex_bytes(Seq::<u8>::empty()) =~= Seq::<u8>::empty());
        assert(out@ =~= hex_bytes(data@));
        lemma_hex_bytes_wf(data@);
    }
    ascii_to_string(out)
}

} // verus!
