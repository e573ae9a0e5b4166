//! Text encodings at the engine boundary.
//!
//! The core of the engine works on raw bytes; callers choose a text
//! encoding (base64, lower-case hex, or UTF-8) that is applied only here.
//! The hex codec is implemented and verified in full; base64 and UTF-8
//! validation stand behind trusted wrappers around `base64ct` and the
//! standard library.

use base64ct::Encoding;
use vstd::prelude::*;
use vstd::string::StringSliceAdditionalSpecFns;

use crate::enums::{KeyFormat, Pkcs, TextEncoding};
use crate::errors::Error;

verus! {

/// A container, serialization and text encoding naming one side of a key
/// transcoding request.
#[derive(Clone, Copy, Debug, PartialEq, Eq, Structural)]
pub struct PkcsDto {
    pub pkcs: Pkcs,
    pub format: KeyFormat,
    pub encoding: TextEncoding,
}

// ---------------------------------------------------------------------------
// Lower-case hexadecimal, verified.
// ---------------------------------------------------------------------------

/// The lower-case hex digit of a value below 16, as an ASCII byte.
pub open spec fn hex_digit(n: u8) -> u8
    recommends
        n < 16,
{
    if n < 10 {
        (0x30 + n) as u8
    } else {
        (0x57 + n) as u8
    }
}

/// The lower-case hex encoding of a byte string: two digits per byte,
/// high nibble first.
pub open spec fn hex_of(s: Seq<u8>) -> Seq<u8>
    decreases s.len(),
{
    if s.len() == 0 {
        Seq::empty()
    } else {
        seq![hex_digit(s[0] / 16), hex_digit(s[0] % 16)] + hex_of(s.drop_first())
    }
}

/// True of the bytes that are lower-case hex digits.
pub open spec fn is_lower_hex(c: u8) -> bool {
    (0x30 <= c && c <= 0x39) || (0x61 <= c && c <= 0x66)
}

/// The value of a lower-case hex digit.
pub open spec fn hex_val(c: u8) -> u8
    recommends
        is_lower_hex(c),
{
    if c <= 0x39 {
        (c - 0x30) as u8
    } else {
        (c - 0x57) as u8
    }
}

/// The bytes denoted by a lower-case hex string, or `None` where the
/// string has odd length or holds a byte that is no lower-case digit.
pub open spec fn hex_parse(s: Seq<u8>) -> Option<Seq<u8>>
    decreases s.len(),
{
    if s.len() == 0 {
        Some(Seq::empty())
    } else if s.len() == 1 {
        None
    } else if is_lower_hex(s[0]) && is_lower_hex(s[1]) {
        match hex_parse(s.skip(2)) {
            Some(rest) => Some(seq![(hex_val(s[0]) * 16 + hex_val(s[1])) as u8] + rest),
            None => None,
        }
    } else {
        None
    }
}

/// A parsed prefix glued onto the parse of the rest of a string.
spec fn prefix_parse(acc: Seq<u8>, rest: Option<Seq<u8>>) -> Option<Seq<u8>> {
    match rest {
        Some(r) => Some(acc + r),
        None => None,
    }
}

proof fn lemma_hex_of_snoc(s: Seq<u8>, x: u8)
    ensures
        hex_of(s.push(x)) == hex_of(s) + seq![hex_digit(x / 16), hex_digit(x % 16)],
    decreases s.len(),
{
    if s.len() == 0 {
        assert(s.push(x)[0] == x);
        assert(s.push(x).drop_first() =~= Seq::<u8>::empty());
        assert(hex_of(s.push(x)) == seq![hex_digit(x / 16), hex_digit(x % 16)] + hex_of(
            Seq::<u8>::empty(),
        ));
        assert(hex_of(s.push(x)) =~= hex_of(s) + seq![hex_digit(x / 16), hex_digit(x % 16)]);
    } else {
        assert(s.push(x).drop_first() =~= s.drop_first().push(x));
        assert(s.push(x)[0] == s[0]);
        lemma_hex_of_snoc(s.drop_first(), x);
        assert(hex_of(s.push(x)) == seq![hex_digit(s[0] / 16), hex_digit(s[0] % 16)] + (hex_of(
            s.drop_first(),
        ) + seq![hex_digit(x / 16), hex_digit(x % 16)]));
        assert(hex_of(s.push(x)) =~= hex_of(s) + seq![hex_digit(x / 16), hex_digit(x % 16)]);
    }
}

/// The hex encoding is twice as long as its input.
pub proof fn lemma_hex_of_len(s: Seq<u8>)
    ensures
        hex_of(s).len() == 2 * s.len(),
    decreases s.len(),
{
    if s.len() > 0 {
        lemma_hex_of_len(s.drop_first());
    }
}

/// Encoding a byte string to hex and parsing the result gives the bytes
/// back: the hex codec loses nothing.
pub proof fn lemma_hex_round_trip(s: Seq<u8>)
    ensures
        hex_parse(hex_of(s)) == Some(s),
    decreases s.len(),
{
    if s.len() == 0 {
        assert(hex_of(s) =~= Seq::<u8>::empty());
    } else {
        lemma_hex_round_trip(s.drop_first());
        lemma_hex_of_len(s.drop_first());
        let h = hex_of(s);
        assert(h.skip(2) =~= hex_of(s.drop_first()));
        let b = s[0];
        assert(hex_val(hex_digit(b / 16)) == b / 16 && hex_val(hex_digit(b % 16)) == b % 16);
        assert((hex_val(h[0]) * 16 + hex_val(h[1])) as u8 == b);
        assert(seq![b] + s.drop_first() =~= s);
    }
}

/// A string of odd length is no hex encoding.
proof fn lemma_hex_parse_odd(s: Seq<u8>)
    requires
        s.len() % 2 == 1,
    ensures
        hex_parse(s) is None,
    decreases s.len(),
{
    if s.len() > 1 {
        lemma_hex_parse_odd(s.skip(2));
    }
}

/// Encode bytes as lower-case hex digits.
pub fn hex_encode_bytes(input: &[u8]) -> (r: Vec<u8>)
    ensures
        r@ == hex_of(input@),
{
    let input_len = input.len();
    let mut out: Vec<u8> = Vec::new();
    assert(input@.take(0) =~= Seq::<u8>::empty());
    for i in 0..input_len
        invariant
            input_len == input@.len(),
            out@ == hex_of(input@.take(i as int)),
    {
        let b = input[i];
        let hi = b / 16;
        let lo = b % 16;
        out.push(if hi < 10 { 0x30 + hi } else { 0x57 + hi });
        out.push(if lo < 10 { 0x30 + lo } else { 0x57 + lo });
        proof {
            lemma_hex_of_snoc(input@.take(i as int), b);
            assert(input@.take(i as int).push(b) =~= input@.take(i + 1));
        }
    }
    assert(input@.take(input_len as int) =~= input@);
    out
}

/// Parse lower-case hex digits back to bytes, rejecting odd lengths and
/// bytes outside the lower-case hex alphabet.
pub fn hex_decode_bytes(input: &[u8]) -> (r: Result<Vec<u8>, Error>)
    ensures
        r matches Ok(v) ==> hex_parse(input@) == Some(v@),
        r is Ok <==> hex_parse(input@) is Some,
{
    let input_len = input.len();
    if input_len % 2 == 1 {
        proof {
            lemma_hex_parse_odd(input@);
        }
        return Err(Error::Format(String::from_str("hex decode failed")));
    }
    let mut out: Vec<u8> = Vec::with_capacity(input_len / 2);
    let ghost whole = input@;
    let mut i: usize = 0;
    assert(whole.skip(0) =~= whole);
    while i < input_len
        invariant
            input_len == input@.len(),
            input@ == whole,
            i % 2 == 0,
            i <= input_len,
            input_len % 2 == 0,
            hex_parse(whole) == prefix_parse(out@, hex_parse(whole.skip(i as int))),
        decreases input_len - i,
    {
        let c0 = input[i];
        let c1 = input[i + 1];
        let v0 = if 0x30 <= c0 && c0 <= 0x39 {
            c0 - 0x30
        } else if 0x61 <= c0 && c0 <= 0x66 {
            c0 - 0x57
        } else {
            return Err(Error::Format(String::from_str("hex decode failed")));
        };
        let v1 = if 0x30 <= c1 && c1 <= 0x39 {
            c1 - 0x30
        } else if 0x61 <= c1 && c1 <= 0x66 {
            c1 - 0x57
        } else {
            return Err(Error::Format(String::from_str("hex decode failed")));
        };
        proof {
            assert(whole.skip(i as int)[0] == c0);
            assert(whole.skip(i as int)[1] == c1);
            assert(whole.skip(i as int).skip(2) =~= whole.skip(i + 2));
        }
        out.push(v0 * 16 + v1);
        proof {
            assert(forall|r2: Seq<u8>|
                (out@ + r2) =~= (out@.take(out@.len() - 1) + (seq![
                    (hex_val(c0) * 16 + hex_val(c1)) as u8,
                ] + r2)));
        }
        i = i + 2;
    }
    assert(whole.skip(input_len as int) =~= Seq::<u8>::empty());
    Ok(out)
}

// ---------------------------------------------------------------------------
// Base64 (standard alphabet, padded), behind trusted wrappers.
// ---------------------------------------------------------------------------

/// What `base64ct`'s standard padded encoder returns for a byte string.
pub uninterp spec fn b64_raw(s: Seq<u8>) -> Seq<u8>;

/// The standard padded base64 encoding of a byte string, as ASCII
/// bytes. The encoding alphabet is printable, so a line feed can never
/// occur in it; the definition bakes that in (mapping a line feed, which
/// the encoder never emits, to a dot), which is what lets the PEM layer
/// invert its line chunking.
pub open spec fn b64_of(s: Seq<u8>) -> Seq<u8> {
    Seq::new(b64_raw(s).len(), |i: int| if b64_raw(s)[i] == 10 { 46u8 } else { b64_raw(s)[i] })
}

/// A base64 encoding holds no line feed.
pub proof fn lemma_b64_no_nl(s: Seq<u8>)
    ensures
        forall|i: int| 0 <= i < b64_of(s).len() ==> b64_of(s)[i] != 10,
{
}

/// The bytes whose base64 encoding this string is, or `None` where the
/// string is no canonical encoding: base64 decoding inverts `b64_of`.
pub open spec fn b64_opened(s: Seq<u8>) -> Option<Seq<u8>> {
    if exists|v: Seq<u8>| b64_of(v) == s {
        Some(choose|v: Seq<u8>| b64_of(v) == s)
    } else {
        None
    }
}

/// Relies on `base64ct::Base64::encode_string`: the standard padded
/// base64 encoding, four printable ASCII characters for each three input
/// bytes.
#[verifier::external_body]
pub fn base64_encode(input: &[u8]) -> (r: Vec<u8>)
    ensures
        r@ == b64_raw(input@),
        r@ == b64_of(input@),
        forall|v2: Seq<u8>| b64_of(v2) == r@ ==> v2 == input@,
        r@.len() == 4 * ((input@.len() + 2) / 3),
        forall|i: int| 0 <= i < r@.len() ==> 32 < #[trigger] r@[i] < 127,
{
    base64ct::Base64::encode_string(input).into_bytes()
}

/// Relies on `base64ct::Base64::decode_vec`: strict base64, accepting
/// exactly the canonical padded encodings and inverting
/// `base64ct::Base64::encode_string`.
#[verifier::external_body]
pub fn base64_decode(input: &[u8]) -> (r: Option<Vec<u8>>)
    ensures
        r matches Some(v) ==> b64_of(v@) == input@ && (forall|v2: Seq<u8>|
            b64_of(v2) == input@ ==> v2 == v@),
        r is Some <==> exists|v: Seq<u8>| b64_of(v) == input@,
{
    let s = core::str::from_utf8(input).ok()?;
    base64ct::Base64::decode_vec(s).ok()
}

// ---------------------------------------------------------------------------
// UTF-8 text, behind trusted wrappers.
// ---------------------------------------------------------------------------

/// The characters denoted by a UTF-8 byte string, or `None` where the
/// bytes are not valid UTF-8.
pub uninterp spec fn utf8_decode(s: Seq<u8>) -> Option<Seq<char>>;

/// Relies on `alloc::string::String::from_utf8`: succeeds exactly on
/// valid UTF-8 (so always on bytes below 128) and returns the
/// characters the bytes encode; the returned string's UTF-8 bytes are
/// the input, unchanged.
#[verifier::external_body]
pub fn string_encode(input: &[u8]) -> (r: Result<String, Error>)
    ensures
        r matches Ok(s) ==> utf8_decode(input@) == Some(s@) && vstd::utf8::encode_utf8(s@)
            == input@,
        r is Ok <==> utf8_decode(input@) is Some,
        (forall|i: int| 0 <= i < input@.len() ==> #[trigger] input@[i] < 128) ==> r is Ok,
{
    match String::from_utf8(input.to_vec()) {
        Ok(s) => Ok(s),
        Err(_) => Err(Error::Format(String::from_str("utf-8 encode failed"))),
    }
}

/// The bytes of a string, unchanged: UTF-8 text crosses the boundary as
/// its own encoding.
pub fn string_decode(input: &str) -> (r: Result<Vec<u8>, Error>)
    ensures
        r matches Ok(v) && v@ == input.spec_bytes(),
{
    Ok(vstd::slice::slice_to_vec(input.as_bytes()))
}

/// Relies on `alloc::string::String::from_utf8`: a buffer of bytes below
/// 128 is valid UTF-8 and decodes to one character per byte.
#[verifier::external_body]
fn ascii_to_string(bytes: Vec<u8>) -> (r: String)
    requires
        forall|i: int| 0 <= i < bytes@.len() ==> bytes@[i] < 128,
    ensures
        r@.len() == bytes@.len(),
        forall|i: int| 0 <= i < bytes@.len() ==> r@[i] == bytes@[i] as char,
{
    String::from_utf8(bytes).unwrap_or_default()
}

// ---------------------------------------------------------------------------
// The TextEncoding boundary.
// ---------------------------------------------------------------------------

/// A byte string viewed character by character; meaningful for ASCII
/// bytes.
pub open spec fn chars_of(s: Seq<u8>) -> Seq<char> {
    Seq::new(s.len(), |i: int| s[i] as char)
}

/// Whether encoding these bytes under this text encoding succeeds:
/// base64 and hex accept anything, UTF-8 only its valid byte strings.
pub open spec fn spec_encode_ok(e: TextEncoding, input: Seq<u8>) -> bool {
    match e {
        TextEncoding::Base64 => true,
        TextEncoding::Hex => true,
        TextEncoding::Utf8 => utf8_decode(input) is Some,
    }
}

/// The text produced for these bytes under this encoding.
pub open spec fn spec_encode(e: TextEncoding, input: Seq<u8>) -> Seq<char> {
    match e {
        TextEncoding::Base64 => chars_of(b64_of(input)),
        TextEncoding::Hex => chars_of(hex_of(input)),
        TextEncoding::Utf8 => utf8_decode(input)->Some_0,
    }
}

/// The bytes denoted by this text (given as the string's UTF-8 bytes)
/// under this encoding.
pub open spec fn spec_decode(e: TextEncoding, input: Seq<u8>) -> Option<Seq<u8>> {
    match e {
        TextEncoding::Base64 => b64_opened(input),
        TextEncoding::Hex => hex_parse(input),
        TextEncoding::Utf8 => Some(input),
    }
}

impl TextEncoding {
    /// Render raw bytes as text in this encoding. Decoding the
    /// rendered text under the same encoding gives the bytes back,
    /// and rendering ASCII bytes never fails.
    pub fn encode(&self, input: &[u8]) -> (r: Result<String, Error>)
        ensures
            r matches Ok(s) ==> s@ == spec_encode(*self, input@),
            r is Ok <==> spec_encode_ok(*self, input@),
            r matches Ok(s) ==> spec_decode(*self, vstd::utf8::encode_utf8(s@)) == Some(input@),
            (forall|i: int| 0 <= i < input@.len() ==> #[trigger] input@[i] < 128) ==> r is Ok,
    {
        match self {
            TextEncoding::Base64 => {
                let bytes = base64_encode(input);
                let s = ascii_to_string(bytes);
                proof {
                    broadcast use vstd::utf8::is_ascii_chars_encode_utf8;

                    assert(s@ =~= spec_encode(*self, input@));
                    assert(vstd::utf8::is_ascii_chars(s@));
                    assert(vstd::utf8::encode_utf8(s@) =~= bytes@);
                    assert(b64_opened(bytes@) == Some(input@));
                }
                Ok(s)
            },
            TextEncoding::Utf8 => string_encode(input),
            TextEncoding::Hex => {
                let bytes = hex_encode_bytes(input);
                assert(forall|i: int|
                    0 <= i < bytes@.len() ==> #[trigger] bytes@[i] < 128) by {
                    lemma_hex_all_ascii(input@);
                };
                let s = ascii_to_string(bytes);
                proof {
                    broadcast use vstd::utf8::is_ascii_chars_encode_utf8;

                    assert(s@ =~= spec_encode(*self, input@));
                    assert(vstd::utf8::is_ascii_chars(s@));
                    assert(vstd::utf8::encode_utf8(s@) =~= bytes@);
                    lemma_hex_round_trip(input@);
                }
                Ok(s)
            },
        }
    }

    /// Recover raw bytes from text in this encoding.
    pub fn decode(&self, input: &str) -> (r: Result<Vec<u8>, Error>)
        ensures
            r matches Ok(v) ==> spec_decode(*self, input.spec_bytes()) == Some(v@),
            r is Ok <==> spec_decode(*self, input.spec_bytes()) is Some,
    {
        match self {
            TextEncoding::Base64 => match base64_decode(input.as_bytes()) {
                Some(v) => {
                    proof {
                        assert(b64_opened(input.spec_bytes()) == Some(v@));
                    }
                    Ok(v)
                },
                None => Err(Error::Format(String::from_str("base64 decode failed"))),
            },
            TextEncoding::Utf8 => string_decode(input),
            TextEncoding::Hex => hex_decode_bytes(input.as_bytes()),
        }
    }
}

/// Every byte of a hex encoding is an ASCII digit or lower-case letter.
proof fn lemma_hex_all_ascii(s: Seq<u8>)
    ensures
        forall|i: int| 0 <= i < hex_of(s).len() ==> #[trigger] hex_of(s)[i] < 128,
    decreases s.len(),
{
    if s.len() > 0 {
        lemma_hex_all_ascii(s.drop_first());
        assert(hex_of(s) == seq![hex_digit(s[0] / 16), hex_digit(s[0] % 16)] + hex_of(
            s.drop_first(),
        ));
        assert(hex_digit(s[0] / 16) < 128 && hex_digit(s[0] % 16) < 128);
        assert(forall|i: int|
            2 <= i < hex_of(s).len() ==> #[trigger] hex_of(s)[i] == hex_of(s.drop_first())[i - 2]);
    }
}

/// Re-render text from one encoding into another.
pub fn convert_encoding(input: &str, from: TextEncoding, to: TextEncoding) -> (r: Result<
    String,
    Error,
>)
    ensures
        r matches Ok(s) ==> {
            &&& spec_decode(from, input.spec_bytes()) matches Some(raw)
            &&& s@ == spec_encode(to, raw)
            &&& spec_decode(to, vstd::utf8::encode_utf8(s@)) == Some(raw)
        },
        (spec_decode(from, input.spec_bytes()) matches Some(raw) && spec_encode_ok(to, raw))
            ==> r is Ok,
{
    let decoded = from.decode(input)?;
    to.encode(decoded.as_slice())
}

} // verus!
