//! The PEM serialization, implemented and verified in full.
//!
//! A PEM document is a labelled header line, the base64 encoding of the
//! DER bytes broken into 64-character lines, and a matching footer line,
//! each line ended by a single line feed. Decoding validates the label
//! before accepting the payload: a SEC1 key handed in where a PKCS8 key
//! was requested is a format error, never silently coerced.

use vstd::prelude::*;

use crate::codec::{b64_of, base64_decode, base64_encode, lemma_b64_no_nl};
use crate::errors::Error;

verus! {

/// `-----BEGIN ` as ASCII bytes.
pub const PEM_BEGIN: [u8; 11] = [45, 45, 45, 45, 45, 66, 69, 71, 73, 78, 32];

/// `-----END ` as ASCII bytes.
pub const PEM_END: [u8; 9] = [45, 45, 45, 45, 45, 69, 78, 68, 32];

/// `-----` as ASCII bytes.
pub const PEM_DASHES: [u8; 5] = [45, 45, 45, 45, 45];

/// The line feed byte.
pub const NL: u8 = 10;

/// A base64 string broken into lines of 64 characters (the last line
/// possibly shorter), each ended by a line feed.
pub open spec fn b64_lines(b: Seq<u8>) -> Seq<u8>
    decreases b.len(),
{
    if b.len() == 0 {
        Seq::empty()
    } else if b.len() <= 64 {
        b + seq![NL]
    } else {
        b.take(64) + seq![NL] + b64_lines(b.skip(64))
    }
}

/// The header line of a PEM document with this label.
pub open spec fn pem_header(label: Seq<u8>) -> Seq<u8> {
    PEM_BEGIN@ + label + PEM_DASHES@ + seq![NL]
}

/// The footer line of a PEM document with this label.
pub open spec fn pem_footer(label: Seq<u8>) -> Seq<u8> {
    PEM_END@ + label + PEM_DASHES@ + seq![NL]
}

/// The canonical PEM document for a label and a DER payload.
pub open spec fn pem_of(label: Seq<u8>, der: Seq<u8>) -> Seq<u8> {
    pem_header(label) + b64_lines(b64_of(der)) + pem_footer(label)
}

/// The DER payload a byte string holds as a canonical PEM document
/// under this label, or `None` where it is no such document.
pub open spec fn pem_opened(label: Seq<u8>, data: Seq<u8>) -> Option<Seq<u8>> {
    if exists|d: Seq<u8>| data == pem_of(label, d) {
        Some(choose|d: Seq<u8>| data == pem_of(label, d))
    } else {
        None
    }
}

/// A byte string with every line feed removed.
pub open spec fn strip_nl(s: Seq<u8>) -> Seq<u8>
    decreases s.len(),
{
    if s.len() == 0 {
        Seq::empty()
    } else if s[0] == NL {
        strip_nl(s.drop_first())
    } else {
        seq![s[0]] + strip_nl(s.drop_first())
    }
}

proof fn lemma_strip_nl_append(a: Seq<u8>, b: Seq<u8>)
    ensures
        strip_nl(a + b) == strip_nl(a) + strip_nl(b),
    decreases a.len(),
{
    if a.len() == 0 {
        assert(a + b =~= b);
        assert(strip_nl(a) + strip_nl(b) =~= strip_nl(b));
    } else {
        assert((a + b).drop_first() =~= a.drop_first() + b);
        lemma_strip_nl_append(a.drop_first(), b);
        if a[0] == NL {
        } else {
            assert(seq![a[0]] + (strip_nl(a.drop_first()) + strip_nl(b)) =~= (seq![a[0]]
                + strip_nl(a.drop_first())) + strip_nl(b));
        }
    }
}

proof fn lemma_strip_nl_clean(s: Seq<u8>)
    requires
        forall|i: int| 0 <= i < s.len() ==> s[i] != NL,
    ensures
        strip_nl(s) == s,
    decreases s.len(),
{
    if s.len() > 0 {
        lemma_strip_nl_clean(s.drop_first());
        assert(seq![s[0]] + s.drop_first() =~= s);
    }
}

/// Stripping the line feeds out of a chunked base64 body gives back the
/// base64 string, as long as the string itself holds no line feed.
proof fn lemma_strip_nl_lines(b: Seq<u8>)
    requires
        forall|i: int| 0 <= i < b.len() ==> b[i] != NL,
    ensures
        strip_nl(b64_lines(b)) == b,
    decreases b.len(),
{
    if b.len() == 0 {
    } else if b.len() <= 64 {
        lemma_strip_nl_append(b, seq![NL]);
        lemma_strip_nl_clean(b);
        assert(seq![NL].drop_first() =~= Seq::<u8>::empty());
        assert(strip_nl(Seq::<u8>::empty()) =~= Seq::<u8>::empty());
        assert(seq![NL][0] == NL);
        assert(strip_nl(seq![NL]) =~= Seq::<u8>::empty());
        assert(b + Seq::<u8>::empty() =~= b);
    } else {
        assert(b64_lines(b) == b.take(64) + seq![NL] + b64_lines(b.skip(64)));
        lemma_strip_nl_append(b.take(64) + seq![NL], b64_lines(b.skip(64)));
        lemma_strip_nl_append(b.take(64), seq![NL]);
        assert(forall|i: int| 0 <= i < b.take(64).len() ==> b.take(64)[i] != NL);
        lemma_strip_nl_clean(b.take(64));
        assert(forall|i: int| 0 <= i < b.skip(64).len() ==> b.skip(64)[i] != NL);
        lemma_strip_nl_lines(b.skip(64));
        assert(seq![NL].drop_first() =~= Seq::<u8>::empty());
        assert(strip_nl(Seq::<u8>::empty()) =~= Seq::<u8>::empty());
        assert(seq![NL][0] == NL);
        assert(strip_nl(seq![NL]) =~= Seq::<u8>::empty());
        assert(strip_nl(b.take(64) + seq![NL]) =~= b.take(64));
        assert(strip_nl(b64_lines(b)) =~= b.take(64) + b.skip(64));
        assert(b.take(64) + b.skip(64) =~= b);
    }
}

/// Two concatenations with the same head and tail agree in the middle.
proof fn lemma_concat_middle(h: Seq<u8>, a: Seq<u8>, b: Seq<u8>, f: Seq<u8>)
    requires
        h + a + f == h + b + f,
    ensures
        a == b,
{
    assert((h + a + f).len() == h.len() + a.len() + f.len());
    assert((h + b + f).len() == h.len() + b.len() + f.len());
    assert(a.len() == b.len());
    assert(a =~= (h + a + f).subrange(h.len() as int, (h.len() + a.len()) as int));
    assert(b =~= (h + b + f).subrange(h.len() as int, (h.len() + b.len()) as int));
}

/// Compare two byte slices.
pub fn bytes_eq(a: &[u8], b: &[u8]) -> (r: bool)
    ensures
        r <==> a@ =~= b@,
{
    if a.len() != b.len() {
        return false;
    }
    let n = a.len();
    let mut i: usize = 0;
    while i < n
        invariant
            n == a@.len() == b@.len(),
            i <= n,
            forall|j: int| 0 <= j < i ==> a@[j] == b@[j],
        decreases n - i,
    {
        if a[i] != b[i] {
            return false;
        }
        i = i + 1;
    }
    true
}

/// Break a base64 string into 64-character lines.
fn build_b64_lines(b64: &[u8]) -> (r: Vec<u8>)
    ensures
        r@ == b64_lines(b64@),
{
    let mut out: Vec<u8> = Vec::new();
    let n = b64.len();
    let mut i: usize = 0;
    proof {
        assert(b64@.skip(0) =~= b64@);
        assert(Seq::<u8>::empty() + b64_lines(b64@) =~= b64_lines(b64@));
    }
    while n - i > 64
        invariant
            n == b64@.len(),
            i <= n,
            i % 64 == 0,
            b64_lines(b64@) == out@ + b64_lines(b64@.skip(i as int)),
        decreases n - i,
    {
        let ghost prev = out@;
        let mut j: usize = i;
        while j < i + 64
            invariant
                i + 64 <= n == b64@.len(),
                i <= j <= i + 64,
                out@ == prev + b64@.subrange(i as int, j as int),
            decreases i + 64 - j,
        {
            out.push(b64[j]);
            proof {
                assert(prev + b64@.subrange(i as int, j + 1) =~= (prev + b64@.subrange(
                    i as int,
                    j as int,
                )).push(b64@[j as int]));
            }
            j = j + 1;
        }
        out.push(NL);
        proof {
            let rest = b64@.skip(i as int);
            assert(rest.len() > 64);
            assert(rest.take(64) =~= b64@.subrange(i as int, i + 64));
            assert(rest.skip(64) =~= b64@.skip(i + 64));
            assert(out@ =~= (prev + rest.take(64)).push(NL));
            assert(out@ =~= prev + (rest.take(64) + seq![NL]));
            assert(b64_lines(rest) == rest.take(64) + seq![NL] + b64_lines(rest.skip(64)));
            assert(out@ + b64_lines(b64@.skip(i + 64)) =~= prev + b64_lines(rest));
        }
        i = i + 64;
    }
    if i < n {
        let ghost prev = out@;
        let mut j: usize = i;
        while j < n
            invariant
                i < n == b64@.len(),
                i <= j <= n,
                out@ == prev + b64@.subrange(i as int, j as int),
            decreases n - j,
        {
            out.push(b64[j]);
            proof {
                assert(prev + b64@.subrange(i as int, j + 1) =~= (prev + b64@.subrange(
                    i as int,
                    j as int,
                )).push(b64@[j as int]));
            }
            j = j + 1;
        }
        out.push(NL);
        proof {
            let rest = b64@.skip(i as int);
            assert(0 < rest.len() <= 64);
            assert(rest =~= b64@.subrange(i as int, n as int));
            assert(out@ =~= prev + (rest + seq![NL]));
            assert(b64_lines(rest) == rest + seq![NL]);
        }
    } else {
        proof {
            assert(b64@.skip(i as int) =~= Seq::<u8>::empty());
        }
    }
    proof {
        assert(out@ + b64_lines(Seq::<u8>::empty()) =~= out@);
    }
    out
}

/// Render a DER payload as a canonical PEM document under this label.
/// Decoding the document gives the payload back.
pub fn pem_encode(label: &[u8], der: &[u8]) -> (r: Vec<u8>)
    ensures
        r@ == pem_of(label@, der@),
        pem_opened(label@, r@) == Some(der@),
{
    let b64 = base64_encode(der);
    let lines = build_b64_lines(b64.as_slice());
    let mut out: Vec<u8> = Vec::new();
    out.extend_from_slice(PEM_BEGIN.as_slice());
    out.extend_from_slice(label);
    out.extend_from_slice(PEM_DASHES.as_slice());
    out.push(NL);
    out.extend_from_slice(lines.as_slice());
    out.extend_from_slice(PEM_END.as_slice());
    out.extend_from_slice(label);
    out.extend_from_slice(PEM_DASHES.as_slice());
    out.push(NL);
    proof {
        assert(out@ =~= pem_header(label@) + lines@ + pem_footer(label@));
        assert(out@ == pem_of(label@, der@));
        lemma_b64_no_nl(der@);
        lemma_strip_nl_lines(b64_of(der@));
        lemma_pem_unique(out@, label@, lines@, b64@, der@);
        assert(pem_opened(label@, out@) == Some(der@));
    }
    out
}

/// Remove every line feed from a byte slice.
fn strip_newlines(input: &[u8]) -> (r: Vec<u8>)
    ensures
        r@ == strip_nl(input@),
{
    let mut out: Vec<u8> = Vec::new();
    let n = input.len();
    let ghost whole = input@;
    let mut i: usize = 0;
    proof {
        assert(input@.skip(0) =~= input@);
        assert(Seq::<u8>::empty() + strip_nl(input@) =~= strip_nl(input@));
    }
    while i < n
        invariant
            n == input@.len(),
            i <= n,
            strip_nl(input@) == out@ + strip_nl(input@.skip(i as int)),
        decreases n - i,
    {
        let c = input[i];
        proof {
            assert(input@.skip(i as int)[0] == c);
            assert(input@.skip(i as int).drop_first() =~= input@.skip(i + 1));
        }
        if c != NL {
            out.push(c);
            proof {
                assert(out@ + strip_nl(input@.skip(i + 1)) =~= (out@.take(out@.len() - 1) + (seq![c]
                    + strip_nl(input@.skip(i + 1)))));
            }
        }
        i = i + 1;
    }
    proof {
        assert(strip_nl(input@.skip(n as int)) =~= Seq::<u8>::empty());
        assert(out@ + Seq::<u8>::empty() =~= out@);
    }
    out
}

/// Parse a canonical PEM document, validating its label, and hand back
/// the DER payload. Accepts exactly the documents `pem_encode` writes:
/// success is owed on every canonical PEM under this label, and nothing
/// else is accepted.
pub fn pem_decode(input: &[u8], label: &[u8]) -> (r: Result<Vec<u8>, Error>)
    ensures
        r matches Ok(v) ==> input@ == pem_of(label@, v@) && (forall|d2: Seq<u8>|
            pem_of(label@, d2) == input@ ==> d2 == v@) && pem_opened(label@, input@) == Some(v@),
        r is Ok <==> exists|d: Seq<u8>| input@ == pem_of(label@, d),
        r is Ok <==> pem_opened(label@, input@) is Some,
{
    let input_len_bound = input.len();
    let label_len = label.len();
    if label_len > (usize::MAX - 32) / 2 {
        proof {
            lemma_pem_not_short(input@, label@);
        }
        return Err(Error::Format(String::from_str("pem framing not found")));
    }
    let header_len = 11 + label_len;
    let footer_len = 9 + label_len;
    // 6 = the dashes and line feed closing each of the two boundary lines.
    if input.len() < header_len + footer_len + 12 {
        proof {
            lemma_pem_not_short(input@, label@);
        }
        return Err(Error::Format(String::from_str("pem framing not found")));
    }
    let body_start = header_len + 6;
    let body_end = input.len() - (footer_len + 6);
    let header = vstd::slice::slice_subrange(input, 0, body_start);
    let footer = vstd::slice::slice_subrange(input, body_end, input.len());
    let mut expected_header: Vec<u8> = Vec::new();
    expected_header.extend_from_slice(PEM_BEGIN.as_slice());
    expected_header.extend_from_slice(label);
    expected_header.extend_from_slice(PEM_DASHES.as_slice());
    expected_header.push(NL);
    let mut expected_footer: Vec<u8> = Vec::new();
    expected_footer.extend_from_slice(PEM_END.as_slice());
    expected_footer.extend_from_slice(label);
    expected_footer.extend_from_slice(PEM_DASHES.as_slice());
    expected_footer.push(NL);
    proof {
        assert(expected_header@ =~= pem_header(label@));
        assert(expected_footer@ =~= pem_footer(label@));
    }
    if !bytes_eq(header, expected_header.as_slice()) || !bytes_eq(
        footer,
        expected_footer.as_slice(),
    ) {
        proof {
            lemma_pem_framing(input@, label@, body_start as int, body_end as int);
        }
        return Err(Error::Format(String::from_str("pem framing not found")));
    }
    let body = vstd::slice::slice_subrange(input, body_start, body_end);
    let candidate = strip_newlines(body);
    let rebuilt = build_b64_lines(candidate.as_slice());
    if !bytes_eq(rebuilt.as_slice(), body) {
        proof {
            lemma_pem_body(input@, label@, body_start as int, body_end as int);
        }
        return Err(Error::Format(String::from_str("pem body is not canonical")));
    }
    match base64_decode(candidate.as_slice()) {
        Some(v) => {
            proof {
                assert(input@ =~= pem_header(label@) + body@ + pem_footer(label@));
                assert(input@ == pem_of(label@, v@));
                assert(forall|d2: Seq<u8>|
                    pem_of(label@, d2) == input@ ==> d2 == v@) by {
                    lemma_pem_unique(input@, label@, body@, candidate@, v@);
                };
            }
            Ok(v)
        },
        None => {
            proof {
                assert(input@ =~= pem_header(label@) + body@ + pem_footer(label@));
                lemma_pem_no_der(input@, label@, body@, candidate@);
            }
            Err(Error::Format(String::from_str("pem payload is not base64")))
        },
    }
}

/// A PEM document is never shorter than its header, footer and boundary
/// punctuation.
proof fn lemma_pem_not_short(input: Seq<u8>, label: Seq<u8>)
    requires
        input.len() < 32 + 2 * label.len(),
    ensures
        forall|d: Seq<u8>| input != pem_of(label, d),
{
    assert forall|d: Seq<u8>| input != pem_of(label, d) by {
        assert(pem_of(label, d).len() >= pem_header(label).len() + pem_footer(label).len());
        assert(pem_header(label).len() == 17 + label.len());
        assert(pem_footer(label).len() == 15 + label.len());
    }
}

/// A byte string whose boundary regions differ from the header and
/// footer lines is no PEM document.
proof fn lemma_pem_framing(input: Seq<u8>, label: Seq<u8>, body_start: int, body_end: int)
    requires
        body_start == pem_header(label).len(),
        input.len() - body_end == pem_footer(label).len(),
        body_start <= body_end <= input.len(),
        input.subrange(0, body_start) != pem_header(label) || input.subrange(
            body_end,
            input.len() as int,
        ) != pem_footer(label),
    ensures
        forall|d: Seq<u8>| input != pem_of(label, d),
{
    assert forall|d: Seq<u8>| input != pem_of(label, d) by {
        if input == pem_of(label, d) {
            let h = pem_header(label);
            let f = pem_footer(label);
            let m = b64_lines(b64_of(d));
            assert(input.subrange(0, body_start) =~= h);
            assert(input.subrange(body_end, input.len() as int) =~= f);
        }
    }
}

/// A PEM body is the line-chunking of its own base64 content: a body
/// that differs from the re-chunking of its unchunked self is not
/// canonical.
proof fn lemma_pem_body(input: Seq<u8>, label: Seq<u8>, body_start: int, body_end: int)
    requires
        body_start == pem_header(label).len(),
        input.len() - body_end == pem_footer(label).len(),
        body_start <= body_end <= input.len(),
        b64_lines(strip_nl(input.subrange(body_start, body_end))) != input.subrange(
            body_start,
            body_end,
        ),
    ensures
        forall|d: Seq<u8>| input != pem_of(label, d),
{
    assert forall|d: Seq<u8>| input != pem_of(label, d) by {
        if input == pem_of(label, d) {
            let m = b64_lines(b64_of(d));
            assert(input.subrange(body_start, body_end) =~= m);
            assert(forall|i: int| 0 <= i < b64_of(d).len() ==> b64_of(d)[i] != NL) by {
                lemma_b64_no_nl(d);
            };
            lemma_strip_nl_lines(b64_of(d));
        }
    }
}

/// Only one DER payload stands under a given PEM document: any
/// candidate pre-image has the same base64 content, and base64 decoding
/// names a single pre-image of that content.
proof fn lemma_pem_unique(input: Seq<u8>, label: Seq<u8>, body: Seq<u8>, cand: Seq<u8>, v: Seq<u8>)
    requires
        input == pem_header(label) + body + pem_footer(label),
        body == b64_lines(b64_of(v)),
        cand == strip_nl(body),
        forall|v2: Seq<u8>| b64_of(v2) == cand ==> v2 == v,
    ensures
        forall|d2: Seq<u8>| pem_of(label, d2) == input ==> d2 == v,
{
    assert forall|d2: Seq<u8>| pem_of(label, d2) == input implies d2 == v by {
        let m2 = b64_lines(b64_of(d2));
        assert(pem_header(label) + m2 + pem_footer(label) == input);
        lemma_concat_middle(pem_header(label), m2, body, pem_footer(label));
        lemma_b64_no_nl(d2);
        lemma_strip_nl_lines(b64_of(d2));
        assert(b64_of(d2) == cand);
    }
}

/// A canonical body whose base64 content decodes to nothing is no PEM
/// document.
proof fn lemma_pem_no_der(input: Seq<u8>, label: Seq<u8>, body: Seq<u8>, candidate: Seq<u8>)
    requires
        input == pem_header(label) + body + pem_footer(label),
        candidate == strip_nl(body),
        forall|v: Seq<u8>| b64_of(v) != candidate,
    ensures
        forall|d: Seq<u8>| input != pem_of(label, d),
{
    assert forall|d: Seq<u8>| input != pem_of(label, d) by {
        if input == pem_of(label, d) {
            let m = b64_lines(b64_of(d));
            lemma_concat_middle(pem_header(label), m, body, pem_footer(label));
            lemma_b64_no_nl(d);
            lemma_strip_nl_lines(b64_of(d));
        }
    }
}

} // verus!
