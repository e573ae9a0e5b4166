//! PKCS#7 block padding, implemented and verified in full.
//!
//! Padding always adds between 1 and 16 bytes, each holding the pad
//! length, so that unpadding is unambiguous: the last byte says how many
//! bytes to strip, and all of them must carry that value.

use vstd::prelude::*;

use crate::errors::Error;

verus! {

/// A byte string padded to the next block boundary: between 1 and 16
/// copies of the pad length itself.
pub open spec fn pkcs7_pad(s: Seq<u8>) -> Seq<u8> {
    let k = 16 - (s.len() % 16);
    s + Seq::new(k as nat, |i: int| k as u8)
}

/// The byte string a padded block string stands for, or `None` where the
/// trailing bytes are no valid pad.
pub open spec fn pkcs7_unpad(s: Seq<u8>) -> Option<Seq<u8>> {
    if s.len() == 0 || s.len() % 16 != 0 {
        None
    } else {
        let k = s[s.len() - 1] as int;
        if 1 <= k <= 16 && (forall|i: int| s.len() - k <= i < s.len() ==> s[i] == k as u8) {
            Some(s.take(s.len() - k))
        } else {
            None
        }
    }
}

/// Unpadding inverts padding: no byte string is changed by a pad/unpad
/// round trip.
pub proof fn lemma_pkcs7_round_trip(s: Seq<u8>)
    ensures
        pkcs7_unpad(pkcs7_pad(s)) == Some(s),
{
    let k = 16 - (s.len() % 16);
    let p = pkcs7_pad(s);
    assert(p.len() == s.len() + k);
    assert(p.len() % 16 == 0) by {
        assert((s.len() + (16 - (s.len() % 16))) % 16 == 0) by (nonlinear_arith);
    };
    assert(p[p.len() - 1] == k as u8);
    assert(forall|i: int| p.len() - k <= i < p.len() ==> p[i] == k as u8);
    assert(p.take(p.len() - k) =~= s);
}

/// Padding never maps two different byte strings to the same padded
/// string.
pub proof fn lemma_pkcs7_pad_injective(a: Seq<u8>, b: Seq<u8>)
    requires
        pkcs7_pad(a) == pkcs7_pad(b),
    ensures
        a == b,
{
    lemma_pkcs7_round_trip(a);
    lemma_pkcs7_round_trip(b);
}

/// Pad a byte string to the next block boundary.
pub fn pkcs7_pad_vec(input: &[u8]) -> (r: Vec<u8>)
    requires
        input@.len() + 16 <= usize::MAX,
    ensures
        r@ == pkcs7_pad(input@),
        r@.len() % 16 == 0,
        r@.len() == input@.len() + 16 - (input@.len() % 16),
{
    let len = input.len();
    let k: u8 = (16 - (len % 16)) as u8;
    let mut out = vstd::slice::slice_to_vec(input);
    let mut i: usize = 0;
    while i < k as usize
        invariant
            k == 16 - (len % 16),
            len == input@.len(),
            len + 16 <= usize::MAX,
            i <= k as usize,
            out@ == input@ + Seq::new(i as nat, |j: int| k),
        decreases k as usize - i,
    {
        out.push(k);
        proof {
            assert(input@ + Seq::new((i + 1) as nat, |j: int| k) =~= (input@ + Seq::new(
                i as nat,
                |j: int| k,
            )).push(k));
        }
        i = i + 1;
    }
    proof {
        assert((s_pad_len(input@) as u8) == k);
        assert(out@ =~= pkcs7_pad(input@));
        assert(out@.len() % 16 == 0) by {
            assert((input@.len() + (16 - (input@.len() % 16))) % 16 == 0) by (nonlinear_arith);
        };
    }
    out
}

/// The number of pad bytes appended to a byte string of this content.
spec fn s_pad_len(s: Seq<u8>) -> int {
    16 - (s.len() % 16)
}

/// Strip and check a PKCS#7 pad.
pub fn pkcs7_unpad_vec(input: &[u8]) -> (r: Result<Vec<u8>, Error>)
    ensures
        r matches Ok(v) ==> pkcs7_unpad(input@) == Some(v@),
        r is Ok <==> pkcs7_unpad(input@) is Some,
        r matches Err(e) ==> e is CryptoFailed,
{
    let len = input.len();
    if len == 0 || len % 16 != 0 {
        return Err(Error::CryptoFailed);
    }
    let k = input[len - 1];
    if k < 1 || k > 16 {
        return Err(Error::CryptoFailed);
    }
    let mut i: usize = len - (k as usize);
    let start: usize = i;
    while i < len
        invariant
            len == input@.len(),
            len % 16 == 0,
            len > 0,
            k == input@[len - 1],
            1 <= k <= 16,
            start == len - k as usize,
            start <= i <= len,
            forall|j: int| start <= j < i ==> input@[j] == k,
        decreases len - i,
    {
        if input[i] != k {
            return Err(Error::CryptoFailed);
        }
        i = i + 1;
    }
    let out = vstd::slice::slice_to_vec(vstd::slice::slice_subrange(input, 0, start));
    proof {
        assert(out@ =~= input@.take(input@.len() - k as int));
    }
    Ok(out)
}

} // verus!
