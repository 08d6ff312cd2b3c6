//! A linking challenge: the short-lived record that proves a linking
//! attempt's authenticity, keyed by an opaque state token, together with the
//! serialized form it is stored under in the key-value backend.

use vstd::prelude::*;

verus! {

/// One in-flight linking attempt. `state` is the opaque lookup key carried
/// through the authorization redirect; `code_verifier` is the secret used in
/// the code-exchange proof; `requester_id` is the chat identity that
/// initiated the link.
#[derive(Debug, PartialEq, Eq)]
pub struct Challenge {
    pub state: u64,
    pub requester_id: u64,
    pub code_verifier: Vec<u8>,
}

impl Challenge {
    /// The caller supplies `state` and `code_verifier` freshly drawn from a
    /// cryptographic randomness source; this core treats them as opaque.
    pub fn new(state: u64, requester_id: u64, code_verifier: Vec<u8>) -> (c: Challenge)
        ensures
            c.state == state,
            c.requester_id == requester_id,
            c.code_verifier == code_verifier,
    {
        Challenge { state, requester_id, code_verifier }
    }
}

/// The serialized form stored under the state key: the requester id in eight
/// little-endian bytes, followed by the verifier bytes.
pub open spec fn spec_encoded(requester_id: u64, verifier: Seq<u8>) -> Seq<u8> {
    vstd::bytes::spec_u64_to_le_bytes(requester_id) + verifier
}

pub fn encode_challenge(c: &Challenge) -> (v: Vec<u8>)
    ensures
        v@ == spec_encoded(c.requester_id, c.code_verifier@),
{
    let mut v = vstd::bytes::u64_to_le_bytes(c.requester_id);
    proof {
        assert(v@ + c.code_verifier@.take(0) =~= v@);
    }
    let mut i: usize = 0;
    while i < c.code_verifier.len()
        invariant
            i <= c.code_verifier.len(),
            v@ == vstd::bytes::spec_u64_to_le_bytes(c.requester_id) + c.code_verifier@.take(
                i as int,
            ),
        decreases c.code_verifier.len() - i,
    {
        v.push(c.code_verifier[i]);
        proof {
            assert(c.code_verifier@.take(i + 1) =~= c.code_verifier@.take(i as int).push(
                c.code_verifier@[i as int],
            ));
            assert(vstd::bytes::spec_u64_to_le_bytes(c.requester_id) + c.code_verifier@.take(i + 1)
                =~= (vstd::bytes::spec_u64_to_le_bytes(c.requester_id) + c.code_verifier@.take(
                i as int,
            )).push(c.code_verifier@[i as int]));
        }
        i += 1;
    }
    proof {
        assert(c.code_verifier@.take(c.code_verifier@.len() as int) =~= c.code_verifier@);
    }
    v
}

/// Parses a stored value back into the challenge for `state`. `None` exactly
/// when the value is too short to hold the requester id.
pub fn decode_challenge(state: u64, v: &Vec<u8>) -> (r: Option<Challenge>)
    ensures
        match r {
            Some(c) => {
                &&& v@.len() >= 8
                &&& c.state == state
                &&& c.requester_id == vstd::bytes::spec_u64_from_le_bytes(v@.subrange(0, 8))
                &&& c.code_verifier@ == v@.skip(8)
            },
            None => v@.len() < 8,
        },
{
    if v.len() < 8 {
        return None;
    }
    let head = vstd::slice::slice_subrange(v.as_slice(), 0, 8);
    let requester_id = vstd::bytes::u64_from_le_bytes(head);
    let mut code_verifier: Vec<u8> = Vec::new();
    proof {
        assert(code_verifier@ =~= v@.subrange(8, 8));
    }
    let mut i: usize = 8;
    while i < v.len()
        invariant
            8 <= i <= v.len(),
            code_verifier@ == v@.subrange(8, i as int),
        decreases v.len() - i,
    {
        code_verifier.push(v[i]);
        proof {
            assert(v@.subrange(8, i + 1) =~= v@.subrange(8, i as int).push(v@[i as int]));
        }
        i += 1;
    }
    proof {
        assert(code_verifier@ =~= v@.skip(8));
    }
    Some(Challenge { state, requester_id, code_verifier })
}

/// Law: decoding inverts encoding. The serialized form of any requester id
/// and verifier is long enough to parse, parses back to the same requester
/// id, and yields the same verifier bytes.
pub proof fn lemma_codec_round_trip(requester_id: u64, verifier: Seq<u8>)
    ensures
        spec_encoded(requester_id, verifier).len() >= 8,
        vstd::bytes::spec_u64_from_le_bytes(spec_encoded(requester_id, verifier).subrange(0, 8))
            == requester_id,
        spec_encoded(requester_id, verifier).skip(8) == verifier,
{
    vstd::bytes::lemma_auto_spec_u64_to_from_le_bytes();
    assert(spec_encoded(requester_id, verifier).subrange(0, 8) =~= vstd::bytes::spec_u64_to_le_bytes(
        requester_id,
    ));
    assert(spec_encoded(requester_id, verifier).skip(8) =~= verifier);
}

/// Law: encoding inverts decoding. Any stored value long enough to parse is
/// exactly the serialized form of the fields parsed out of it, so the codec
/// is a bijection between challenges and well-formed stored values.
pub proof fn lemma_codec_complete(bytes: Seq<u8>)
    requires
        bytes.len() >= 8,
    ensures
        spec_encoded(vstd::bytes::spec_u64_from_le_bytes(bytes.subrange(0, 8)), bytes.skip(8))
            == bytes,
{
    vstd::bytes::lemma_auto_spec_u64_to_from_le_bytes();
    assert(spec_encoded(vstd::bytes::spec_u64_from_le_bytes(bytes.subrange(0, 8)), bytes.skip(8))
        =~= bytes);
}

} // verus!
