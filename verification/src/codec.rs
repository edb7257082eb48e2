//! The obfuscation codec: a stateless, reversible repeating-key XOR
//! transform over byte sequences.

use vstd::prelude::*;

verus! {

/// Byte `i` of the transform is `data[i] ^ key[i % key.len()]`: the key is
/// cycled over the data, so the output length always equals the input length.
pub open spec fn xor_bytes(data: Seq<u8>, key: Seq<u8>) -> Seq<u8>
    recommends
        key.len() > 0,
{
    Seq::new(data.len(), |i: int| data[i] ^ key[i % (key.len() as int)])
}

/// Applies the repeating-key XOR transform to `s`.
///
/// The key must be non-empty; an empty key is rejected at configuration
/// time, before any packet reaches the codec.
pub fn xor(s: Vec<u8>, key: &[u8]) -> (r: Vec<u8>)
    requires
        key@.len() > 0,
    ensures
        r@ == xor_bytes(s@, key@),
        r@.len() == s@.len(),
{
    let mut out: Vec<u8> = Vec::new();
    let mut i: usize = 0;
    while i < s.len()
        invariant
            key@.len() > 0,
            i <= s@.len(),
            out@.len() == i,
            forall|j: int| 0 <= j < i ==> out@[j] == (s@[j] ^ key@[j % (key@.len() as int)]),
        decreases s@.len() - i,
    {
        let k: usize = i % key.len();
        out.push(s[i] ^ key[k]);
        i += 1;
    }
    proof {
        assert(out@ =~= xor_bytes(s@, key@));
    }
    out
}

/// Law: the transform is an involution. For any non-empty key and any data,
/// applying it twice with the same key reproduces the data exactly.
pub proof fn lemma_xor_involution(data: Seq<u8>, key: Seq<u8>)
    requires
        key.len() > 0,
    ensures
        xor_bytes(xor_bytes(data, key), key) == data,
{
    let once = xor_bytes(data, key);
    assert forall|i: int| 0 <= i < data.len() implies xor_bytes(once, key)[i] == data[i] by {
        let b = data[i];
        let k = key[i % (key.len() as int)];
        assert((b ^ k) ^ k == b) by (bit_vector);
    }
    assert(xor_bytes(once, key) =~= data);
}

/// Law: key cycling. Byte `i` of the transform depends only on `data[i]` and
/// `key[i % key.len()]`.
pub proof fn lemma_key_cycling(data: Seq<u8>, key: Seq<u8>, i: int)
    requires
        key.len() > 0,
        0 <= i < data.len(),
    ensures
        xor_bytes(data, key)[i] == (data[i] ^ key[i % (key.len() as int)]),
{
}

} // verus!
