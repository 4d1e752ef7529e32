//! The transform that turns a protected payload into loadable class bytes.
use vstd::prelude::*;

verus! {

/// A stateless transform from protected bytes to class bytes. The result
/// depends on the input alone and may differ from it in length.
pub trait DecryptionStrategy {
    /// What the transform makes of `data`.
    spec fn plain(&self, data: Seq<u8>) -> Seq<u8>;

    fn transform(&self, data: &[u8]) -> (out: Vec<u8>)
        ensures
            out@ == self.plain(data@),
    ;
}

/// The strategy that hands the bytes back as they are.
#[derive(Clone, Copy, Debug, Default)]
pub struct Identity;

impl DecryptionStrategy for Identity {
    open spec fn plain(&self, data: Seq<u8>) -> Seq<u8> {
        data
    }

    fn transform(&self, data: &[u8]) -> (out: Vec<u8>) {
        vstd::slice::slice_to_vec(data)
    }
}

/// The strategy that combines every byte with one key byte by exclusive
/// or. Applying it twice gives the bytes back.
#[derive(Clone, Copy, Debug)]
pub struct XorCipher {
    pub key: u8,
}

impl DecryptionStrategy for XorCipher {
    open spec fn plain(&self, data: Seq<u8>) -> Seq<u8> {
        Seq::new(data.len(), |i: int| data[i] ^ self.key)
    }

    fn transform(&self, data: &[u8]) -> (out: Vec<u8>) {
        let mut out: Vec<u8> = Vec::new();
        let mut i: usize = 0;
        while i < data.len()
            invariant
                i <= data.len(),
                out@ == self.plain(data@.take(i as int)),
            decreases data.len() - i,
        {
            out.push(data[i] ^ self.key);
            i += 1;
            assert(out@ =~= self.plain(data@.take(i as int)));
        }
        assert(data@.take(i as int) == data@);
        out
    }
}

/// The exclusive-or strategy undoes itself.
pub proof fn lemma_xor_twice(cipher: XorCipher, data: Seq<u8>)
    ensures
        cipher.plain(cipher.plain(data)) == data,
{
    let key = cipher.key;
    assert forall|i: int| 0 <= i < data.len() implies cipher.plain(cipher.plain(data))[i]
        == data[i] by {
        let b = data[i];
        assert((b ^ key) ^ key == b) by (bit_vector);
    }
    assert(cipher.plain(cipher.plain(data)) =~= data);
}

} // verus!
