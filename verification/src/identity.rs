use vstd::bytes::*;
use vstd::prelude::*;

verus! {

/// One ledger identity: a 32-byte address, held as four 64-bit words.
/// The byte image (the view) is the little-endian bytes of `w0` through `w3`
/// in that order.
#[derive(Clone, Copy, PartialEq, Eq, Structural, Debug)]
pub struct Identity {
    pub w0: u64,
    pub w1: u64,
    pub w2: u64,
    pub w3: u64,
}

impl View for Identity {
    type V = Seq<u8>;

    open spec fn view(&self) -> Seq<u8> {
        spec_u64_to_le_bytes(self.w0) + spec_u64_to_le_bytes(self.w1) + spec_u64_to_le_bytes(
            self.w2,
        ) + spec_u64_to_le_bytes(self.w3)
    }
}

impl Identity {
    /// The null sentinel: the all-zero identity, standing wherever no party
    /// has been recorded yet.
    pub open spec fn spec_null() -> Identity {
        Identity { w0: 0, w1: 0, w2: 0, w3: 0 }
    }

    pub fn null() -> (r: Identity)
        ensures
            r == Identity::spec_null(),
    {
        Identity { w0: 0, w1: 0, w2: 0, w3: 0 }
    }

    pub open spec fn is_null(self) -> bool {
        self == Identity::spec_null()
    }

    pub proof fn lemma_view_len(self)
        ensures
            self@.len() == 32,
    {
        lemma_auto_spec_u64_to_from_le_bytes();
    }

    /// The identity's 32-byte image.
    pub fn to_bytes(&self) -> (r: Vec<u8>)
        ensures
            r@ == self@,
            r@.len() == 32,
    {
        let mut out: Vec<u8> = Vec::new();
        let mut b0 = u64_to_le_bytes(self.w0);
        out.append(&mut b0);
        let mut b1 = u64_to_le_bytes(self.w1);
        out.append(&mut b1);
        let mut b2 = u64_to_le_bytes(self.w2);
        out.append(&mut b2);
        let mut b3 = u64_to_le_bytes(self.w3);
        out.append(&mut b3);
        proof {
            assert(out@ =~= self@);
            self.lemma_view_len();
        }
        out
    }
}

} // verus!
