//! Party identifiers.

use vstd::prelude::*;
use vstd::std_specs::cmp::PartialEqSpecImpl;

verus! {

/// An opaque, fixed-width identity key naming one party of a stream.
///
/// A key carries no structure of its own: any 32 bytes name some party, and
/// two keys name the same party exactly when all their bytes agree.
#[derive(Clone, Copy, Debug)]
pub struct PartyId {
    pub bytes: [u8; 32],
}

impl View for PartyId {
    type V = Seq<u8>;

    open spec fn view(&self) -> Seq<u8> {
        self.bytes@
    }
}

impl PartialEq for PartyId {
    fn eq(&self, other: &PartyId) -> (same: bool) {
        let mut i: usize = 0;
        while i < 32
            invariant
                i <= 32,
                forall|j: int| 0 <= j < i ==> self.bytes@[j] == other.bytes@[j],
            decreases 32 - i,
        {
            if self.bytes[i] != other.bytes[i] {
                return false;
            }
            i += 1;
        }
        assert(self.bytes@ =~= other.bytes@);
        true
    }
}

impl Eq for PartyId {}

impl PartialEqSpecImpl for PartyId {
    open spec fn obeys_eq_spec() -> bool {
        true
    }

    open spec fn eq_spec(&self, other: &PartyId) -> bool {
        self@ == other@
    }
}

} // verus!
