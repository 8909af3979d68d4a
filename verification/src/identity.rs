use vstd::array::spec_array_fill_for_copy_type;
use vstd::prelude::*;

verus! {

/// The public identifier of a participant: 32 bytes, compared byte for byte.
#[derive(Clone, Copy, Debug)]
pub struct Identity {
    pub bytes: [u8; 32],
}

impl View for Identity {
    type V = Seq<u8>;

    open spec fn view(&self) -> Seq<u8> {
        self.bytes@
    }
}

impl PartialEq for Identity {
    fn eq(&self, other: &Identity) -> (same: bool) {
        let mut i: usize = 0;
        while i < 32
            invariant
                i <= 32,
                forall|j: int| 0 <= j < i ==> self.bytes[j] == other.bytes[j],
            decreases 32 - i,
        {
            if self.bytes[i] != other.bytes[i] {
                return false;
            }
            i += 1;
        }
        proof {
            assert(self.bytes =~= other.bytes);
        }
        true
    }
}

impl Eq for Identity {

}

impl vstd::std_specs::cmp::PartialEqSpecImpl for Identity {
    open spec fn obeys_eq_spec() -> bool {
        true
    }

    open spec fn eq_spec(&self, other: &Identity) -> bool {
        *self == *other
    }
}

impl Identity {
    /// The identity that stands for "nobody": all bytes zero.
    pub open spec fn unset() -> Identity {
        Identity { bytes: spec_array_fill_for_copy_type::<u8, 32>(0u8) }
    }
}

impl Default for Identity {
    fn default() -> (id: Identity)
        ensures
            id == Identity::unset(),
            forall|i: int| 0 <= i < 32 ==> id@[i] == 0,
    {
        Identity { bytes: [0u8; 32] }
    }
}

} // verus!
