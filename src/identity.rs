use vstd::prelude::*;

verus! {

/// The 32-byte public key that identifies an account on the ledger.
#[derive(Clone, Copy, Debug)]
pub struct Identity {
    pub key: [u8; 32],
}

impl Identity {
    /// Builds an identity from the bytes of a public key.
    pub fn new(key: [u8; 32]) -> (r: Identity)
        ensures
            r.key == key,
    {
        Identity { key }
    }
}

impl PartialEq for Identity {
    /// Two identities are equal when their keys hold the same bytes.
    fn eq(&self, other: &Identity) -> (r: bool)
        ensures
            r == (self.key == other.key),
    {
        let mut i: usize = 0;
        while i < 32
            invariant
                0 <= i <= 32,
                forall|j: int| 0 <= j < i ==> self.key[j] == other.key[j],
            decreases 32 - i,
        {
            if self.key[i] != other.key[i] {
                return false;
            }
            i = i + 1;
        }
        proof {
            assert(self.key =~= other.key);
        }
        true
    }
}

impl vstd::std_specs::cmp::PartialEqSpecImpl for Identity {
    open spec fn obeys_eq_spec() -> bool {
        true
    }

    open spec fn eq_spec(&self, other: &Identity) -> bool {
        self.key == other.key
    }
}

} // verus!
