use vstd::prelude::*;

verus! {

/// A 32-byte account identifier.
#[derive(Clone, Copy, Debug, Eq)]
pub struct Address {
    pub bytes: [u8; 32],
}

impl PartialEq for Address {
    fn eq(&self, other: &Address) -> (r: bool) {
        let mut i: usize = 0;
        while i < 32
            invariant
                i <= 32,
                forall|k: int| 0 <= k < i ==> self.bytes@[k] == other.bytes@[k],
            decreases 32 - i,
        {
            if self.bytes[i] != other.bytes[i] {
                return false;
            }
            i += 1;
        }
        assert(self.bytes@ =~= other.bytes@);
        true
    }
}

impl vstd::std_specs::cmp::PartialEqSpecImpl for Address {
    open spec fn obeys_eq_spec() -> bool {
        true
    }

    open spec fn eq_spec(&self, other: &Address) -> bool {
        self.bytes@ == other.bytes@
    }
}

impl Address {
    /// Two addresses are one when their bytes agree.
    pub proof fn lemma_equal_by_bytes(a: Address, b: Address)
        requires
            a.bytes@ == b.bytes@,
        ensures
            a == b,
    {
        assert(a.bytes =~= b.bytes);
    }

    /// Whether two addresses are the same.
    pub fn same_as(&self, other: &Address) -> (r: bool)
        ensures
            r == (*self == *other),
    {
        let same = *self == *other;
        proof {
            if same {
                Address::lemma_equal_by_bytes(*self, *other);
            }
        }
        same
    }

    /// Whether every byte is zero, which marks a record that was never
    /// filled in.
    pub open spec fn is_zero(&self) -> bool {
        forall|i: int| 0 <= i < 32 ==> #[trigger] self.bytes@[i] == 0
    }

    /// There is only one all-zero address.
    pub proof fn lemma_zero_unique(a: Address, b: Address)
        requires
            a.is_zero(),
            b.is_zero(),
        ensures
            a == b,
    {
        assert(a.bytes =~= b.bytes);
    }

    /// The all-zero address.
    pub fn default_address() -> (r: Address)
        ensures
            r.is_zero(),
    {
        Address { bytes: [0u8; 32] }
    }

    /// Whether this is the all-zero address.
    pub fn is_default(&self) -> (r: bool)
        ensures
            r == self.is_zero(),
    {
        let zero = Address::default_address();
        let same = *self == zero;
        proof {
            if self.is_zero() {
                assert(self.bytes@ =~= zero.bytes@);
            }
            if same {
                assert forall|i: int| 0 <= i < 32 implies #[trigger] self.bytes@[i] == 0 by {
                    assert(zero.bytes@[i] == 0);
                }
            }
        }
        same
    }
}

} // verus!
