use vstd::array::spec_array_fill_for_copy_type;
use vstd::prelude::*;
use vstd::std_specs::cmp::PartialEqSpecImpl;

verus! {

/// An authenticated party or account: owner, agent, approver, consigner,
/// beneficiary, payer, an asset, or the address of a record. To this crate
/// it is 32 opaque bytes; two identities are the same when the bytes agree.
#[derive(Clone, Copy, Debug)]
pub struct Identity {
    pub bytes: [u8; 32],
}

/// Whether two 32-byte identifiers hold the same bytes.
pub fn bytes32_eq(a: &[u8; 32], b: &[u8; 32]) -> (r: bool)
    ensures
        r == (*a == *b),
{
    let mut i: usize = 0;
    while i < 32
        invariant
            i <= 32,
            forall|j: int| 0 <= j < i ==> a[j] == b[j],
        decreases 32 - i,
    {
        if a[i] != b[i] {
            return false;
        }
        i += 1;
    }
    assert(*a =~= *b);
    true
}

/// Thirty-two zero bytes: the identifier that stands for "not set".
pub open spec fn spec_zero_bytes32() -> [u8; 32] {
    spec_array_fill_for_copy_type::<u8, 32>(0u8)
}

/// Thirty-two zero bytes: the identifier that stands for "not set".
#[verifier::when_used_as_spec(spec_zero_bytes32)]
pub fn zero_bytes32() -> (r: [u8; 32])
    ensures
        r == spec_zero_bytes32(),
        forall|i: int| 0 <= i < 32 ==> r[i] == 0,
{
    [0u8; 32]
}

impl Identity {
    /// The identity made of 32 zero bytes, which stands for "nobody".
    pub open spec fn spec_zero() -> Identity {
        Identity { bytes: spec_zero_bytes32() }
    }

    /// The identity made of 32 zero bytes, which stands for "nobody".
    #[verifier::when_used_as_spec(spec_zero)]
    pub fn zero() -> (r: Identity)
        ensures
            r == Self::spec_zero(),
    {
        Identity { bytes: zero_bytes32() }
    }
}

impl PartialEq for Identity {
    fn eq(&self, other: &Self) -> (r: bool) {
        bytes32_eq(&self.bytes, &other.bytes)
    }
}

impl Eq for Identity {

}

impl PartialEqSpecImpl for Identity {
    open spec fn obeys_eq_spec() -> bool {
        true
    }

    open spec fn eq_spec(&self, other: &Self) -> bool {
        *self == *other
    }
}

} // verus!
