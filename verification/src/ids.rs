//! Actor and message identities, held as their 32 raw bytes.

use vstd::prelude::*;

verus! {

/// The 256-bit identity of a player, of this program or of the word service.
pub type ActorId = [u8; 32];

/// The 256-bit identity of a message.
pub type MessageId = [u8; 32];

/// Whether every byte of an identity is zero.
pub open spec fn is_zero_id(id: [u8; 32]) -> bool {
    forall|i: int| 0 <= i < 32 ==> id[i] == 0u8
}

/// The all-zero identity.
pub open spec fn zero_id() -> [u8; 32] {
    vstd::array::spec_array_fill_for_copy_type::<u8, 32>(0u8)
}

/// An identity is the all-zero one exactly when each of its bytes is zero.
pub proof fn lemma_zero_id(id: [u8; 32])
    ensures
        is_zero_id(id) <==> id == zero_id(),
{
    if is_zero_id(id) {
        assert(id =~= zero_id());
    }
}

/// Builds the all-zero identity.
pub fn zero() -> (id: [u8; 32])
    ensures
        id == zero_id(),
{
    [0u8; 32]
}

/// Calls `gstd::ActorId::is_zero` on the identity made of these bytes. The
/// outside method compares the identity with the one whose 32 bytes are all
/// zero, so it answers `true` exactly when every byte is zero.
#[verifier::external_body]
pub(crate) fn actor_is_zero(id: &ActorId) -> (zero: bool)
    ensures
        zero == is_zero_id(*id),
{
    gstd::ActorId::new(*id).is_zero()
}

/// Compares two identities byte by byte.
pub fn same_id(a: &[u8; 32], b: &[u8; 32]) -> (same: bool)
    ensures
        same == (*a == *b),
{
    let mut i: usize = 0;
    while i < 32
        invariant
            i <= 32,
            forall|j: int| 0 <= j < i ==> a[j] == b[j],
        decreases 32 - i,
    {
        if a[i] != b[i] {
            return false;
        }
        i += 1;
    }
    assert(*a =~= *b);
    true
}

} // verus!
