//! Properties of the claim lifecycle, stated over the abstract model that
//! the operations' contracts use.

use vstd::prelude::*;
use crate::pallet::{
    after_create, after_move, after_revoke, create_result, move_result, revoke_result, Error,
    Origin,
};
use crate::store::{AccountId, BlockNumber, Registry};

verus! {

/// Once a signed account has created a claim, creating the same claim
/// again fails with `ProofAlreadyExist` for any signed caller, and the claim
/// still belongs to the first account.
pub proof fn lemma_claim_is_unique(
    m: Registry,
    a: AccountId,
    c: Seq<u8>,
    now: BlockNumber,
    other: AccountId,
    later: BlockNumber,
)
    requires
        create_result(m, Origin::Signed(a), c) is Ok,
    ensures
        ({
            let m1 = after_create(m, Origin::Signed(a), c, now);
            &&& create_result(m1, Origin::Signed(other), c) == Err::<(), Error>(Error::ProofAlreadyExist)
            &&& after_create(m1, Origin::Signed(other), c, later) == m1
            &&& m1.contains_key(c)
            &&& m1[c].owner == a
        }),
{
}

/// A caller that does not own a claim can neither revoke nor move it: both
/// fail with `NotClaimOwner` and leave the registry as it was.
pub proof fn lemma_only_owner_acts(
    m: Registry,
    c: Seq<u8>,
    b: AccountId,
    d: AccountId,
    now: BlockNumber,
)
    requires
        m.contains_key(c),
        m[c].owner != b,
    ensures
        revoke_result(m, Origin::Signed(b), c) == Err::<(), Error>(Error::NotClaimOwner),
        after_revoke(m, Origin::Signed(b), c) == m,
        move_result(m, Origin::Signed(b), d, c) == Err::<(), Error>(Error::NotClaimOwner),
        after_move(m, Origin::Signed(b), d, c, now) == m,
{
}

/// The owner of a claim cannot move it to itself: the move fails with
/// `DestinationIsClaimOwner` and the registry is unchanged.
pub proof fn lemma_no_self_transfer(m: Registry, c: Seq<u8>, a: AccountId, now: BlockNumber)
    requires
        m.contains_key(c),
        m[c].owner == a,
    ensures
        move_result(m, Origin::Signed(a), a, c) == Err::<(), Error>(Error::DestinationIsClaimOwner),
        after_move(m, Origin::Signed(a), a, c, now) == m,
{
}

/// Creating an unowned claim, moving it to another account and revoking it
/// from there all succeed, and leave the claim without an owner (the
/// registry is back where it started).
pub proof fn lemma_lifecycle_round_trip(
    m: Registry,
    c: Seq<u8>,
    a: AccountId,
    b: AccountId,
    t1: BlockNumber,
    t2: BlockNumber,
)
    requires
        !m.contains_key(c),
        a != b,
    ensures
        ({
            let m1 = after_create(m, Origin::Signed(a), c, t1);
            let m2 = after_move(m1, Origin::Signed(a), b, c, t2);
            let m3 = after_revoke(m2, Origin::Signed(b), c);
            &&& create_result(m, Origin::Signed(a), c) is Ok
            &&& move_result(m1, Origin::Signed(a), b, c) is Ok
            &&& revoke_result(m2, Origin::Signed(b), c) is Ok
            &&& !m3.contains_key(c)
            &&& m3 == m
        }),
{
    let m1 = after_create(m, Origin::Signed(a), c, t1);
    let m2 = after_move(m1, Origin::Signed(a), b, c, t2);
    let m3 = after_revoke(m2, Origin::Signed(b), c);
    assert(m3 =~= m);
}

/// Revoking or moving a claim that has no owner fails with `ClaimNotExist`.
pub proof fn lemma_missing_claim(m: Registry, c: Seq<u8>, a: AccountId, b: AccountId)
    requires
        !m.contains_key(c),
    ensures
        revoke_result(m, Origin::Signed(a), c) == Err::<(), Error>(Error::ClaimNotExist),
        move_result(m, Origin::Signed(a), b, c) == Err::<(), Error>(Error::ClaimNotExist),
{
}

/// A successful move stamps the record with the time of the move, whatever
/// time it held before.
pub proof fn lemma_move_refreshes_time(
    m: Registry,
    origin: Origin,
    dest: AccountId,
    c: Seq<u8>,
    now: BlockNumber,
)
    requires
        move_result(m, origin, dest, c) is Ok,
    ensures
        after_move(m, origin, dest, c, now).contains_key(c),
        after_move(m, origin, dest, c, now)[c].registered_at == now,
        after_move(m, origin, dest, c, now)[c].owner == dest,
{
}

} // verus!
