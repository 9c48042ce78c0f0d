//! The claim registry: its errors, events, abstract model and operations.

use vstd::prelude::*;
use crate::store::{AccountId, BlockNumber, OwnershipRecord, Proofs, Registry};

verus! {

/// The origin of a request, as resolved by the host's authenticator.
#[derive(Clone, Copy, Debug, PartialEq, Eq, Structural)]
pub enum Origin {
    /// A request signed by the given account.
    Signed(AccountId),
    /// A privileged request with no account behind it.
    Root,
    /// A request that carries no signature.
    Unsigned,
}

/// Why a transition was refused. The registry is unchanged whenever one
/// is returned.
#[derive(Clone, Copy, Debug, PartialEq, Eq, Structural)]
pub enum Error {
    /// The origin is not a signed account.
    Unauthenticated,
    /// The claim already has an owner.
    ProofAlreadyExist,
    /// The claim has no owner.
    ClaimNotExist,
    /// The caller does not own the claim.
    NotClaimOwner,
    /// The destination already owns the claim.
    DestinationIsClaimOwner,
}

/// A notification deposited on each successful transition.
#[derive(Clone, Debug, PartialEq, Eq)]
pub enum Event {
    /// `(owner, claim)`
    ClaimCreated(AccountId, Vec<u8>),
    /// `(owner, claim)`
    ClaimRevoked(AccountId, Vec<u8>),
    /// `(previous_owner, new_owner, claim)`
    ClaimMoved(AccountId, AccountId, Vec<u8>),
}

/// Resolves the account behind a signed origin.
pub fn ensure_signed(origin: Origin) -> (r: Result<AccountId, Error>)
    ensures
        match origin {
            Origin::Signed(who) => r == Ok::<AccountId, Error>(who),
            _ => r == Err::<AccountId, Error>(Error::Unauthenticated),
        },
{
    match origin {
        Origin::Signed(who) => Ok(who),
        _ => Err(Error::Unauthenticated),
    }
}

/// The outcome of creating `claim` from `origin` on registry `m`.
pub open spec fn create_result(m: Registry, origin: Origin, claim: Seq<u8>) -> Result<(), Error> {
    match origin {
        Origin::Signed(_) => if m.contains_key(claim) {
            Err(Error::ProofAlreadyExist)
        } else {
            Ok(())
        },
        _ => Err(Error::Unauthenticated),
    }
}

/// The registry after creating `claim` from `origin` at time `now`.
pub open spec fn after_create(m: Registry, origin: Origin, claim: Seq<u8>, now: BlockNumber) -> Registry {
    if create_result(m, origin, claim) is Ok {
        m.insert(claim, OwnershipRecord { owner: origin->Signed_0, registered_at: now })
    } else {
        m
    }
}

/// The outcome of revoking `claim` from `origin` on registry `m`.
pub open spec fn revoke_result(m: Registry, origin: Origin, claim: Seq<u8>) -> Result<(), Error> {
    match origin {
        Origin::Signed(who) => if !m.contains_key(claim) {
            Err(Error::ClaimNotExist)
        } else if m[claim].owner != who {
            Err(Error::NotClaimOwner)
        } else {
            Ok(())
        },
        _ => Err(Error::Unauthenticated),
    }
}

/// The registry after revoking `claim` from `origin`.
pub open spec fn after_revoke(m: Registry, origin: Origin, claim: Seq<u8>) -> Registry {
    if revoke_result(m, origin, claim) is Ok {
        m.remove(claim)
    } else {
        m
    }
}

/// The outcome of moving `claim` from `origin` to `dest` on registry `m`.
pub open spec fn move_result(m: Registry, origin: Origin, dest: AccountId, claim: Seq<u8>) -> Result<(), Error> {
    match origin {
        Origin::Signed(who) => if !m.contains_key(claim) {
            Err(Error::ClaimNotExist)
        } else if m[claim].owner != who {
            Err(Error::NotClaimOwner)
        } else if dest == who {
            Err(Error::DestinationIsClaimOwner)
        } else {
            Ok(())
        },
        _ => Err(Error::Unauthenticated),
    }
}

/// The registry after moving `claim` from `origin` to `dest` at time `now`.
pub open spec fn after_move(
    m: Registry,
    origin: Origin,
    dest: AccountId,
    claim: Seq<u8>,
    now: BlockNumber,
) -> Registry {
    if move_result(m, origin, dest, claim) is Ok {
        m.insert(claim, OwnershipRecord { owner: dest, registered_at: now })
    } else {
        m
    }
}

/// The claim registry: the sole reader and writer of the claim map, with
/// the log of events it has deposited.
pub struct Pallet {
    proofs: Proofs,
    events: Vec<Event>,
}

impl View for Pallet {
    type V = Registry;

    closed spec fn view(&self) -> Registry {
        self.proofs@
    }
}

impl Pallet {
    /// The storage is well formed.
    pub closed spec fn wf(&self) -> bool {
        self.proofs.wf()
    }

    /// The events deposited so far, oldest first.
    pub closed spec fn deposited(&self) -> Seq<Event> {
        self.events@
    }

    /// A registry with no claims and no events.
    pub fn new() -> (r: Pallet)
        ensures
            r.wf(),
            r@ == Map::<Seq<u8>, OwnershipRecord>::empty(),
            r.deposited() == Seq::<Event>::empty(),
    {
        Pallet { proofs: Proofs::new(), events: Vec::new() }
    }

    /// The record of `claim`, if it has an owner.
    pub fn proofs(&self, claim: &Vec<u8>) -> (r: Option<OwnershipRecord>)
        requires
            self.wf(),
        ensures
            r == (if self@.contains_key(claim@) {
                Some(self@[claim@])
            } else {
                None::<OwnershipRecord>
            }),
    {
        self.proofs.get(claim)
    }

    /// The events deposited so far, oldest first.
    pub fn events(&self) -> (r: &Vec<Event>)
        ensures
            r@ == self.deposited(),
    {
        &self.events
    }

    fn deposit_event(&mut self, event: Event)
        ensures
            final(self).proofs == old(self).proofs,
            final(self).deposited() == old(self).deposited().push(event),
    {
        self.events.push(event);
    }

    /// Registers `claim` as owned by the signer of `origin` since `now`.
    ///
    /// Fails with `Unauthenticated` for an unsigned origin and with
    /// `ProofAlreadyExist` when the claim already has an owner.
    pub fn create_claim(&mut self, origin: Origin, claim: Vec<u8>, now: BlockNumber) -> (r: Result<(), Error>)
        requires
            old(self).wf(),
        ensures
            final(self).wf(),
            r == create_result(old(self)@, origin, claim@),
            final(self)@ == after_create(old(self)@, origin, claim@, now),
            final(self).deposited() == (if r is Ok {
                old(self).deposited().push(Event::ClaimCreated(origin->Signed_0, claim))
            } else {
                old(self).deposited()
            }),
    {
        let sender = match ensure_signed(origin) {
            Ok(who) => who,
            Err(e) => return Err(e),
        };
        if self.proofs.contains_key(&claim) {
            return Err(Error::ProofAlreadyExist);
        }
        let key = claim.clone();
        assert(key@ =~= claim@);
        self.proofs.insert(key, OwnershipRecord { owner: sender, registered_at: now });
        self.deposit_event(Event::ClaimCreated(sender, claim));
        Ok(())
    }

    /// Gives up the signer's ownership of `claim`.
    ///
    /// Fails with `Unauthenticated` for an unsigned origin, with
    /// `ClaimNotExist` when the claim has no owner and with `NotClaimOwner`
    /// when someone else owns it.
    pub fn revoke_claim(&mut self, origin: Origin, claim: Vec<u8>) -> (r: Result<(), Error>)
        requires
            old(self).wf(),
        ensures
            final(self).wf(),
            r == revoke_result(old(self)@, origin, claim@),
            final(self)@ == after_revoke(old(self)@, origin, claim@),
            final(self).deposited() == (if r is Ok {
                old(self).deposited().push(Event::ClaimRevoked(origin->Signed_0, claim))
            } else {
                old(self).deposited()
            }),
    {
        let sender = match ensure_signed(origin) {
            Ok(who) => who,
            Err(e) => return Err(e),
        };
        let record = match self.proofs.get(&claim) {
            Some(rec) => rec,
            None => return Err(Error::ClaimNotExist),
        };
        if record.owner != sender {
            return Err(Error::NotClaimOwner);
        }
        self.proofs.remove(&claim);
        self.deposit_event(Event::ClaimRevoked(sender, claim));
        Ok(())
    }

    /// Hands `claim` from the signer to `destination`, stamped with `now`.
    ///
    /// Fails with `Unauthenticated` for an unsigned origin, with
    /// `ClaimNotExist` when the claim has no owner, with `NotClaimOwner`
    /// when someone else owns it and with `DestinationIsClaimOwner` when
    /// the destination is the signer.
    pub fn move_claim(
        &mut self,
        origin: Origin,
        destination: AccountId,
        claim: Vec<u8>,
        now: BlockNumber,
    ) -> (r: Result<(), Error>)
        requires
            old(self).wf(),
        ensures
            final(self).wf(),
            r == move_result(old(self)@, origin, destination, claim@),
            final(self)@ == after_move(old(self)@, origin, destination, claim@, now),
            final(self).deposited() == (if r is Ok {
                old(self).deposited().push(Event::ClaimMoved(origin->Signed_0, destination, claim))
            } else {
                old(self).deposited()
            }),
    {
        let sender = match ensure_signed(origin) {
            Ok(who) => who,
            Err(e) => return Err(e),
        };
        let record = match self.proofs.get(&claim) {
            Some(rec) => rec,
            None => return Err(Error::ClaimNotExist),
        };
        if record.owner != sender {
            return Err(Error::NotClaimOwner);
        }
        if record.owner == destination {
            return Err(Error::DestinationIsClaimOwner);
        }
        let key = claim.clone();
        assert(key@ =~= claim@);
        self.proofs.remove(&claim);
        self.proofs.insert(key, OwnershipRecord { owner: destination, registered_at: now });
        self.deposit_event(Event::ClaimMoved(sender, destination, claim));
        Ok(())
    }
}

} // verus!
