use poe::pallet::{ensure_signed, Error, Event, Origin, Pallet};
use poe::store::{bytes_equal, OwnershipRecord, Proofs};

fn record(owner: u64, registered_at: u64) -> OwnershipRecord {
    OwnershipRecord { owner, registered_at }
}

#[test]
fn create_claim_stores_owner_and_time() {
    let mut p = Pallet::new();
    let c = vec![1u8, 2, 3];
    assert_eq!(p.create_claim(Origin::Signed(1), c.clone(), 10), Ok(()));
    assert_eq!(p.proofs(&c), Some(record(1, 10)));
    assert_eq!(p.events(), &vec![Event::ClaimCreated(1, c.clone())]);
}

#[test]
fn second_create_fails_and_keeps_owner() {
    let mut p = Pallet::new();
    let c = vec![42u8];
    assert_eq!(p.create_claim(Origin::Signed(1), c.clone(), 3), Ok(()));
    assert_eq!(p.create_claim(Origin::Signed(2), c.clone(), 4), Err(Error::ProofAlreadyExist));
    assert_eq!(p.create_claim(Origin::Signed(1), c.clone(), 5), Err(Error::ProofAlreadyExist));
    assert_eq!(p.proofs(&c), Some(record(1, 3)));
    assert_eq!(p.events().len(), 1);
}

#[test]
fn unsigned_origin_is_refused() {
    let mut p = Pallet::new();
    let c = vec![7u8];
    assert_eq!(p.create_claim(Origin::Unsigned, c.clone(), 1), Err(Error::Unauthenticated));
    assert_eq!(p.create_claim(Origin::Root, c.clone(), 1), Err(Error::Unauthenticated));
    assert_eq!(p.proofs(&c), None);
    assert_eq!(p.create_claim(Origin::Signed(3), c.clone(), 1), Ok(()));
    assert_eq!(p.revoke_claim(Origin::Unsigned, c.clone()), Err(Error::Unauthenticated));
    assert_eq!(p.move_claim(Origin::Root, 4, c.clone(), 2), Err(Error::Unauthenticated));
    assert_eq!(p.proofs(&c), Some(record(3, 1)));
}

#[test]
fn non_owner_cannot_revoke_or_move() {
    let mut p = Pallet::new();
    let c = vec![9u8, 9];
    assert_eq!(p.create_claim(Origin::Signed(1), c.clone(), 2), Ok(()));
    assert_eq!(p.revoke_claim(Origin::Signed(2), c.clone()), Err(Error::NotClaimOwner));
    assert_eq!(p.move_claim(Origin::Signed(2), 3, c.clone(), 5), Err(Error::NotClaimOwner));
    assert_eq!(p.move_claim(Origin::Signed(2), 2, c.clone(), 5), Err(Error::NotClaimOwner));
    assert_eq!(p.proofs(&c), Some(record(1, 2)));
    assert_eq!(p.events().len(), 1);
}

#[test]
fn move_to_self_is_refused() {
    let mut p = Pallet::new();
    let c = vec![5u8];
    assert_eq!(p.create_claim(Origin::Signed(1), c.clone(), 2), Ok(()));
    assert_eq!(p.move_claim(Origin::Signed(1), 1, c.clone(), 8), Err(Error::DestinationIsClaimOwner));
    assert_eq!(p.proofs(&c), Some(record(1, 2)));
}

#[test]
fn create_move_revoke_round_trip() {
    let mut p = Pallet::new();
    let c = vec![1u8, 0, 1];
    assert_eq!(p.create_claim(Origin::Signed(1), c.clone(), 1), Ok(()));
    assert_eq!(p.move_claim(Origin::Signed(1), 2, c.clone(), 2), Ok(()));
    assert_eq!(p.proofs(&c), Some(record(2, 2)));
    assert_eq!(p.revoke_claim(Origin::Signed(2), c.clone()), Ok(()));
    assert_eq!(p.proofs(&c), None);
    assert_eq!(
        p.events(),
        &vec![
            Event::ClaimCreated(1, c.clone()),
            Event::ClaimMoved(1, 2, c.clone()),
            Event::ClaimRevoked(2, c.clone()),
        ]
    );
    assert_eq!(p.create_claim(Origin::Signed(3), c.clone(), 4), Ok(()));
    assert_eq!(p.proofs(&c), Some(record(3, 4)));
}

#[test]
fn missing_claim_errors() {
    let mut p = Pallet::new();
    let c = vec![3u8, 3];
    assert_eq!(p.revoke_claim(Origin::Signed(1), c.clone()), Err(Error::ClaimNotExist));
    assert_eq!(p.move_claim(Origin::Signed(1), 2, c.clone(), 1), Err(Error::ClaimNotExist));
    assert!(p.events().is_empty());
}

#[test]
fn move_refreshes_timestamp() {
    let mut p = Pallet::new();
    let c = vec![8u8];
    assert_eq!(p.create_claim(Origin::Signed(1), c.clone(), 100), Ok(()));
    assert_eq!(p.move_claim(Origin::Signed(1), 2, c.clone(), 250), Ok(()));
    assert_eq!(p.proofs(&c), Some(record(2, 250)));
    assert_eq!(p.move_claim(Origin::Signed(2), 1, c.clone(), 300), Ok(()));
    assert_eq!(p.proofs(&c), Some(record(1, 300)));
}

#[test]
fn claims_are_told_apart_by_exact_bytes() {
    let mut p = Pallet::new();
    let empty: Vec<u8> = Vec::new();
    let a = vec![1u8];
    let b = vec![1u8, 0];
    let d = vec![2u8];
    assert_eq!(p.create_claim(Origin::Signed(1), empty.clone(), 1), Ok(()));
    assert_eq!(p.create_claim(Origin::Signed(2), a.clone(), 2), Ok(()));
    assert_eq!(p.create_claim(Origin::Signed(3), b.clone(), 3), Ok(()));
    assert_eq!(p.proofs(&empty), Some(record(1, 1)));
    assert_eq!(p.proofs(&a), Some(record(2, 2)));
    assert_eq!(p.proofs(&b), Some(record(3, 3)));
    assert_eq!(p.proofs(&d), None);
    assert_eq!(p.revoke_claim(Origin::Signed(2), a.clone()), Ok(()));
    assert_eq!(p.proofs(&a), None);
    assert_eq!(p.proofs(&empty), Some(record(1, 1)));
    assert_eq!(p.proofs(&b), Some(record(3, 3)));
}

#[test]
fn ensure_signed_resolves_account() {
    assert_eq!(ensure_signed(Origin::Signed(17)), Ok(17));
    assert_eq!(ensure_signed(Origin::Root), Err(Error::Unauthenticated));
    assert_eq!(ensure_signed(Origin::Unsigned), Err(Error::Unauthenticated));
}

#[test]
fn store_insert_get_remove() {
    let mut s = Proofs::new();
    let k1 = vec![1u8, 2];
    let k2 = vec![3u8];
    let k3 = vec![4u8, 5, 6];
    s.insert(k1.clone(), record(1, 1));
    s.insert(k2.clone(), record(2, 2));
    s.insert(k3.clone(), record(3, 3));
    s.insert(k1.clone(), record(4, 4));
    assert!(s.contains_key(&k1));
    assert_eq!(s.get(&k1), Some(record(4, 4)));
    s.remove(&k1);
    assert!(!s.contains_key(&k1));
    assert_eq!(s.get(&k2), Some(record(2, 2)));
    assert_eq!(s.get(&k3), Some(record(3, 3)));
    s.remove(&k1);
    assert_eq!(s.get(&k3), Some(record(3, 3)));
}

#[test]
fn bytes_equal_compares_exactly() {
    assert!(bytes_equal(&vec![], &vec![]));
    assert!(bytes_equal(&vec![1u8, 2], &vec![1u8, 2]));
    assert!(!bytes_equal(&vec![1u8, 2], &vec![1u8, 3]));
    assert!(!bytes_equal(&vec![1u8], &vec![1u8, 0]));
}
