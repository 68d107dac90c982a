use poe::errors::Error;
use poe::events::Event;
use poe::registry::Pallet;
use poe::types::Config;

#[test]
fn empty_proof_registers() {
    let mut poe = Pallet::new(Config { max_proof_size: 10 });
    let empty: Vec<u8> = Vec::new();
    assert!(poe.create_claim(1, empty.clone()).is_ok());
    assert_eq!(poe.proof_by_id(&empty), Some((1, 0)));
}

#[test]
fn zero_max_size_rejects_any_byte() {
    let mut poe = Pallet::new(Config { max_proof_size: 0 });
    assert!(poe.create_claim(1, Vec::new()).is_ok());
    assert_eq!(poe.create_claim(1, vec![7]), Err(Error::ProofOutOfMaxSize));
    assert_eq!(poe.contains_key(&vec![7]), false);
}

#[test]
fn claim_records_block_number_at_call_time() {
    let mut poe = Pallet::new(Config { max_proof_size: 10 });
    poe.set_block_number(7);
    let hash = vec![1, 2, 3];
    assert!(poe.create_claim(4, hash.clone()).is_ok());
    assert_eq!(poe.proof_by_id(&hash), Some((4, 7)));
}

#[test]
fn failed_create_leaves_registry_unchanged() {
    let mut poe = Pallet::new(Config { max_proof_size: 4 });
    let first = vec![1, 2];
    assert!(poe.create_claim(1, first.clone()).is_ok());
    let oversize = vec![9; 5];
    assert_eq!(poe.create_claim(2, oversize.clone()), Err(Error::ProofOutOfMaxSize));
    assert_eq!(poe.contains_key(&oversize), false);
    assert_eq!(poe.proof_by_id(&first), Some((1, 0)));
    assert_eq!(
        poe.create_claim(2, first.clone()),
        Err(Error::ProofAlreadyClaimed),
    );
    assert_eq!(poe.proof_by_id(&first), Some((1, 0)));
}

#[test]
fn transfer_on_missing_proof_fails() {
    let mut poe = Pallet::new(Config { max_proof_size: 10 });
    assert_eq!(poe.transfer(1, vec![5], 2), Err(Error::NoSuchProof));
}

#[test]
fn transfer_by_non_owner_fails() {
    let mut poe = Pallet::new(Config { max_proof_size: 10 });
    let hash = vec![5, 6];
    assert!(poe.create_claim(1, hash.clone()).is_ok());
    assert_eq!(poe.transfer(2, hash.clone(), 3), Err(Error::NotProofOfOwner));
    assert_eq!(poe.proof_by_id(&hash), Some((1, 0)));
}

#[test]
fn transfer_keeps_registration_height() {
    let mut poe = Pallet::new(Config { max_proof_size: 10 });
    poe.set_block_number(5);
    let hash = vec![1];
    assert!(poe.create_claim(1, hash.clone()).is_ok());
    poe.set_block_number(9);
    assert!(poe.transfer(1, hash.clone(), 2).is_ok());
    assert_eq!(poe.proof_by_id(&hash), Some((2, 5)));
}

#[test]
fn transfer_to_self_succeeds() {
    let mut poe = Pallet::new(Config { max_proof_size: 10 });
    let hash = vec![8];
    assert!(poe.create_claim(1, hash.clone()).is_ok());
    let transferred = poe.transfer(1, hash.clone(), 1);
    assert_eq!(transferred, Ok(Event::ClaimTransfered(1, 1, hash.clone())));
    assert_eq!(poe.proof_by_id(&hash), Some((1, 0)));
    assert!(poe.revoke_claim(1, hash.clone()).is_ok());
}

#[test]
fn recreate_after_revoke_succeeds() {
    let mut poe = Pallet::new(Config { max_proof_size: 10 });
    let hash = vec![2, 4];
    assert!(poe.create_claim(1, hash.clone()).is_ok());
    assert!(poe.revoke_claim(1, hash.clone()).is_ok());
    assert_eq!(poe.revoke_claim(1, hash.clone()), Err(Error::NoSuchProof));
    poe.set_block_number(3);
    assert!(poe.create_claim(6, hash.clone()).is_ok());
    assert_eq!(poe.proof_by_id(&hash), Some((6, 3)));
}

#[test]
fn bounded_registry_scenario() {
    let mut poe = Pallet::new(Config { max_proof_size: 10 });
    let account_a = 1;
    let account_b = 2;
    let hash = "claim hash".as_bytes().to_vec();
    assert_eq!(hash.len(), 10);
    assert!(poe.create_claim(account_a, hash.clone()).is_ok());

    let large = "larger claim hash".as_bytes().to_vec();
    assert_eq!(
        poe.create_claim(account_b, large.clone()),
        Err(Error::ProofOutOfMaxSize),
    );

    assert!(poe.transfer(account_a, hash.clone(), account_b).is_ok());
    assert_eq!(
        poe.revoke_claim(account_a, hash.clone()),
        Err(Error::NotProofOfOwner),
    );
    assert!(poe.revoke_claim(account_b, hash.clone()).is_ok());
    assert_eq!(poe.contains_key(&hash), false);
}
