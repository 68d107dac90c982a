use poe::errors::Error;
use poe::events::Event;
use poe::registry::Pallet;
use poe::types::Config;

const CLAIM_HASH: &str = "claim hash";
const TEST_SENDER: u64 = 1;
const TEST_RECEIVER: u64 = 3;

fn new_test_pallet() -> Pallet {
    Pallet::new(Config { max_proof_size: 10 })
}

#[test]
fn create_claim_test() {
    let mut poe = new_test_pallet();
    let hash = CLAIM_HASH.as_bytes().to_vec();
    let sender = TEST_SENDER;
    let created = poe.create_claim(sender, hash.clone());
    assert!(created.is_ok());

    assert_eq!(poe.proof_by_id(&hash), Some((sender, poe.block_number())));

    // Event is raised
    assert_eq!(created.unwrap(), Event::ClaimCreated(sender, hash.clone()));
}

#[test]
fn create_claim_test_with_large_hash() {
    let mut poe = new_test_pallet();
    let hash = "larger claim hash";
    assert_eq!(
        poe.create_claim(1, hash.as_bytes().to_vec()),
        Err(Error::ProofOutOfMaxSize),
    );
}

#[test]
fn recreate_claim_test() {
    let mut poe = new_test_pallet();
    let hash = CLAIM_HASH.as_bytes().to_vec();
    let sender = TEST_SENDER;
    assert!(poe.create_claim(sender, hash.clone()).is_ok());
    assert_eq!(
        poe.create_claim(sender, hash.clone()),
        Err(Error::ProofAlreadyClaimed),
    );
}

#[test]
fn revoke_claim_test() {
    let mut poe = new_test_pallet();
    let hash = CLAIM_HASH.as_bytes().to_vec();
    let invalid_sender = 2;
    let sender = TEST_SENDER;
    assert_eq!(
        poe.revoke_claim(sender, hash.clone()),
        Err(Error::NoSuchProof),
    );
    assert!(poe.create_claim(sender, hash.clone()).is_ok());
    assert_eq!(
        poe.revoke_claim(invalid_sender, hash.clone()),
        Err(Error::NotProofOfOwner),
    );
    let revoked = poe.revoke_claim(sender, hash.clone());
    assert!(revoked.is_ok());
    assert_eq!(poe.contains_key(&hash), false);
    assert_eq!(revoked.unwrap(), Event::ClaimRevoked(sender, hash.clone()));
}

#[test]
fn transfer_test() {
    let mut poe = new_test_pallet();
    let hash = CLAIM_HASH.as_bytes().to_vec();
    let sender = TEST_SENDER;
    let receiver = TEST_RECEIVER;

    assert_eq!(
        poe.revoke_claim(sender, hash.clone()),
        Err(Error::NoSuchProof),
    );
    assert!(poe.create_claim(sender, hash.clone()).is_ok());
    assert_eq!(
        poe.revoke_claim(receiver, hash.clone()),
        Err(Error::NotProofOfOwner),
    );

    let transferred = poe.transfer(sender, hash.clone(), receiver);
    assert!(transferred.is_ok());
    assert_eq!(
        transferred.unwrap(),
        Event::ClaimTransfered(sender, receiver, hash.clone()),
    );

    assert_eq!(
        poe.revoke_claim(sender, hash.clone()),
        Err(Error::NotProofOfOwner),
    );
    assert!(poe.revoke_claim(receiver, hash.clone()).is_ok());
}
