//! The full provisioning story: predict an address, deploy to it, hand the
//! owner key to the new instance, then authorize an operation with a real
//! ed25519 signature.

use ed25519_dalek::Signer;
use ed25519_dalek::SigningKey;
use smart_account::AccountFactory;
use smart_account::Error;
use smart_account::SimpleAccount;

#[test]
fn provision_then_authorize() {
    let sk = SigningKey::from_bytes(&[42u8; 32]);
    let owner: Vec<u8> = sk.verifying_key().to_bytes().to_vec();

    let mut factory = AccountFactory::__constructor(vec![0xAAu8; 32], vec![0xBBu8; 32]);
    let predicted = factory.get_address(&owner);
    let created = factory.create(&owner).unwrap();
    assert_eq!(created, predicted);

    // The environment instantiates the account object at the new address,
    // passing the owner key as its single initialization argument.
    let mut account = SimpleAccount::new();
    assert_eq!(account.__constructor(owner), Ok(()));

    let payload: Vec<u8> = <sha2::Sha256 as sha2::Digest>::digest(b"transfer:100").to_vec();
    let signature: Vec<u8> = sk.sign(&payload).to_bytes().to_vec();
    let ctx: Vec<Vec<u8>> = vec![b"transfer".to_vec()];
    assert_eq!(account.__check_auth(&payload, &signature, &ctx), Ok(()));

    // A second deployment for the same key is refused; the factory is intact.
    assert_eq!(factory.create(&predicted_owner(&sk)), Err(Error::AlreadyDeployed));
    assert_eq!(factory.wasm_hash(), vec![0xBBu8; 32]);
}

fn predicted_owner(sk: &SigningKey) -> Vec<u8> {
    sk.verifying_key().to_bytes().to_vec()
}
