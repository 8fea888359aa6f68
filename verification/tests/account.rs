use ed25519_dalek::Signer;
use ed25519_dalek::SigningKey;
use smart_account::DataKey;
use smart_account::Error;
use smart_account::SimpleAccount;

fn signing_key(fill: u8) -> SigningKey {
    SigningKey::from_bytes(&[fill; 32])
}

fn public_key(sk: &SigningKey) -> Vec<u8> {
    sk.verifying_key().to_bytes().to_vec()
}

fn digest(message: &[u8]) -> Vec<u8> {
    <sha2::Sha256 as sha2::Digest>::digest(message).to_vec()
}

fn sign(sk: &SigningKey, payload: &[u8]) -> Vec<u8> {
    sk.sign(payload).to_bytes().to_vec()
}

fn initialized_account(sk: &SigningKey) -> SimpleAccount {
    let mut account = SimpleAccount::new();
    assert_eq!(account.__constructor(public_key(sk)), Ok(()));
    account
}

fn context(entries: &[&[u8]]) -> Vec<Vec<u8>> {
    entries.iter().map(|e| e.to_vec()).collect()
}

#[test]
fn initialize_stores_the_owner() {
    let sk = signing_key(7);
    let mut account = SimpleAccount::new();
    assert!(!account.has(&DataKey::Owner));
    assert_eq!(account.__constructor(public_key(&sk)), Ok(()));
    assert!(account.has(&DataKey::Owner));
}

#[test]
fn reinitialize_fails_and_owner_is_unchanged() {
    let sk = signing_key(7);
    let other = signing_key(9);
    let mut account = initialized_account(&sk);
    assert_eq!(account.__constructor(public_key(&other)), Err(Error::OwnerAlreadySet));
    // The stored owner is still the first key: its signatures still pass.
    let payload = digest(b"transfer:100");
    let signature = sign(&sk, &payload);
    assert_eq!(account.__check_auth(&payload, &signature, &context(&[])), Ok(()));
    let foreign = sign(&other, &payload);
    assert_eq!(
        account.__check_auth(&payload, &foreign, &context(&[])),
        Err(Error::InvalidSignature)
    );
}

#[test]
fn valid_signature_is_accepted() {
    let sk = signing_key(1);
    let account = initialized_account(&sk);
    let payload = digest(b"transfer:100");
    let signature = sign(&sk, &payload);
    let ctx = context(&[b"transfer"]);
    assert_eq!(account.__check_auth(&payload, &signature, &ctx), Ok(()));
}

#[test]
fn signature_over_another_payload_is_rejected() {
    let sk = signing_key(1);
    let account = initialized_account(&sk);
    let payload = digest(b"transfer:100");
    let signature = sign(&sk, &digest(b"transfer:999"));
    let ctx = context(&[b"transfer"]);
    assert_eq!(
        account.__check_auth(&payload, &signature, &ctx),
        Err(Error::InvalidSignature)
    );
}

#[test]
fn bit_flipped_signature_is_rejected() {
    let sk = signing_key(1);
    let account = initialized_account(&sk);
    let payload = digest(b"transfer:100");
    let mut signature = sign(&sk, &payload);
    signature[17] ^= 0x01;
    assert_eq!(
        account.__check_auth(&payload, &signature, &context(&[])),
        Err(Error::InvalidSignature)
    );
}

#[test]
fn uninitialized_account_rejects_everything() {
    let sk = signing_key(1);
    let account = SimpleAccount::new();
    let payload = digest(b"transfer:100");
    let signature = sign(&sk, &payload);
    assert_eq!(
        account.__check_auth(&payload, &signature, &context(&[])),
        Err(Error::OwnerNotSet)
    );
}

#[test]
fn context_never_changes_the_verdict() {
    let sk = signing_key(1);
    let account = initialized_account(&sk);
    let payload = digest(b"transfer:100");
    let good = sign(&sk, &payload);
    let bad = sign(&sk, &digest(b"transfer:999"));
    let contexts = [
        context(&[]),
        context(&[b"transfer"]),
        context(&[b"mint", b"burn"]),
        context(&[b""]),
    ];
    for ctx in &contexts {
        assert_eq!(account.__check_auth(&payload, &good, ctx), Ok(()));
        assert_eq!(
            account.__check_auth(&payload, &bad, ctx),
            Err(Error::InvalidSignature)
        );
    }
}
