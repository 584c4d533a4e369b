use bitcoin::hashes::sha256;
use bitcoin::secp256k1::{PublicKey, Scalar, Secp256k1, SecretKey};

use sp_wallet_core::error::WalletError;
use sp_wallet_core::sp_outputs::sp_output_keys;

fn digest(d: &[u8]) -> [u8; 32] {
    bitcoin::hashes::Hash::to_byte_array(<sha256::Hash as bitcoin::hashes::Hash>::hash(d))
}

fn key(b: u8) -> SecretKey {
    SecretKey::from_slice(&[b; 32]).unwrap()
}

fn expected(partial: [u8; 32], scan: &PublicKey, spend: &PublicKey, k: u32) -> Vec<u8> {
    let secp = Secp256k1::new();
    let ecdh = scan.mul_tweak(&secp, &Scalar::from_be_bytes(partial).unwrap()).unwrap();
    let tag = digest(b"BIP0352/SharedSecret");
    let mut msg = Vec::new();
    msg.extend_from_slice(&tag);
    msg.extend_from_slice(&tag);
    msg.extend_from_slice(&ecdh.serialize());
    msg.extend_from_slice(&k.to_be_bytes());
    let t = digest(&msg);
    spend.add_exp_tweak(&secp, &Scalar::from_be_bytes(t).unwrap()).unwrap().serialize().to_vec()
}

#[test]
fn one_time_keys_follow_the_counter() {
    let secp = Secp256k1::new();
    let scan = PublicKey::from_secret_key(&secp, &key(3));
    let spend = PublicKey::from_secret_key(&secp, &key(5));
    let partial = [7u8; 32];
    let keys = sp_output_keys(&partial, &scan.serialize().to_vec(), &spend.serialize().to_vec(), 3).unwrap();
    assert_eq!(keys.len(), 3);
    for k in 0..3u32 {
        assert_eq!(keys[k as usize], expected(partial, &scan, &spend, k));
    }
    assert_ne!(keys[0], keys[1]);
    let again = sp_output_keys(&partial, &scan.serialize().to_vec(), &spend.serialize().to_vec(), 3).unwrap();
    assert_eq!(keys, again);
    assert_eq!(sp_output_keys(&partial, &scan.serialize().to_vec(), &spend.serialize().to_vec(), 0).unwrap().len(), 0);
}

#[test]
fn unusable_secret_or_key_is_a_tweak_error() {
    let secp = Secp256k1::new();
    let scan = PublicKey::from_secret_key(&secp, &key(3)).serialize().to_vec();
    let spend = PublicKey::from_secret_key(&secp, &key(5)).serialize().to_vec();
    assert_eq!(sp_output_keys(&[0u8; 32], &scan, &spend, 1), Err(WalletError::TweakError));
    assert_eq!(sp_output_keys(&[7u8; 32], &vec![1, 2, 3], &spend, 1), Err(WalletError::TweakError));
    assert_eq!(sp_output_keys(&[7u8; 32], &scan, &vec![9; 33], 1), Err(WalletError::TweakError));
}
