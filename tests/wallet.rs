use bitcoin::bech32::{Bech32m, ByteIterExt, Fe32, Fe32IterExt, Hrp};
use sp_wallet_core::error::WalletError;
use sp_wallet_core::keys::{derive_keys_from_seed, mnemonic_to_seed};
use sp_wallet_core::types::WalletType;
use sp_wallet_core::wallet::{make_identity, SpendKey, Wallet};

const WORDS: &str = "abandon abandon abandon abandon abandon abandon abandon abandon abandon abandon abandon about";
const SECRET: &str = "e8f32e723decf4051aefac8e2c93c9c5b214313817cdb01a1494b917c8436b35";
const PUBLIC: &str = "0279be667ef9dcbbac55a06295ce870b07029bfcdb2dce28d959f2815b16f81798";

#[test]
fn setup_from_mnemonic_keeps_phrase_and_birthday() {
    let w = Wallet::setup("main".to_string(), WalletType::Mnemonic(WORDS.to_string()), 840_000, false, String::new())
        .unwrap();
    assert_eq!(w.identity.label, "main");
    assert!(!w.identity.is_testnet);
    assert_eq!(w.get_mnemonic(), Some(WORDS.to_string()));
    let seed = mnemonic_to_seed(WORDS, "").unwrap();
    let (scan, spend) = derive_keys_from_seed(&seed, false).unwrap();
    assert_eq!(w.identity.scan_key, scan);
    assert!(matches!(w.identity.spend_key, SpendKey::Secret(k) if k == spend));
    let info = w.info();
    assert_eq!(info.birthday, 840_000);
    assert_eq!(info.scan_height, 840_000);
    assert_eq!(info.amount, 0);
    assert!(w.can_sign());
}

#[test]
fn setup_new_wallet_uses_fresh_words() {
    let w = Wallet::setup("fresh".to_string(), WalletType::New, 0, true, WORDS.to_string()).unwrap();
    assert_eq!(w.get_mnemonic(), Some(WORDS.to_string()));
    assert!(w.identity.is_testnet);
    let bad = Wallet::setup("fresh".to_string(), WalletType::New, 0, true, "one two".to_string());
    assert!(matches!(bad, Err(WalletError::ParseError)));
}

#[test]
fn setup_from_keys_and_watch_only() {
    let id = make_identity("keys".to_string(), WalletType::PrivateKeys(SECRET.to_string(), SECRET.to_string()), false, String::new())
        .unwrap();
    assert!(id.mnemonic.is_none());
    assert!(!id.is_testnet);
    assert_eq!(id.scan_key[0], 0xe8);
    assert_eq!(id.scan_key[31], 0x35);
    let watch = Wallet::setup("watch".to_string(), WalletType::WatchOnly(SECRET.to_string(), PUBLIC.to_string()), 5, true, String::new())
        .unwrap();
    assert!(!watch.can_sign());
    assert!(matches!(&watch.identity.spend_key, SpendKey::Public(k) if k.len() == 33 && k[0] == 0x02 && k[1] == 0x79));
    assert_eq!(watch.get_mnemonic(), None);
    let bad = make_identity("x".to_string(), WalletType::WatchOnly(SECRET.to_string(), SECRET.to_string()), true, String::new());
    assert!(matches!(bad, Err(WalletError::ParseError)));
}

fn encode(hrp: &str, data: &[u8]) -> String {
    let hrp = Hrp::parse(hrp).unwrap();
    data.iter().copied().bytes_to_fes().with_checksum::<Bech32m>(&hrp).with_witness_version(Fe32::Q).chars().collect()
}

#[test]
fn receiving_address_encodes_both_public_keys() {
    let w = Wallet::setup("watch".to_string(), WalletType::WatchOnly(SECRET.to_string(), PUBLIC.to_string()), 0, true, String::new())
        .unwrap();
    let addr = w.get_receiving_address().unwrap();
    let scan_pub = <Vec<u8> as bitcoin::hex::FromHex>::from_hex("0339a36013301597daef41fbe593a02cc513d0b55527ec2df1050e2e8ff49c85c2").unwrap();
    let spend_pub = <Vec<u8> as bitcoin::hex::FromHex>::from_hex(PUBLIC).unwrap();
    let mut data = scan_pub.clone();
    data.extend_from_slice(&spend_pub);
    assert_eq!(addr, encode("tsp", &data));
    assert!(addr.starts_with("tsp1q"));
    assert!(sp_wallet_core::spend::is_sp_address(&addr));
    assert_eq!(sp_wallet_core::address::encode_sp_address(&scan_pub, &spend_pub, false), encode("sp", &data));
}
