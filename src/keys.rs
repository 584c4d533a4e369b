use vstd::prelude::*;

use crate::error::WalletError;

verus! {

/// The secret key that BIP32 derives at `path` below the master key of
/// `seed`, as 32 bytes; `None` where the path does not parse or a step of
/// the derivation fails.
pub uninterp spec fn bip32_secret(seed: Seq<u8>, path: Seq<char>) -> Option<Seq<u8>>;

/// Whether bip39's parser reads the text as a mnemonic phrase.
pub uninterp spec fn is_mnemonic_text(s: Seq<char>) -> bool;

/// The 64-byte seed that BIP39 stretches from a mnemonic and a passphrase.
pub uninterp spec fn mnemonic_seed(words: Seq<char>, passphrase: Seq<char>) -> Seq<u8>;

/// Relies on bitcoin's `DerivationPath::from_str`, `Xpriv::new_master` and
/// `Xpriv::derive_priv`: the secret key at `path` below the master key of
/// `seed`. The network given to `new_master` only labels the extended key;
/// the secret depends on the seed and the path alone.
#[verifier::external_body]
fn derive_secret(seed: &Vec<u8>, path: &str) -> (r: Option<[u8; 32]>)
    requires
        exists|t: bool| path@ == scan_path(t) || path@ == spend_path(t),
    ensures
        match r {
            Some(k) => bip32_secret(seed@, path@) == Some(k@),
            None => bip32_secret(seed@, path@) is None,
        },
{
    let path = path.parse::<bitcoin::bip32::DerivationPath>().ok()?;
    let master = bitcoin::bip32::Xpriv::new_master(bitcoin::Network::Bitcoin, seed).ok()?;
    let secp = bitcoin::secp256k1::Secp256k1::signing_only();
    master.derive_priv(&secp, &path).ok().map(|x| x.private_key.secret_bytes())
}

/// Relies on bip39's `Mnemonic::from_str` and `Mnemonic::to_seed`: the seed
/// of a valid phrase, 64 bytes long; `None` where the phrase is invalid.
#[verifier::external_body]
pub(crate) fn seed_from_mnemonic(words: &str, passphrase: &str) -> (r: Option<Vec<u8>>)
    ensures
        match r {
            Some(s) => s@ == mnemonic_seed(words@, passphrase@) && s@.len() == 64 && is_mnemonic_text(words@),
            None => !is_mnemonic_text(words@),
        },
{
    words.parse::<bip39::Mnemonic>().ok().map(|m| m.to_seed(passphrase).to_vec())
}

/// The derivation path of the scan key: purpose 352, coin 0 on main and 1
/// elsewhere, account 0, branch 1.
pub open spec fn scan_path(is_testnet: bool) -> Seq<char> {
    if is_testnet {
        "m/352'/1'/0'/1'/0"@
    } else {
        "m/352'/0'/0'/1'/0"@
    }
}

/// The derivation path of the spend key: as the scan key's, on branch 0.
pub open spec fn spend_path(is_testnet: bool) -> Seq<char> {
    if is_testnet {
        "m/352'/1'/0'/0'/0"@
    } else {
        "m/352'/0'/0'/0'/0"@
    }
}

/// The (scan, spend) secret keys of a seed, where both derive.
pub open spec fn keys_from_seed(seed: Seq<u8>, is_testnet: bool) -> Option<(Seq<u8>, Seq<u8>)> {
    match (bip32_secret(seed, scan_path(is_testnet)), bip32_secret(seed, spend_path(is_testnet))) {
        (Some(scan), Some(spend)) => Some((scan, spend)),
        _ => None,
    }
}

/// Derives the scan and spend secret keys of a seed. Fails with
/// `ParseError` only where BIP32 cannot derive them.
pub fn derive_keys_from_seed(seed: &Vec<u8>, is_testnet: bool) -> (r: Result<([u8; 32], [u8; 32]), WalletError>)
    ensures
        match r {
            Ok((scan, spend)) => keys_from_seed(seed@, is_testnet) == Some((scan@, spend@)),
            Err(e) => e == WalletError::ParseError && keys_from_seed(seed@, is_testnet) is None,
        },
{
    let (sp, pp) = if is_testnet {
        ("m/352'/1'/0'/1'/0", "m/352'/1'/0'/0'/0")
    } else {
        ("m/352'/0'/0'/1'/0", "m/352'/0'/0'/0'/0")
    };
    let scan = derive_secret(seed, sp);
    let spend = derive_secret(seed, pp);
    match (scan, spend) {
        (Some(a), Some(b)) => Ok((a, b)),
        _ => Err(WalletError::ParseError),
    }
}

/// The seed of a mnemonic phrase under the given passphrase; `ParseError`
/// where the phrase is not a valid mnemonic.
pub fn mnemonic_to_seed(words: &str, passphrase: &str) -> (r: Result<Vec<u8>, WalletError>)
    ensures
        match r {
            Ok(s) => is_mnemonic_text(words@) && s@ == mnemonic_seed(words@, passphrase@),
            Err(e) => e == WalletError::ParseError && !is_mnemonic_text(words@),
        },
{
    match seed_from_mnemonic(words, passphrase) {
        Some(s) => Ok(s),
        None => Err(WalletError::ParseError),
    }
}

/// Key derivation is a function of the seed and the network: two
/// derivations from equal seeds on the same network give the same keys.
pub proof fn lemma_from_seed_deterministic(a: Seq<u8>, b: Seq<u8>, is_testnet: bool)
    requires
        a == b,
    ensures
        keys_from_seed(a, is_testnet) == keys_from_seed(b, is_testnet),
{
}

} // verus!
