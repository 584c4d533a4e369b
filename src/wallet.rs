use vstd::prelude::*;

use crate::error::WalletError;
use crate::keys::{derive_keys_from_seed, keys_from_seed, mnemonic_seed, mnemonic_to_seed};
use crate::outputs::OutputStore;
use crate::text::{public_key_from_text, public_key_of_text, secret_key_from_text, secret_key_of_text};
use crate::types::{WalletStatus, WalletType};

verus! {

/// The spend key: a secret (the wallet can sign) or, for a watch-only
/// wallet, the 33-byte compressed public key.
#[derive(Debug, Clone)]
pub enum SpendKey {
    Secret([u8; 32]),
    Public(Vec<u8>),
}

/// Who a wallet is: its label, its network, its keys, and the mnemonic it
/// was made from, if any.
#[derive(Debug, Clone)]
pub struct WalletIdentity {
    pub label: String,
    pub is_testnet: bool,
    pub scan_key: [u8; 32],
    pub spend_key: SpendKey,
    pub mnemonic: Option<String>,
}

/// The phrase that a wallet of kind `t` is derived from: the fresh words for
/// a new wallet, the given ones for a restored one.
pub open spec fn phrase_of(t: WalletType, fresh_words: Seq<char>) -> Seq<char> {
    match t {
        WalletType::Mnemonic(m) => m@,
        _ => fresh_words,
    }
}

/// Whether setup material of kind `t` makes a wallet.
pub open spec fn setup_ok(t: WalletType, is_testnet: bool, fresh_words: Seq<char>) -> bool {
    match t {
        WalletType::PrivateKeys(scan, spend) => secret_key_of_text(scan@) is Some && secret_key_of_text(spend@) is Some,
        WalletType::WatchOnly(scan, spend) => secret_key_of_text(scan@) is Some && public_key_of_text(spend@) is Some,
        _ => {
            &&& crate::keys::is_mnemonic_text(phrase_of(t, fresh_words))
            &&& keys_from_seed(mnemonic_seed(phrase_of(t, fresh_words), ""@), is_testnet) is Some
        },
    }
}

/// Whether `id` is the identity that setup material of kind `t` makes. A
/// wallet keeps the network asked for; one from a phrase keeps the phrase,
/// one from imported keys keeps none.
pub open spec fn identity_of(id: WalletIdentity, t: WalletType, is_testnet: bool, fresh_words: Seq<char>) -> bool {
    match t {
        WalletType::PrivateKeys(scan, spend) => {
            &&& id.is_testnet == is_testnet
            &&& id.mnemonic is None
            &&& secret_key_of_text(scan@) == Some(id.scan_key@)
            &&& id.spend_key matches SpendKey::Secret(k) && secret_key_of_text(spend@) == Some(k@)
        },
        WalletType::WatchOnly(scan, spend) => {
            &&& id.is_testnet == is_testnet
            &&& id.mnemonic is None
            &&& secret_key_of_text(scan@) == Some(id.scan_key@)
            &&& id.spend_key matches SpendKey::Public(k) && public_key_of_text(spend@) == Some(k@)
        },
        _ => {
            &&& id.is_testnet == is_testnet
            &&& id.mnemonic matches Some(m) && m@ == phrase_of(t, fresh_words)
            &&& id.spend_key matches SpendKey::Secret(k)
                && keys_from_seed(mnemonic_seed(phrase_of(t, fresh_words), ""@), is_testnet) == Some((id.scan_key@, k@))
        },
    }
}

/// Makes the identity of a wallet from its setup material. A new wallet is
/// derived from `fresh_words`, a phrase drawn by the caller. Fails with
/// `ParseError` where the phrase or a key does not parse.
pub fn make_identity(label: String, wallet_type: WalletType, is_testnet: bool, fresh_words: String) -> (r: Result<WalletIdentity, WalletError>)
    ensures
        r is Ok <==> setup_ok(wallet_type, is_testnet, fresh_words@),
        match r {
            Ok(id) => id.label == label && identity_of(id, wallet_type, is_testnet, fresh_words@),
            Err(e) => e == WalletError::ParseError,
        },
{
    match wallet_type {
        WalletType::PrivateKeys(scan, spend) => {
            let s = secret_key_from_text(scan.as_str());
            let p = secret_key_from_text(spend.as_str());
            match (s, p) {
                (Some(scan_key), Some(k)) => Ok(
                    WalletIdentity { label, is_testnet, scan_key, spend_key: SpendKey::Secret(k), mnemonic: None },
                ),
                _ => Err(WalletError::ParseError),
            }
        },
        WalletType::WatchOnly(scan, spend) => {
            let s = secret_key_from_text(scan.as_str());
            let p = public_key_from_text(spend.as_str());
            match (s, p) {
                (Some(scan_key), Some(k)) => Ok(
                    WalletIdentity { label, is_testnet, scan_key, spend_key: SpendKey::Public(k), mnemonic: None },
                ),
                _ => Err(WalletError::ParseError),
            }
        },
        WalletType::New => identity_from_phrase(label, fresh_words, is_testnet),
        WalletType::Mnemonic(m) => identity_from_phrase(label, m, is_testnet),
    }
}

fn identity_from_phrase(label: String, words: String, is_testnet: bool) -> (r: Result<WalletIdentity, WalletError>)
    ensures
        r is Ok <==> crate::keys::is_mnemonic_text(words@) && keys_from_seed(mnemonic_seed(words@, ""@), is_testnet) is Some,
        match r {
            Ok(id) => {
                &&& id.label == label
                &&& id.is_testnet == is_testnet
                &&& id.mnemonic matches Some(m) && m@ == words@
                &&& id.spend_key matches SpendKey::Secret(k)
                    && keys_from_seed(mnemonic_seed(words@, ""@), is_testnet) == Some((id.scan_key@, k@))
            },
            Err(e) => e == WalletError::ParseError,
        },
{
    let seed = match mnemonic_to_seed(words.as_str(), "") {
        Ok(s) => s,
        Err(e) => return Err(e),
    };
    match derive_keys_from_seed(&seed, is_testnet) {
        Ok((scan_key, spend)) => Ok(
            WalletIdentity { label, is_testnet, scan_key, spend_key: SpendKey::Secret(spend), mnemonic: Some(words) },
        ),
        Err(e) => Err(e),
    }
}

/// A wallet: its identity and the outputs it owns.
pub struct Wallet {
    pub identity: WalletIdentity,
    pub outputs: OutputStore,
}

impl Wallet {
    pub open spec fn wf(&self) -> bool {
        self.outputs.wf()
    }

    /// A wallet with no outputs whose scanning starts at `birthday`.
    pub fn new(identity: WalletIdentity, birthday: u32) -> (r: Wallet)
        ensures
            r.wf(),
            r.identity == identity,
            r.outputs.outputs().len() == 0,
            r.outputs.birthday_spec() == birthday,
            r.outputs.last_scan_spec() == birthday,
    {
        let mut outputs = OutputStore::new();
        outputs.set_birthday(birthday);
        outputs.update_last_scan(birthday);
        Wallet { identity, outputs }
    }

    /// Sets up a wallet from its material: its identity as `make_identity`
    /// makes it, no outputs, and scanning from `birthday` on.
    pub fn setup(label: String, wallet_type: WalletType, birthday: u32, is_testnet: bool, fresh_words: String) -> (r: Result<Wallet, WalletError>)
        ensures
            r is Ok <==> setup_ok(wallet_type, is_testnet, fresh_words@),
            match r {
                Ok(w) => {
                    &&& w.wf()
                    &&& w.identity.label == label
                    &&& identity_of(w.identity, wallet_type, is_testnet, fresh_words@)
                    &&& w.outputs.outputs().len() == 0
                    &&& w.outputs.birthday_spec() == birthday
                    &&& w.outputs.last_scan_spec() == birthday
                },
                Err(e) => e == WalletError::ParseError,
            },
    {
        match make_identity(label, wallet_type, is_testnet, fresh_words) {
            Ok(id) => Ok(Wallet::new(id, birthday)),
            Err(e) => Err(e),
        }
    }

    /// The phrase the wallet was made from; `None` for imported keys.
    pub fn get_mnemonic(&self) -> (r: Option<String>)
        ensures
            r == self.identity.mnemonic,
    {
        match &self.identity.mnemonic {
            Some(m) => Some(m.clone()),
            None => None,
        }
    }

    /// Whether the wallet holds its spend secret and so can sign.
    pub fn can_sign(&self) -> (r: bool)
        ensures
            r == self.identity.spend_key is Secret,
    {
        matches!(self.identity.spend_key, SpendKey::Secret(_))
    }

    /// The balance, the birthday and the last scanned height.
    pub fn info(&self) -> (r: WalletStatus)
        requires
            self.wf(),
        ensures
            r.amount == self.outputs.balance_spec(),
            r.birthday == self.outputs.birthday_spec(),
            r.scan_height == self.outputs.last_scan_spec(),
    {
        self.outputs.status()
    }
}

} // verus!
