use vstd::prelude::*;

use bitcoin::bech32::{ByteIterExt, Fe32IterExt};

use crate::error::WalletError;
use crate::wallet::{SpendKey, Wallet};

verus! {

/// The 33-byte compressed public key of a 32-byte secret; `None` where the
/// bytes are no valid secret key.
pub uninterp spec fn public_of_secret(k: Seq<u8>) -> Option<Seq<u8>>;

/// The bech32m text under `hrp` of version 0 followed by `data`.
pub uninterp spec fn bech32m_v0_text(hrp: Seq<char>, data: Seq<u8>) -> Seq<char>;

/// The human-readable part of silent-payment addresses on a network.
pub open spec fn sp_hrp(is_testnet: bool) -> Seq<char> {
    if is_testnet {
        "tsp"@
    } else {
        "sp"@
    }
}

/// Relies on secp256k1's `SecretKey::from_slice`, `PublicKey::from_secret_key`
/// and `PublicKey::serialize`.
#[verifier::external_body]
fn public_key_of(k: &[u8; 32]) -> (r: Option<Vec<u8>>)
    ensures
        match r {
            Some(p) => public_of_secret(k@) == Some(p@) && p@.len() == 33,
            None => public_of_secret(k@) is None,
        },
{
    let sk = bitcoin::secp256k1::SecretKey::from_slice(k).ok()?;
    let secp = bitcoin::secp256k1::Secp256k1::signing_only();
    Some(bitcoin::secp256k1::PublicKey::from_secret_key(&secp, &sk).serialize().to_vec())
}

/// Relies on bech32's `Hrp::parse`, `ByteIterExt::bytes_to_fes`,
/// `Fe32IterExt::with_checksum::<Bech32m>`, `with_witness_version` and
/// `chars`. Both parts asked for are valid, so `Hrp::parse` succeeds.
#[verifier::external_body]
fn bech32m_v0(hrp: &str, data: &Vec<u8>) -> (r: String)
    requires
        hrp@ == sp_hrp(true) || hrp@ == sp_hrp(false),
    ensures
        r@ == bech32m_v0_text(hrp@, data@),
{
    match bitcoin::bech32::Hrp::parse(hrp) {
        Ok(h) => data
            .iter()
            .copied()
            .bytes_to_fes()
            .with_checksum::<bitcoin::bech32::Bech32m>(&h)
            .with_witness_version(bitcoin::bech32::Fe32::Q)
            .chars()
            .collect(),
        Err(_) => String::new(),
    }
}

/// The silent-payment address of a scan and a spend public key.
pub open spec fn sp_address_of(scan_pub: Seq<u8>, spend_pub: Seq<u8>, is_testnet: bool) -> Seq<char> {
    bech32m_v0_text(sp_hrp(is_testnet), scan_pub + spend_pub)
}

/// Encodes a scan and a spend public key as a silent-payment address.
pub fn encode_sp_address(scan_pub: &Vec<u8>, spend_pub: &Vec<u8>, is_testnet: bool) -> (r: String)
    ensures
        r@ == sp_address_of(scan_pub@, spend_pub@, is_testnet),
{
    let mut data: Vec<u8> = Vec::new();
    let mut i: usize = 0;
    while i < scan_pub.len()
        invariant
            i <= scan_pub@.len(),
            data@ == scan_pub@.subrange(0, i as int),
        decreases scan_pub@.len() - i,
    {
        data.push(scan_pub[i]);
        proof {
            assert(scan_pub@.subrange(0, i + 1) =~= scan_pub@.subrange(0, i as int).push(scan_pub@[i as int]));
        }
        i = i + 1;
    }
    let mut j: usize = 0;
    while j < spend_pub.len()
        invariant
            i == scan_pub@.len(),
            j <= spend_pub@.len(),
            data@ == scan_pub@ + spend_pub@.subrange(0, j as int),
        decreases spend_pub@.len() - j,
    {
        data.push(spend_pub[j]);
        proof {
            assert(scan_pub@ + spend_pub@.subrange(0, j + 1) =~= (scan_pub@ + spend_pub@.subrange(0, j as int)).push(
                spend_pub@[j as int],
            ));
        }
        j = j + 1;
    }
    assert(spend_pub@.subrange(0, j as int) =~= spend_pub@);
    assert(scan_pub@.subrange(0, i as int) =~= scan_pub@);
    let hrp = if is_testnet { "tsp" } else { "sp" };
    bech32m_v0(hrp, &data)
}

/// The spend public key of a wallet: derived from its secret, or held as is.
pub open spec fn spend_public(k: SpendKey) -> Option<Seq<u8>> {
    match k {
        SpendKey::Secret(s) => public_of_secret(s@),
        SpendKey::Public(p) => Some(p@),
    }
}

impl Wallet {
    /// The wallet's silent-payment address, from its scan and spend public
    /// keys and its network. Fails with `ParseError` where a stored secret is
    /// no valid key.
    pub fn get_receiving_address(&self) -> (r: Result<String, WalletError>)
        ensures
            match (public_of_secret(self.identity.scan_key@), spend_public(self.identity.spend_key)) {
                (Some(a), Some(b)) => r matches Ok(s) && s@ == sp_address_of(a, b, self.identity.is_testnet),
                _ => r == Err::<String, WalletError>(WalletError::ParseError),
            },
    {
        let scan = match public_key_of(&self.identity.scan_key) {
            Some(p) => p,
            None => return Err(WalletError::ParseError),
        };
        let spend = match &self.identity.spend_key {
            SpendKey::Secret(k) => match public_key_of(k) {
                Some(p) => p,
                None => return Err(WalletError::ParseError),
            },
            SpendKey::Public(p) => p.clone(),
        };
        Ok(encode_sp_address(&scan, &spend, self.identity.is_testnet))
    }
}

} // verus!
