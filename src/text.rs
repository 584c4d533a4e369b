use vstd::prelude::*;

use crate::error::WalletError;
use crate::outputs::{mark_spent_result, OutputStore};
use crate::keys::{is_mnemonic_text, seed_from_mnemonic};
use crate::types::{OutPoint, WalletType};

verus! {

/// The outpoint that bitcoin's parser reads from `"<txid>:<vout>"` text, as
/// the txid's bytes in internal order and the index.
pub uninterp spec fn outpoint_of_text(s: Seq<char>) -> Option<(Seq<u8>, u32)>;

/// A hex digit, in either case.
pub open spec fn is_hex_char(c: char) -> bool {
    ('0' <= c && c <= '9') || ('a' <= c && c <= 'f') || ('A' <= c && c <= 'F')
}

/// A transaction id as text: exactly 64 hex digits.
pub open spec fn is_txid_text(s: Seq<char>) -> bool {
    s.len() == 64 && forall|i: int| 0 <= i < s.len() ==> is_hex_char(s[i])
}

/// The 32 bytes of the secret key that secp256k1's parser reads from the
/// text, if it reads one.
pub uninterp spec fn secret_key_of_text(s: Seq<char>) -> Option<Seq<u8>>;

/// The 33-byte compressed form of the public key that secp256k1's parser
/// reads from the text, if it reads one.
pub uninterp spec fn public_key_of_text(s: Seq<char>) -> Option<Seq<u8>>;

pub open spec fn is_secret_key_text(s: Seq<char>) -> bool {
    secret_key_of_text(s) is Some
}

pub open spec fn is_public_key_text(s: Seq<char>) -> bool {
    public_key_of_text(s) is Some
}

/// Relies on bitcoin's `OutPoint::from_str`, which reads `"<txid>:<vout>"`;
/// the result depends on the text alone.
#[verifier::external_body]
fn outpoint_from_text(s: &str) -> (r: Option<OutPoint>)
    ensures
        match r {
            Some(o) => outpoint_of_text(s@) == Some(o.key()),
            None => outpoint_of_text(s@) is None,
        },
{
    match s.parse::<bitcoin::OutPoint>() {
        Ok(op) => Some(OutPoint { txid: bitcoin::hashes::Hash::to_byte_array(op.txid), vout: op.vout }),
        Err(_) => None,
    }
}

/// Relies on bitcoin's `Txid::from_str`, which takes an even number of
/// bytes, reads each pair as hex digits of either case, and wants 32 bytes:
/// exactly 64 hex digits.
#[verifier::external_body]
fn txid_text_ok(s: &str) -> (r: bool)
    ensures
        r == is_txid_text(s@),
{
    s.parse::<bitcoin::Txid>().is_ok()
}

/// Relies on secp256k1's `SecretKey::from_str` and `SecretKey::secret_bytes`:
/// the key that the text holds, which takes exactly 64 hex digits.
#[verifier::external_body]
pub(crate) fn secret_key_from_text(s: &str) -> (r: Option<[u8; 32]>)
    ensures
        match r {
            Some(k) => secret_key_of_text(s@) == Some(k@),
            None => secret_key_of_text(s@) is None,
        },
        r is Some ==> s@.len() == 64,
{
    s.parse::<bitcoin::secp256k1::SecretKey>().ok().map(|k| k.secret_bytes())
}

/// Relies on secp256k1's `PublicKey::from_str` and `PublicKey::serialize`:
/// the key that the text holds, in compressed (66 hex digits) or
/// uncompressed (130) form, as its 33-byte compressed encoding.
#[verifier::external_body]
pub(crate) fn public_key_from_text(s: &str) -> (r: Option<Vec<u8>>)
    ensures
        match r {
            Some(k) => public_key_of_text(s@) == Some(k@) && k@.len() == 33,
            None => public_key_of_text(s@) is None,
        },
        r is Some ==> s@.len() == 66 || s@.len() == 130,
{
    s.parse::<bitcoin::secp256k1::PublicKey>().ok().map(|k| k.serialize().to_vec())
}

/// Reads an outpoint from `"<txid>:<vout>"` text; `ParseError` where the
/// text is no outpoint.
pub fn parse_outpoint(s: &str) -> (r: Result<OutPoint, WalletError>)
    ensures
        match r {
            Ok(o) => outpoint_of_text(s@) == Some(o.key()),
            Err(e) => e == WalletError::ParseError && outpoint_of_text(s@) is None,
        },
{
    match outpoint_from_text(s) {
        Some(o) => Ok(o),
        None => Err(WalletError::ParseError),
    }
}

/// Whether the setup material can make a wallet: the key texts of an import
/// parse as keys of their kind, and a restored phrase is a mnemonic.
pub open spec fn wallet_type_ok(t: WalletType) -> bool {
    match t {
        WalletType::New => true,
        WalletType::Mnemonic(m) => is_mnemonic_text(m@),
        WalletType::PrivateKeys(scan, spend) => is_secret_key_text(scan@) && is_secret_key_text(spend@),
        WalletType::WatchOnly(scan, spend) => is_secret_key_text(scan@) && is_public_key_text(spend@),
    }
}

impl WalletType {
    /// Checks the setup material; `ParseError` where a key or the phrase does
    /// not parse.
    pub fn check(&self) -> (r: Result<(), WalletError>)
        ensures
            r is Ok <==> wallet_type_ok(*self),
            r is Err ==> r == Err::<(), WalletError>(WalletError::ParseError),
    {
        let ok = match self {
            WalletType::New => true,
            WalletType::Mnemonic(m) => seed_from_mnemonic(m.as_str(), "").is_some(),
            WalletType::PrivateKeys(scan, spend) => secret_key_from_text(scan.as_str()).is_some()
                && secret_key_from_text(spend.as_str()).is_some(),
            WalletType::WatchOnly(scan, spend) => secret_key_from_text(scan.as_str()).is_some()
                && public_key_from_text(spend.as_str()).is_some(),
        };
        if ok {
            Ok(())
        } else {
            Err(WalletError::ParseError)
        }
    }
}

impl OutputStore {
    /// Marks the output named by the outpoint text spent by the transaction
    /// named by `txid`; an output already spent by it is left as it is.
    /// `ParseError`
    /// where either text does not parse; otherwise as `mark_spent` with
    /// `final_` set.
    pub fn mark_outpoint_spent(&mut self, outpoint: &str, txid: String) -> (r: Result<(), WalletError>)
        requires
            old(self).wf(),
        ensures
            final(self).wf(),
            final(self).birthday_spec() == old(self).birthday_spec(),
            final(self).last_scan_spec() == old(self).last_scan_spec(),
            (outpoint_of_text(outpoint@) is None || !is_txid_text(txid@)) ==> r == Err::<(), WalletError>(WalletError::ParseError)
                && final(self).outputs() == old(self).outputs(),
            match outpoint_of_text(outpoint@) {
                Some(k) => is_txid_text(txid@) ==> (r, final(self).outputs()) == mark_spent_result(old(self).outputs(), k, txid, true),
                None => true,
            },
    {
        let o = match parse_outpoint(outpoint) {
            Ok(o) => o,
            Err(e) => return Err(e),
        };
        if !txid_text_ok(txid.as_str()) {
            return Err(WalletError::ParseError);
        }
        self.mark_spent(&o, txid, true)
    }
}

} // verus!
