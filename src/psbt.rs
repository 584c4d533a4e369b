use vstd::prelude::*;

use crate::error::WalletError;

verus! {

/// For each input of the PSBT that bitcoin's parser reads from the base64
/// text, whether it holds final signature data (a final script sig or a
/// final witness); `None` where the text is no PSBT.
pub uninterp spec fn psbt_input_finals(s: Seq<char>) -> Option<Seq<bool>>;

/// The hex serialization of the transaction that bitcoin extracts from the
/// PSBT text; `None` where the fee cannot be computed or extraction fails.
pub uninterp spec fn extracted_tx_hex(s: Seq<char>) -> Option<Seq<char>>;

/// Relies on bitcoin's `Psbt::from_str` (base64): for each input, whether
/// its final script sig or final witness is set.
#[verifier::external_body]
fn input_finals(psbt: &str) -> (r: Option<Vec<bool>>)
    ensures
        match r {
            Some(v) => psbt_input_finals(psbt@) == Some(v@),
            None => psbt_input_finals(psbt@) is None,
        },
{
    let psbt = psbt.parse::<bitcoin::psbt::Psbt>().ok()?;
    Some(psbt.inputs.iter().map(|i| i.final_script_sig.is_some() || i.final_script_witness.is_some()).collect())
}

/// Relies on bitcoin's `Psbt::from_str` (base64), `Psbt::fee`,
/// `Psbt::extract_tx` and `consensus::encode::serialize_hex`: the
/// transaction with the final signature data of every input filled in, as
/// hex. The fee is computed first, since `extract_tx` gives up on some of
/// the errors of that computation without returning.
#[verifier::external_body]
fn extract_tx_text(psbt: &str) -> (r: Option<String>)
    ensures
        match r {
            Some(h) => extracted_tx_hex(psbt@) == Some(h@),
            None => extracted_tx_hex(psbt@) is None,
        },
{
    let psbt = psbt.parse::<bitcoin::psbt::Psbt>().ok()?;
    psbt.fee().ok()?;
    psbt.extract_tx().ok().map(|tx| bitcoin::consensus::encode::serialize_hex(&tx))
}

/// Whether every input holds final signature data.
pub open spec fn all_final(f: Seq<bool>) -> bool {
    forall|i: int| 0 <= i < f.len() ==> f[i]
}

/// The raw transaction, as hex, of a finalized PSBT given as base64 text.
/// Fails with `ParseError` where the text is no PSBT, with `NotFinalized`
/// where an input has no final signature data, and with `NotExtractable`
/// where it gives no valid transaction.
pub fn extract_tx_from_psbt(psbt: &str) -> (r: Result<String, WalletError>)
    ensures
        psbt_input_finals(psbt@) is None ==> r == Err::<String, WalletError>(WalletError::ParseError),
        psbt_input_finals(psbt@) matches Some(f) && !all_final(f) ==> r == Err::<String, WalletError>(
            WalletError::NotFinalized,
        ),
        psbt_input_finals(psbt@) matches Some(f) && all_final(f) ==> match extracted_tx_hex(psbt@) {
            Some(h) => r matches Ok(t) && t@ == h,
            None => r == Err::<String, WalletError>(WalletError::NotExtractable),
        },
{
    let finals = match input_finals(psbt) {
        Some(f) => f,
        None => return Err(WalletError::ParseError),
    };
    let mut i: usize = 0;
    while i < finals.len()
        invariant
            i <= finals@.len(),
            psbt_input_finals(psbt@) == Some(finals@),
            forall|j: int| 0 <= j < i ==> finals@[j],
        decreases finals@.len() - i,
    {
        if !finals[i] {
            assert(!all_final(finals@));
            return Err(WalletError::NotFinalized);
        }
        i = i + 1;
    }
    match extract_tx_text(psbt) {
        Some(h) => Ok(h),
        None => Err(WalletError::NotExtractable),
    }
}

/// Extraction depends on the PSBT alone: extracting the same finalized PSBT
/// again gives the same transaction, and so the same transaction id.
pub proof fn lemma_extract_stable(a: Seq<char>, b: Seq<char>)
    requires
        a == b,
    ensures
        extracted_tx_hex(a) == extracted_tx_hex(b),
{
}

} // verus!
