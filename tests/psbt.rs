use bitcoin::absolute::LockTime;
use bitcoin::psbt::Psbt;
use bitcoin::transaction::Version;
use bitcoin::{Amount, OutPoint, ScriptBuf, Sequence, Transaction, TxIn, TxOut, Witness};

use sp_wallet_core::error::WalletError;
use sp_wallet_core::psbt::extract_tx_from_psbt;

fn finalized_psbt(input_value: u64) -> Psbt {
    let tx = Transaction {
        version: Version::TWO,
        lock_time: LockTime::ZERO,
        input: vec![TxIn {
            previous_output: OutPoint { txid: OutPoint::null().txid, vout: 0 },
            script_sig: ScriptBuf::new(),
            sequence: Sequence::MAX,
            witness: Witness::new(),
        }],
        output: vec![TxOut { value: Amount::from_sat(90_000), script_pubkey: ScriptBuf::new() }],
    };
    let mut psbt = Psbt::from_unsigned_tx(tx).unwrap();
    psbt.inputs[0].witness_utxo = Some(TxOut { value: Amount::from_sat(input_value), script_pubkey: ScriptBuf::new() });
    psbt.inputs[0].final_script_witness = Some(Witness::from_slice(&[vec![7u8; 64]]));
    psbt
}

#[test]
fn extract_gives_the_signed_transaction() {
    let psbt = finalized_psbt(100_000);
    let text = psbt.to_string();
    let expected = bitcoin::consensus::encode::serialize_hex(&psbt.clone().extract_tx().unwrap());
    let hex = extract_tx_from_psbt(&text).unwrap();
    assert_eq!(hex, expected);
    assert_ne!(hex, text);
    assert!(hex.contains(&"07".repeat(64)));
    assert_eq!(extract_tx_from_psbt(&text).unwrap(), hex);
    let bytes = <Vec<u8> as bitcoin::hex::FromHex>::from_hex(&hex).unwrap();
    let tx: Transaction = bitcoin::consensus::encode::deserialize(&bytes).unwrap();
    assert_eq!(tx.input.len(), psbt.inputs.len());
}

#[test]
fn extract_rejects_bad_text_and_overspending() {
    assert_eq!(extract_tx_from_psbt("not a psbt"), Err(WalletError::ParseError));
    let text = finalized_psbt(80_000).to_string();
    assert_eq!(extract_tx_from_psbt(&text), Err(WalletError::NotExtractable));
}

#[test]
fn extract_refuses_unfinalized_psbt() {
    let mut psbt = finalized_psbt(100_000);
    psbt.inputs[0].final_script_witness = None;
    assert_eq!(extract_tx_from_psbt(&psbt.to_string()), Err(WalletError::NotFinalized));
}

#[test]
fn extract_refuses_missing_previous_output() {
    let mut psbt = finalized_psbt(100_000);
    psbt.inputs[0].witness_utxo = None;
    let prev = Transaction { version: Version::TWO, lock_time: LockTime::ZERO, input: vec![], output: vec![] };
    psbt.inputs[0].non_witness_utxo = Some(prev);
    assert_eq!(extract_tx_from_psbt(&psbt.to_string()), Err(WalletError::NotExtractable));
}
