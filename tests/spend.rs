use bitcoin::bech32::{Bech32m, ByteIterExt, Fe32, Fe32IterExt, Hrp};
use bitcoin::psbt::Psbt;

use sp_wallet_core::error::WalletError;
use sp_wallet_core::fee::{adjust_for_fee, fee_output_index};
use sp_wallet_core::outputs::OutputStore;
use sp_wallet_core::spend::{is_sp_address, SpendPlan};
use sp_wallet_core::types::{Amount, OutPoint, OutputSpendStatus, OwnedOutput, Recipient};

const LEGACY: &str = "bc1qw508d6qejxtdg4y5r3zarvary0c5xw7kv8f3t4";

fn sp_address(hrp: &str) -> String {
    let hrp = Hrp::parse(hrp).unwrap();
    let mut data = vec![0x02u8; 66];
    data[33] = 0x03;
    data.iter().copied().bytes_to_fes().with_checksum::<Bech32m>(&hrp).with_witness_version(Fe32::Q).chars().collect()
}

fn op(b: u8) -> OutPoint {
    OutPoint { txid: [b; 32], vout: 0 }
}

fn store(amounts: &[u64]) -> OutputStore {
    let mut s = OutputStore::new();
    for (i, a) in amounts.iter().enumerate() {
        let out = OwnedOutput {
            blockheight: 10,
            tweak: String::new(),
            amount: Amount(*a),
            script: String::new(),
            label: None,
            spend_status: OutputSpendStatus::Unspent,
        };
        assert_eq!(s.add_output(op(i as u8 + 1), out), Ok(()));
    }
    s
}

fn rc(address: &str, amount: u64, nb_outputs: u32) -> Recipient {
    Recipient { address: address.to_string(), amount: Amount(amount), nb_outputs }
}

#[test]
fn plan_spend_succeeds_with_enough_inputs() {
    let s = store(&[60_000, 40_000]);
    let plan = s.plan_spend(&vec![op(1), op(2)], &vec![rc(&sp_address("sp"), 40_000, 1), rc(LEGACY, 59_000, 1)]);
    assert_eq!(plan, Ok(SpendPlan { inputs_total: 100_000, recipients_total: 99_000, fee: 1_000 }));
}

#[test]
fn plan_spend_reports_deficit() {
    let s = store(&[60_000, 40_000]);
    let plan = s.plan_spend(&vec![op(1), op(2)], &vec![rc(&sp_address("sp"), 40_000, 1), rc(LEGACY, 60_001, 1)]);
    assert_eq!(plan, Err(WalletError::InsufficientFunds(1)));
}

#[test]
fn plan_spend_rejects_unknown_spent_or_repeated_input() {
    let mut s = store(&[60_000, 40_000]);
    let rs = vec![rc(LEGACY, 1, 1)];
    assert_eq!(s.plan_spend(&vec![op(1), op(9)], &rs), Err(WalletError::UnknownInput(1)));
    assert_eq!(s.plan_spend(&vec![op(1), op(1)], &rs), Err(WalletError::UnknownInput(1)));
    assert_eq!(s.mark_spent(&op(1), "aa".repeat(32), false), Ok(()));
    assert_eq!(s.plan_spend(&vec![op(2), op(1)], &rs), Err(WalletError::UnknownInput(1)));
}

#[test]
fn plan_spend_checks_recipients() {
    let s = store(&[60_000]);
    let ins = vec![op(1)];
    assert_eq!(s.plan_spend(&ins, &vec![]), Err(WalletError::InvalidRecipient(0)));
    assert_eq!(s.plan_spend(&ins, &vec![rc(&sp_address("sp"), 1, 1), rc(LEGACY, 1, 2)]), Err(WalletError::InvalidRecipient(1)));
    assert_eq!(s.plan_spend(&ins, &vec![rc(&sp_address("sp"), 1, 0)]), Err(WalletError::InvalidRecipient(0)));
    assert_eq!(
        s.plan_spend(&ins, &vec![rc(&sp_address("sp"), 10, 3)]),
        Ok(SpendPlan { inputs_total: 60_000, recipients_total: 10, fee: 59_990 })
    );
}

#[test]
fn plan_spend_reports_overflowing_request() {
    let s = store(&[60_000]);
    let rs = vec![rc(LEGACY, u64::MAX, 1), rc(&sp_address("sp"), 1, 1)];
    assert_eq!(s.plan_spend(&vec![op(1)], &rs), Err(WalletError::AmountOverflow));
}

#[test]
fn fee_adjustment() {
    assert_eq!(adjust_for_fee(59_000, 1_000, 2, 200), Ok(59_600));
    assert_eq!(adjust_for_fee(59_000, 0, 10, 200), Ok(57_000));
    assert_eq!(adjust_for_fee(100, 0, 1, 101), Err(WalletError::FeeExceedsOutput));
    assert_eq!(adjust_for_fee(u64::MAX, 1, 0, 10), Err(WalletError::AmountOverflow));
    assert_eq!(adjust_for_fee(0, 0, u64::MAX, u64::MAX), Err(WalletError::FeeExceedsOutput));
}

#[test]
fn smallest_output_pays_fee() {
    assert_eq!(fee_output_index(&vec![]), None);
    assert_eq!(fee_output_index(&vec![5, 3, 3, 9]), Some(1));
    assert_eq!(fee_output_index(&vec![7]), Some(0));
}

#[test]
fn silent_payment_addresses_are_recognised() {
    assert!(is_sp_address(&sp_address("sp")));
    assert!(is_sp_address(&sp_address("tsp")));
    assert!(!is_sp_address(&sp_address("bc")));
    assert!(!is_sp_address(LEGACY));
    assert!(!is_sp_address("sp1qnotanaddress"));
}

#[test]
fn plan_spend_refuses_malformed_address() {
    let s = store(&[60_000]);
    let rs = vec![rc(LEGACY, 1, 1), rc("sp1qnotanaddress", 1, 1)];
    assert_eq!(s.plan_spend(&vec![op(1)], &rs), Err(WalletError::InvalidRecipient(1)));
}

#[test]
fn create_new_psbt_builds_outputs_per_recipient() {
    let s = store(&[60_000, 40_000]);
    let text = s
        .create_new_psbt(&vec![op(1), op(2)], &vec![rc(&sp_address("sp"), 40_001, 2), rc(LEGACY, 59_000, 1)])
        .unwrap();
    let psbt: Psbt = text.parse().unwrap();
    let tx = &psbt.unsigned_tx;
    assert_eq!(tx.input.len(), 2);
    assert_eq!(tx.input[1].previous_output.vout, 0);
    assert_eq!(tx.output.len(), 3);
    assert_eq!(tx.output[0].value.to_sat(), 20_001);
    assert_eq!(tx.output[1].value.to_sat(), 20_000);
    assert!(tx.output[0].script_pubkey.is_empty());
    assert_eq!(tx.output[2].value.to_sat(), 59_000);
    let legacy: bitcoin::Address<bitcoin::address::NetworkUnchecked> = LEGACY.parse().unwrap();
    assert_eq!(tx.output[2].script_pubkey, legacy.assume_checked().script_pubkey());
    let short = s.create_new_psbt(&vec![op(1)], &vec![rc(LEGACY, 60_001, 1)]);
    assert_eq!(short, Err(WalletError::InsufficientFunds(1)));
}
