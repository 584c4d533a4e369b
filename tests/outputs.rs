use sp_wallet_core::error::WalletError;
use sp_wallet_core::outputs::OutputStore;
use sp_wallet_core::types::{Amount, OutPoint, OutputSpendStatus, OwnedOutput};

fn op(b: u8, vout: u32) -> OutPoint {
    OutPoint { txid: [b; 32], vout }
}

fn owned(amount: u64, height: u32) -> OwnedOutput {
    OwnedOutput {
        blockheight: height,
        tweak: "00".repeat(32),
        amount: Amount(amount),
        script: "5120".to_string() + &"11".repeat(32),
        label: None,
        spend_status: OutputSpendStatus::Unspent,
    }
}

fn store_with(amounts: &[u64]) -> OutputStore {
    let mut s = OutputStore::new();
    for (i, a) in amounts.iter().enumerate() {
        assert_eq!(s.add_output(op(i as u8 + 1, 0), owned(*a, 100)), Ok(()));
    }
    s
}

#[test]
fn new_store_is_empty() {
    let s = OutputStore::new();
    assert_eq!(s.len(), 0);
    assert_eq!(s.get_birthday(), 0);
    assert_eq!(s.get_last_scan(), 0);
    assert_eq!(s.balance(), Amount(0));
}

#[test]
fn add_output_rejects_repeated_outpoint() {
    let mut s = store_with(&[10]);
    assert_eq!(s.add_output(op(1, 0), owned(5, 1)), Err(WalletError::AlreadyExists));
    assert_eq!(s.add_output(op(1, 1), owned(5, 1)), Ok(()));
    assert_eq!(s.len(), 2);
}

#[test]
fn add_output_rejects_overflowing_total() {
    let mut s = store_with(&[u64::MAX - 1]);
    assert_eq!(s.add_output(op(9, 0), owned(2, 1)), Err(WalletError::AmountOverflow));
    assert_eq!(s.add_output(op(9, 0), owned(1, 1)), Ok(()));
    assert_eq!(s.balance(), Amount(u64::MAX));
}

#[test]
fn mark_spent_lifecycle() {
    let mut s = store_with(&[1000]);
    let o = op(1, 0);
    assert_eq!(s.mark_spent(&o, "aa".repeat(32), false), Ok(()));
    assert!(matches!(&s.get(&o).unwrap().spend_status, OutputSpendStatus::Spent(t) if *t == "aa".repeat(32)));
    assert_eq!(s.mark_spent(&o, "bb".repeat(32), false), Err(WalletError::AlreadySpent));
    assert!(matches!(&s.get(&o).unwrap().spend_status, OutputSpendStatus::Spent(t) if *t == "aa".repeat(32)));
    assert_eq!(s.mark_spent(&o, "aa".repeat(32), true), Ok(()));
    assert!(matches!(&s.get(&o).unwrap().spend_status, OutputSpendStatus::Spent(t) if *t == "aa".repeat(32)));
    assert_eq!(s.mark_spent(&o, "bb".repeat(32), true), Err(WalletError::AlreadySpent));
    assert!(matches!(&s.get(&o).unwrap().spend_status, OutputSpendStatus::Spent(t) if *t == "aa".repeat(32)));
}

#[test]
fn mark_spent_unknown_outpoint() {
    let mut s = store_with(&[1000]);
    assert_eq!(s.mark_spent(&op(7, 0), "aa".repeat(32), true), Err(WalletError::NotFound));
}

#[test]
fn mark_spent_refuses_mined_output() {
    let mut s = OutputStore::new();
    let mut out = owned(10, 5);
    out.spend_status = OutputSpendStatus::Mined("cc".repeat(32));
    assert_eq!(s.add_output(op(3, 2), out), Ok(()));
    assert_eq!(s.mark_spent(&op(3, 2), "aa".repeat(32), true), Err(WalletError::AlreadySpent));
}

#[test]
fn balance_excludes_spent_and_reset_clears() {
    let mut s = store_with(&[1000, 2500, 40]);
    assert_eq!(s.balance(), Amount(3540));
    assert_eq!(s.mark_spent(&op(2, 0), "aa".repeat(32), false), Ok(()));
    assert_eq!(s.balance(), Amount(1040));
    s.set_birthday(50);
    s.update_last_scan(900);
    s.reset_to_birthday();
    assert_eq!(s.balance(), Amount(0));
    assert_eq!(s.len(), 0);
    assert_eq!(s.get_last_scan(), 50);
    assert_eq!(s.get_birthday(), 50);
}

#[test]
fn birthday_and_last_scan_bookkeeping() {
    let mut s = OutputStore::new();
    s.set_birthday(800);
    assert_eq!(s.get_birthday(), 800);
    assert_eq!(s.get_last_scan(), 800);
    s.update_last_scan(700);
    assert_eq!(s.get_last_scan(), 800);
    s.update_last_scan(900);
    assert_eq!(s.get_last_scan(), 900);
    s.set_birthday(100);
    assert_eq!(s.get_birthday(), 100);
    assert_eq!(s.get_last_scan(), 900);
    let st = s.status();
    assert_eq!(st.birthday, 100);
    assert_eq!(st.scan_height, 900);
    assert_eq!(st.amount, 0);
}

#[test]
fn spendable_and_all_lists() {
    let mut s = store_with(&[1, 2, 3]);
    assert_eq!(s.mark_spent(&op(2, 0), "aa".repeat(32), false), Ok(()));
    let spendable = s.spendable_list();
    assert_eq!(spendable.len(), 2);
    assert_eq!(spendable[0].0.txid, [1u8; 32]);
    assert_eq!(spendable[1].0.txid, [3u8; 32]);
    assert_eq!(spendable[1].1.amount, Amount(3));
    let all = s.all_list();
    assert_eq!(all.len(), 3);
    assert!(matches!(all[1].1.spend_status, OutputSpendStatus::Spent(_)));
}

#[test]
fn outpoint_equality() {
    assert!(op(1, 0).same_as(&op(1, 0)));
    assert!(!op(1, 0).same_as(&op(1, 1)));
    let mut t = [1u8; 32];
    t[31] = 2;
    assert!(!op(1, 0).same_as(&OutPoint { txid: t, vout: 0 }));
}

#[test]
fn mined_spend_moves_spent_outputs_only() {
    let mut s = store_with(&[10, 20, 30]);
    assert_eq!(s.mark_spent(&op(1, 0), "aa".repeat(32), false), Ok(()));
    assert_eq!(s.mark_spent(&op(2, 0), "bb".repeat(32), false), Ok(()));
    s.mark_mined(&"aa".repeat(32), "cc".repeat(32));
    assert!(matches!(&s.get(&op(1, 0)).unwrap().spend_status, OutputSpendStatus::Mined(b) if *b == "cc".repeat(32)));
    assert!(matches!(&s.get(&op(2, 0)).unwrap().spend_status, OutputSpendStatus::Spent(t) if *t == "bb".repeat(32)));
    assert!(matches!(s.get(&op(3, 0)).unwrap().spend_status, OutputSpendStatus::Unspent));
    assert_eq!(s.balance(), Amount(30));
    assert_eq!(s.mark_spent(&op(1, 0), "aa".repeat(32), true), Err(WalletError::AlreadySpent));
}
