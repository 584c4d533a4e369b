use vstd::prelude::*;

use crate::error::WalletError;

verus! {

/// The payer's amount once the fee is set to `fee_rate` satoshis per virtual
/// byte over `vsize` bytes, given the fee the transaction pays now: the payer
/// gives up the difference, or takes back a surplus.
pub open spec fn fee_adjusted(payer_amount: nat, current_fee: nat, fee_rate: nat, vsize: nat) -> int {
    payer_amount + current_fee - fee_rate * vsize
}

/// Sets a transaction's fee to `fee_rate * vsize` by changing the payer's
/// output. Fails with `FeeExceedsOutput` where the payer's output would go
/// below zero, and with `AmountOverflow` where it would exceed 64 bits.
pub fn adjust_for_fee(payer_amount: u64, current_fee: u64, fee_rate: u64, vsize: u64) -> (r: Result<u64, WalletError>)
    ensures
        fee_adjusted(payer_amount as nat, current_fee as nat, fee_rate as nat, vsize as nat) < 0
            ==> r == Err::<u64, WalletError>(WalletError::FeeExceedsOutput),
        fee_adjusted(payer_amount as nat, current_fee as nat, fee_rate as nat, vsize as nat) > u64::MAX
            ==> r == Err::<u64, WalletError>(WalletError::AmountOverflow),
        0 <= fee_adjusted(payer_amount as nat, current_fee as nat, fee_rate as nat, vsize as nat) <= u64::MAX
            ==> r == Ok::<u64, WalletError>(fee_adjusted(payer_amount as nat, current_fee as nat, fee_rate as nat, vsize as nat) as u64),
{
    proof {
        assert((fee_rate as int) * (vsize as int) <= 0xffff_ffff_ffff_ffff * 0xffff_ffff_ffff_ffff) by (nonlinear_arith)
            requires
                fee_rate <= 0xffff_ffff_ffff_ffffu64,
                vsize <= 0xffff_ffff_ffff_ffffu64,
        ;
    }
    let fee: u128 = fee_rate as u128 * vsize as u128;
    let have: u128 = payer_amount as u128 + current_fee as u128;
    if have < fee {
        return Err(WalletError::FeeExceedsOutput);
    }
    let left: u128 = have - fee;
    if left > 0xffff_ffff_ffff_ffffu128 {
        return Err(WalletError::AmountOverflow);
    }
    Ok(left as u64)
}

/// Which of a payer's outputs takes the fee: the smallest, the first of equal
/// ones; `None` where there is none.
pub fn fee_output_index(amounts: &Vec<u64>) -> (r: Option<usize>)
    ensures
        match r {
            None => amounts@.len() == 0,
            Some(i) => {
                &&& i < amounts@.len()
                &&& forall|j: int| 0 <= j < amounts@.len() ==> amounts@[i as int] <= amounts@[j]
                &&& forall|j: int| 0 <= j < i ==> amounts@[i as int] < amounts@[j]
            },
        },
{
    if amounts.len() == 0 {
        return None;
    }
    let mut best: usize = 0;
    let mut i: usize = 1;
    while i < amounts.len()
        invariant
            1 <= i <= amounts@.len(),
            best < i,
            forall|j: int| 0 <= j < i ==> amounts@[best as int] <= amounts@[j],
            forall|j: int| 0 <= j < best ==> amounts@[best as int] < amounts@[j],
        decreases amounts@.len() - i,
    {
        if amounts[i] < amounts[best] {
            best = i;
        }
        i = i + 1;
    }
    Some(best)
}

} // verus!
