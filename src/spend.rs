use vstd::prelude::*;

use crate::error::WalletError;
use crate::outputs::{has_key, index_of, Entry, OutputStore};
use crate::types::{OutPoint, Recipient};

verus! {

/// The output script of the bitcoin address that the text holds, whatever
/// the network; `None` where bitcoin's parser rejects the text.
pub uninterp spec fn address_script_of(s: Seq<char>) -> Option<Seq<u8>>;

/// The human-readable part (in lower case) and the number of data bytes of
/// a bech32m text with a valid checksum; `None` where the text is not one.
pub uninterp spec fn bech32m_parts(s: Seq<char>) -> Option<(Seq<char>, nat)>;

/// Relies on bitcoin's `Address::from_str`, `Address::assume_checked` and
/// `Address::script_pubkey`: the output script that pays the address.
#[verifier::external_body]
fn address_script(s: &str) -> (r: Option<Vec<u8>>)
    ensures
        match r {
            Some(v) => address_script_of(s@) == Some(v@),
            None => address_script_of(s@) is None,
        },
{
    let a = s.parse::<bitcoin::Address<bitcoin::address::NetworkUnchecked>>().ok()?;
    Some(a.assume_checked().script_pubkey().to_bytes())
}

/// Relies on bech32's `CheckedHrpstring::new::<Bech32m>`, `Hrp::to_lowercase`
/// and `CheckedHrpstring::byte_iter`.
#[verifier::external_body]
fn sp_address_parts(s: &str) -> (r: Option<(String, usize)>)
    ensures
        match r {
            Some((h, n)) => bech32m_parts(s@) == Some((h@, n as nat)),
            None => bech32m_parts(s@) is None,
        },
{
    let c = bitcoin::bech32::primitives::decode::CheckedHrpstring::new::<bitcoin::bech32::Bech32m>(s).ok()?;
    Some((c.hrp().to_lowercase(), c.byte_iter().len()))
}

/// A legacy recipient: the text is a bitcoin address.
pub open spec fn is_address_text(s: Seq<char>) -> bool {
    address_script_of(s) is Some
}

/// A silent-payment address: bech32m under `sp` (main network) or `tsp`,
/// whose data holds the version and the two 33-byte keys.
pub open spec fn is_sp_address_text(s: Seq<char>) -> bool {
    bech32m_parts(s) matches Some((h, n)) && (h == "sp"@ || h == "tsp"@) && n >= 66
}

/// Whether the text is a silent-payment address.
pub fn is_sp_address(s: &str) -> (r: bool)
    ensures
        r == is_sp_address_text(s@),
{
    match sp_address_parts(s) {
        Some((h, n)) => (h == "sp".to_string() || h == "tsp".to_string()) && n >= 66,
        None => false,
    }
}

/// A legacy recipient takes exactly one output, a silent-payment one at
/// least one; any other address is refused.
pub open spec fn recipient_ok(r: Recipient) -> bool {
    if is_address_text(r.address@) {
        r.nb_outputs == 1
    } else {
        is_sp_address_text(r.address@) && r.nb_outputs >= 1
    }
}

/// An input is acceptable where it names a stored unspent output that no
/// earlier input names.
pub open spec fn input_ok(e: Seq<Entry>, ins: Seq<OutPoint>, i: int) -> bool {
    &&& has_key(e, ins[i].key())
    &&& e[index_of(e, ins[i].key())].1.spend_status is Unspent
    &&& forall|j: int| 0 <= j < i ==> ins[j].key() != ins[i].key()
}

/// Sum of the amounts of the outputs that the inputs name.
pub open spec fn inputs_sum(e: Seq<Entry>, ins: Seq<OutPoint>) -> nat
    decreases ins.len(),
{
    if ins.len() == 0 {
        0
    } else {
        inputs_sum(e, ins.drop_last()) + e[index_of(e, ins.last().key())].1.amount.0 as nat
    }
}

/// Sum of the amounts that the recipients ask for.
pub open spec fn recipients_sum(rs: Seq<Recipient>) -> nat
    decreases rs.len(),
{
    if rs.len() == 0 {
        0
    } else {
        recipients_sum(rs.drop_last()) + rs.last().amount.0 as nat
    }
}

/// The amounts of a transaction that passed every check: what its inputs
/// hold, what its recipients get, and the difference, left as fee.
#[derive(Debug, Clone, Copy, PartialEq, Eq, Structural)]
pub struct SpendPlan {
    pub inputs_total: u64,
    pub recipients_total: u64,
    pub fee: u64,
}

/// What planning a spend of `ins` to `rs` returns.
pub open spec fn plan_result(e: Seq<Entry>, ins: Seq<OutPoint>, rs: Seq<Recipient>) -> Result<SpendPlan, WalletError> {
    if exists|i: int| 0 <= i < ins.len() && !input_ok(e, ins, i) {
        let i = choose|i: int| 0 <= i < ins.len() && !input_ok(e, ins, i) && forall|j: int| 0 <= j < i ==> input_ok(e, ins, j);
        Err(WalletError::UnknownInput(i as usize))
    } else if rs.len() == 0 {
        Err(WalletError::InvalidRecipient(0))
    } else if exists|i: int| 0 <= i < rs.len() && !recipient_ok(rs[i]) {
        let i = choose|i: int| 0 <= i < rs.len() && !recipient_ok(rs[i]) && forall|j: int| 0 <= j < i ==> recipient_ok(rs[j]);
        Err(WalletError::InvalidRecipient(i as usize))
    } else if recipients_sum(rs) > u64::MAX || inputs_sum(e, ins) > u64::MAX {
        Err(WalletError::AmountOverflow)
    } else if inputs_sum(e, ins) < recipients_sum(rs) {
        Err(WalletError::InsufficientFunds((recipients_sum(rs) - inputs_sum(e, ins)) as u64))
    } else {
        Ok(SpendPlan {
            inputs_total: inputs_sum(e, ins) as u64,
            recipients_total: recipients_sum(rs) as u64,
            fee: (inputs_sum(e, ins) - recipients_sum(rs)) as u64,
        })
    }
}

/// The base64 text of the unsigned PSBT (version 2, lock time 0, inputs
/// with final sequence) that spends the outpoints `ins` (txid bytes in
/// internal order, index) to the outputs `outs` (script, amount).
pub uninterp spec fn unsigned_psbt_text(ins: Seq<(Seq<u8>, u32)>, outs: Seq<(Seq<u8>, u64)>) -> Seq<char>;

pub open spec fn outpoint_keys(ins: Seq<OutPoint>) -> Seq<(Seq<u8>, u32)> {
    ins.map_values(|o: OutPoint| o.key())
}

pub open spec fn output_views(outs: Seq<(Vec<u8>, u64)>) -> Seq<(Seq<u8>, u64)> {
    outs.map_values(|p: (Vec<u8>, u64)| (p.0@, p.1))
}

/// Relies on bitcoin's `Psbt::from_unsigned_tx` and `Psbt::to_string`
/// (base64). The transaction is built with empty script sigs and
/// witnesses, the one case in which `from_unsigned_tx` succeeds.
#[verifier::external_body]
fn unsigned_psbt(ins: &Vec<OutPoint>, outs: &Vec<(Vec<u8>, u64)>) -> (r: String)
    ensures
        r@ == unsigned_psbt_text(outpoint_keys(ins@), output_views(outs@)),
{
    let tx = bitcoin::Transaction {
        version: bitcoin::transaction::Version::TWO,
        lock_time: bitcoin::absolute::LockTime::ZERO,
        input: ins.iter().map(|o| bitcoin::TxIn {
            previous_output: bitcoin::OutPoint { txid: bitcoin::hashes::Hash::from_byte_array(o.txid), vout: o.vout },
            script_sig: bitcoin::ScriptBuf::new(),
            sequence: bitcoin::Sequence::MAX,
            witness: bitcoin::Witness::new(),
        }).collect(),
        output: outs.iter().map(|(s, v)| bitcoin::TxOut {
            value: bitcoin::Amount::from_sat(*v),
            script_pubkey: bitcoin::ScriptBuf::from_bytes(s.clone()),
        }).collect(),
    };
    bitcoin::psbt::Psbt::from_unsigned_tx(tx).map(|p| p.to_string()).unwrap_or_default()
}

/// The amount of the `i`-th of `n` outputs that share `amount`: each gets
/// `amount / n`, and the first also the remainder.
pub open spec fn share(amount: u64, n: u32, i: int) -> u64 {
    if i == 0 {
        (amount / n as u64 + amount % n as u64) as u64
    } else {
        amount / n as u64
    }
}

/// The outputs of one recipient: for a legacy address one output paying its
/// script; for a silent-payment address `nb_outputs` outputs whose script is
/// left empty until the one-time keys are known.
pub open spec fn recipient_outputs(r: Recipient) -> Seq<(Seq<u8>, u64)> {
    if is_address_text(r.address@) {
        seq![(address_script_of(r.address@)->Some_0, r.amount.0)]
    } else {
        Seq::new(r.nb_outputs as nat, |i: int| (Seq::<u8>::empty(), share(r.amount.0, r.nb_outputs, i)))
    }
}

/// The outputs of all recipients, in order.
pub open spec fn planned_outputs(rs: Seq<Recipient>) -> Seq<(Seq<u8>, u64)>
    decreases rs.len(),
{
    if rs.len() == 0 {
        Seq::empty()
    } else {
        planned_outputs(rs.drop_last()) + recipient_outputs(rs.last())
    }
}

impl OutputStore {
    /// Checks a spend of the stored outputs `inputs` to `recipients` and
    /// returns its amounts. Fails with `UnknownInput(i)` at the first input
    /// that is not a stored unspent output or repeats an earlier one; with
    /// `InvalidRecipient(0)` where there is no recipient; with
    /// `InvalidRecipient(i)` at the first recipient whose address is neither
    /// a bitcoin nor a silent-payment address, or whose number of outputs
    /// does not suit its address; with `AmountOverflow` where a sum exceeds
    /// 64 bits; with `InsufficientFunds(d)` where the recipients ask `d`
    /// satoshis more than the inputs hold.
    pub fn plan_spend(&self, inputs: &Vec<OutPoint>, recipients: &Vec<Recipient>) -> (r: Result<SpendPlan, WalletError>)
        requires
            self.wf(),
        ensures
            r == plan_result(self.outputs(), inputs@, recipients@),
    {
        let ghost e = self.outputs();
        let ghost ins = inputs@;
        let ghost rs = recipients@;
        let mut in_sum: u128 = 0;
        let mut i: usize = 0;
        while i < inputs.len()
            invariant
                self.wf(),
                e == self.outputs(),
                ins == inputs@,
                i <= ins.len(),
                forall|j: int| 0 <= j < i ==> input_ok(e, ins, j),
                in_sum == inputs_sum(e, ins.subrange(0, i as int)),
                in_sum <= i * 0xffff_ffff_ffff_ffffu128,
            decreases ins.len() - i,
        {
            let o = &inputs[i];
            let mut known = false;
            let mut amount: u64 = 0;
            match self.get(o) {
                Some(out) => {
                    if matches!(out.spend_status, crate::types::OutputSpendStatus::Unspent) {
                        known = true;
                        amount = out.amount.0;
                    }
                },
                None => {},
            }
            assert(known == (has_key(e, ins[i as int].key()) && e[index_of(e, ins[i as int].key())].1.spend_status is Unspent));
            assert(known ==> amount == e[index_of(e, ins[i as int].key())].1.amount.0);
            let mut dup = false;
            let mut j: usize = 0;
            while j < i
                invariant
                    i < ins.len(),
                    ins == inputs@,
                    j <= i,
                    *o == ins[i as int],
                    dup == exists|m: int| 0 <= m < j && ins[m].key() == ins[i as int].key(),
                decreases i - j,
            {
                let same = inputs[j].same_as(o);
                if same {
                    dup = true;
                }
                proof {
                    if same {
                        assert(ins[j as int].key() == ins[i as int].key());
                    } else {
                        assert forall|m: int| 0 <= m < j + 1 && ins[m].key() == ins[i as int].key() implies m < j by {}
                    }
                }
                j = j + 1;
            }
            if !known || dup {
                proof {
                    assert(!input_ok(e, ins, i as int));
                    lemma_first_bad_input(e, ins, i as int);
                }
                return Err(WalletError::UnknownInput(i));
            }
            assert(input_ok(e, ins, i as int));
            proof {
                assert(ins.subrange(0, i + 1).drop_last() =~= ins.subrange(0, i as int));
            }
            in_sum = in_sum + amount as u128;
            i = i + 1;
        }
        proof {
            assert(ins.subrange(0, i as int) =~= ins);
        }
        assert(forall|j: int| 0 <= j < ins.len() ==> input_ok(e, ins, j));
        assert(!exists|j: int| 0 <= j < ins.len() && !input_ok(e, ins, j));
        if recipients.len() == 0 {
            return Err(WalletError::InvalidRecipient(0));
        }
        let mut out_sum: u128 = 0;
        let mut k: usize = 0;
        while k < recipients.len()
            invariant
                rs == recipients@,
                rs.len() > 0,
                e == self.outputs(),
                ins == inputs@,
                !exists|j: int| 0 <= j < ins.len() && !input_ok(e, ins, j),
                k <= rs.len(),
                forall|j: int| 0 <= j < k ==> recipient_ok(rs[j]),
                out_sum == recipients_sum(rs.subrange(0, k as int)),
                out_sum <= k * 0xffff_ffff_ffff_ffffu128,
            decreases rs.len() - k,
        {
            let rc = &recipients[k];
            let legacy = address_script(rc.address.as_str()).is_some();
            let ok = if legacy { rc.nb_outputs == 1 } else { is_sp_address(rc.address.as_str()) && rc.nb_outputs >= 1 };
            if !ok {
                proof {
                    assert(rc.address@ == rs[k as int].address@);
                    assert(!recipient_ok(rs[k as int]));
                    lemma_first_bad_recipient(rs, k as int);
                }
                return Err(WalletError::InvalidRecipient(k));
            }
            proof {
                assert(rs.subrange(0, k + 1).drop_last() =~= rs.subrange(0, k as int));
            }
            out_sum = out_sum + rc.amount.0 as u128;
            k = k + 1;
        }
        proof {
            assert(rs.subrange(0, k as int) =~= rs);
            assert(!exists|j: int| 0 <= j < rs.len() && !recipient_ok(rs[j]));
        }
        if out_sum > 0xffff_ffff_ffff_ffffu128 || in_sum > 0xffff_ffff_ffff_ffffu128 {
            return Err(WalletError::AmountOverflow);
        }
        if in_sum < out_sum {
            return Err(WalletError::InsufficientFunds((out_sum - in_sum) as u64));
        }
        Ok(SpendPlan { inputs_total: in_sum as u64, recipients_total: out_sum as u64, fee: (in_sum - out_sum) as u64 })
    }
}

impl OutputStore {
    /// Builds the unsigned PSBT that spends `inputs` to `recipients`, once
    /// `plan_spend` accepts them, and fails as it does otherwise. There is no
    /// change output: a change recipient must be among `recipients`.
    pub fn create_new_psbt(&self, inputs: &Vec<OutPoint>, recipients: &Vec<Recipient>) -> (r: Result<String, WalletError>)
        requires
            self.wf(),
        ensures
            plan_result(self.outputs(), inputs@, recipients@) matches Err(e) ==> r == Err::<String, WalletError>(e),
            plan_result(self.outputs(), inputs@, recipients@) is Ok ==> (r matches Ok(p) && p@ == unsigned_psbt_text(
                outpoint_keys(inputs@),
                planned_outputs(recipients@),
            )),
    {
        match self.plan_spend(inputs, recipients) {
            Err(e) => return Err(e),
            Ok(_) => {},
        }
        let ghost rs = recipients@;
        let mut outs: Vec<(Vec<u8>, u64)> = Vec::new();
        let mut k: usize = 0;
        while k < recipients.len()
            invariant
                rs == recipients@,
                k <= rs.len(),
                forall|j: int| 0 <= j < rs.len() ==> recipient_ok(#[trigger] rs[j]),
                output_views(outs@) == planned_outputs(rs.subrange(0, k as int)),
            decreases rs.len() - k,
        {
            let rc = &recipients[k];
            assert(recipient_ok(rs[k as int]));
            let ghost before = output_views(outs@);
            match address_script(rc.address.as_str()) {
                Some(script) => {
                    outs.push((script, rc.amount.0));
                    proof {
                        assert(output_views(outs@) =~= before + recipient_outputs(rs[k as int]));
                    }
                },
                None => {
                    let n = rc.nb_outputs;
                    let base = rc.amount.0 / n as u64;
                    let rem = rc.amount.0 % n as u64;
                    let mut j: u32 = 0;
                    while j < n
                        invariant
                            n == rs[k as int].nb_outputs,
                            n >= 1,
                            !is_address_text(rs[k as int].address@),
                            base == rs[k as int].amount.0 / n as u64,
                            rem == rs[k as int].amount.0 % n as u64,
                            j <= n,
                            output_views(outs@) == before + recipient_outputs(rs[k as int]).subrange(0, j as int),
                        decreases n - j,
                    {
                        let amt: u64 = if j == 0 {
                            assert(base + rem <= rs[k as int].amount.0) by (nonlinear_arith)
                                requires
                                    n >= 1,
                                    base == rs[k as int].amount.0 / n as u64,
                                    rem == rs[k as int].amount.0 % n as u64,
                            ;
                            base + rem
                        } else {
                            base
                        };
                        let ghost prev = output_views(outs@);
                        outs.push((Vec::new(), amt));
                        proof {
                            assert(recipient_outputs(rs[k as int]).subrange(0, j + 1)
                                =~= recipient_outputs(rs[k as int]).subrange(0, j as int).push((Seq::<u8>::empty(), amt)));
                            assert(output_views(outs@) =~= prev.push((Seq::<u8>::empty(), amt)));
                        }
                        j = j + 1;
                    }
                    proof {
                        assert(recipient_outputs(rs[k as int]).subrange(0, n as int) =~= recipient_outputs(rs[k as int]));
                    }
                },
            }
            proof {
                assert(rs.subrange(0, k + 1).drop_last() =~= rs.subrange(0, k as int));
            }
            k = k + 1;
        }
        proof {
            assert(rs.subrange(0, k as int) =~= rs);
        }
        Ok(unsigned_psbt(inputs, &outs))
    }
}

proof fn lemma_first_bad_input(e: Seq<Entry>, ins: Seq<OutPoint>, i: int)
    requires
        0 <= i < ins.len(),
        !input_ok(e, ins, i),
        forall|j: int| 0 <= j < i ==> input_ok(e, ins, j),
    ensures
        (choose|k: int| 0 <= k < ins.len() && !input_ok(e, ins, k) && forall|j: int| 0 <= j < k ==> input_ok(e, ins, j)) == i,
{
    let k = choose|k: int| 0 <= k < ins.len() && !input_ok(e, ins, k) && forall|j: int| 0 <= j < k ==> input_ok(e, ins, j);
    assert(0 <= k < ins.len() && !input_ok(e, ins, k) && forall|j: int| 0 <= j < k ==> input_ok(e, ins, j));
    if k < i {
        assert(input_ok(e, ins, k));
    } else if k > i {
        assert(input_ok(e, ins, i));
    }
}

proof fn lemma_first_bad_recipient(rs: Seq<Recipient>, i: int)
    requires
        0 <= i < rs.len(),
        !recipient_ok(rs[i]),
        forall|j: int| 0 <= j < i ==> recipient_ok(rs[j]),
    ensures
        (choose|k: int| 0 <= k < rs.len() && !recipient_ok(rs[k]) && forall|j: int| 0 <= j < k ==> recipient_ok(rs[j])) == i,
{
    let k = choose|k: int| 0 <= k < rs.len() && !recipient_ok(rs[k]) && forall|j: int| 0 <= j < k ==> recipient_ok(rs[j]);
    assert(0 <= k < rs.len() && !recipient_ok(rs[k]) && forall|j: int| 0 <= j < k ==> recipient_ok(rs[j]));
    if k < i {
        assert(recipient_ok(rs[k]));
    } else if k > i {
        assert(recipient_ok(rs[i]));
    }
}

} // verus!
