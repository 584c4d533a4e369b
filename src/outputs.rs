use vstd::prelude::*;

use crate::error::WalletError;
use crate::types::{Amount, OutPoint, OutputSpendStatus, OwnedOutput, WalletStatus};

verus! {

/// An entry of the store: an outpoint and the output it names.
pub type Entry = (OutPoint, OwnedOutput);

/// Whether the entry at `i` is keyed by `k`.
pub open spec fn at_key(e: Seq<Entry>, k: (Seq<u8>, u32), i: int) -> bool {
    0 <= i < e.len() && e[i].0.key() == k
}

pub open spec fn has_key(e: Seq<Entry>, k: (Seq<u8>, u32)) -> bool {
    exists|i: int| at_key(e, k, i)
}

pub open spec fn unique_keys(e: Seq<Entry>) -> bool {
    forall|i: int, j: int| 0 <= i < e.len() && 0 <= j < e.len() && i != j ==> e[i].0.key() != e[j].0.key()
}

/// Sum of the amounts of every entry.
pub open spec fn total(e: Seq<Entry>) -> nat
    decreases e.len(),
{
    if e.len() == 0 {
        0
    } else {
        total(e.drop_last()) + e.last().1.amount.0 as nat
    }
}

/// What an output adds to the balance: its amount while unspent, else nothing.
pub open spec fn unspent_amount(o: OwnedOutput) -> nat {
    if o.spend_status is Unspent {
        o.amount.0 as nat
    } else {
        0
    }
}

/// Sum of the amounts of the unspent entries.
pub open spec fn unspent_total(e: Seq<Entry>) -> nat
    decreases e.len(),
{
    if e.len() == 0 {
        0
    } else {
        unspent_total(e.drop_last()) + unspent_amount(e.last().1)
    }
}

/// The entries whose output is unspent, in store order.
pub open spec fn unspent_entries(e: Seq<Entry>) -> Seq<Entry> {
    e.filter(|x: Entry| x.1.spend_status is Unspent)
}

/// The output with its status replaced.
pub open spec fn with_status(o: OwnedOutput, s: OutputSpendStatus) -> OwnedOutput {
    OwnedOutput {
        blockheight: o.blockheight,
        tweak: o.tweak,
        amount: o.amount,
        script: o.script,
        label: o.label,
        spend_status: s,
    }
}

/// The position of the entry keyed by `k`.
pub open spec fn index_of(e: Seq<Entry>, k: (Seq<u8>, u32)) -> int {
    choose|i: int| at_key(e, k, i)
}

/// Whether the output was spent by the transaction `txid`.
pub open spec fn spent_by(o: OwnedOutput, txid: Seq<char>) -> bool {
    o.spend_status matches OutputSpendStatus::Spent(t) && t@ == txid
}

/// What marking the output under `k` spent by `txid` returns, and the
/// entries it leaves.
pub open spec fn mark_spent_result(e: Seq<Entry>, k: (Seq<u8>, u32), txid: String, final_: bool) -> (
    Result<(), WalletError>,
    Seq<Entry>,
) {
    if !has_key(e, k) {
        (Err(WalletError::NotFound), e)
    } else {
        let i = index_of(e, k);
        let s = e[i].1.spend_status;
        if s is Unspent {
            (Ok(()), e.update(i, (e[i].0, with_status(e[i].1, OutputSpendStatus::Spent(txid)))))
        } else if final_ && spent_by(e[i].1, txid@) {
            (Ok(()), e)
        } else {
            (Err(WalletError::AlreadySpent), e)
        }
    }
}

pub proof fn lemma_index_of_unique(e: Seq<Entry>, k: (Seq<u8>, u32), i: int)
    requires
        unique_keys(e),
        at_key(e, k, i),
    ensures
        index_of(e, k) == i,
{
    let j = index_of(e, k);
    assert(at_key(e, k, j));
    if j != i {
        assert(e[i].0.key() != e[j].0.key());
    }
}

/// Marking an unspent output spent by `t1` leaves it `Spent(t1)`. Marking it
/// again without `final_` then fails with `AlreadySpent` and changes
/// nothing, as does marking it by another transaction with `final_`;
/// marking it again by `t1` with `final_` succeeds and changes nothing.
pub proof fn lemma_mark_spent_lifecycle(e: Seq<Entry>, k: (Seq<u8>, u32), t1: String, t2: String)
    requires
        unique_keys(e),
        has_key(e, k),
        e[index_of(e, k)].1.spend_status is Unspent,
    ensures
        mark_spent_result(e, k, t1, false).0 == Ok::<(), WalletError>(()),
        ({
            let e1 = mark_spent_result(e, k, t1, false).1;
            &&& has_key(e1, k)
            &&& e1[index_of(e1, k)].1.spend_status == OutputSpendStatus::Spent(t1)
            &&& mark_spent_result(e1, k, t2, false) == (Err::<(), WalletError>(WalletError::AlreadySpent), e1)
            &&& mark_spent_result(e1, k, t1, true) == (Ok::<(), WalletError>(()), e1)
            &&& t2@ != t1@ ==> mark_spent_result(e1, k, t2, true) == (Err::<(), WalletError>(WalletError::AlreadySpent), e1)
        }),
{
    let i = index_of(e, k);
    assert(at_key(e, k, i));
    let e1 = mark_spent_result(e, k, t1, false).1;
    assert(at_key(e1, k, i));
    assert(unique_keys(e1)) by {
        assert forall|a: int, b: int| 0 <= a < e1.len() && 0 <= b < e1.len() && a != b implies
            e1[a].0.key() != e1[b].0.key() by {
            assert(e[a].0.key() != e[b].0.key());
        }
    }
    lemma_index_of_unique(e1, k, i);
    assert(e1.update(i, (e1[i].0, with_status(e1[i].1, OutputSpendStatus::Spent(t1)))) =~= e1);
}

/// Marking an unspent output spent takes exactly its amount off the balance.
pub proof fn lemma_mark_spent_balance(e: Seq<Entry>, k: (Seq<u8>, u32), t: String, final_: bool)
    requires
        unique_keys(e),
        has_key(e, k),
        e[index_of(e, k)].1.spend_status is Unspent,
    ensures
        unspent_total(mark_spent_result(e, k, t, final_).1) + e[index_of(e, k)].1.amount.0
            == unspent_total(e),
{
    let i = index_of(e, k);
    assert(at_key(e, k, i));
    let v = (e[i].0, with_status(e[i].1, OutputSpendStatus::Spent(t)));
    lemma_totals_update(e, i, v);
}

/// The entries once the transaction `txid` is seen mined in `block`: each
/// output it spent becomes `Mined(block)`, the others stay.
pub open spec fn mined_result(e: Seq<Entry>, txid: Seq<char>, block: String) -> Seq<Entry> {
    Seq::new(
        e.len(),
        |i: int|
            if spent_by(e[i].1, txid) {
                (e[i].0, with_status(e[i].1, OutputSpendStatus::Mined(block)))
            } else {
                e[i]
            },
    )
}

pub proof fn lemma_unspent_le_total(e: Seq<Entry>)
    ensures
        unspent_total(e) <= total(e),
    decreases e.len(),
{
    if e.len() > 0 {
        lemma_unspent_le_total(e.drop_last());
    }
}

pub proof fn lemma_prefix_totals(e: Seq<Entry>, i: int)
    requires
        0 <= i <= e.len(),
    ensures
        total(e.subrange(0, i)) <= total(e),
        unspent_total(e.subrange(0, i)) <= unspent_total(e),
    decreases e.len() - i,
{
    if i < e.len() {
        lemma_prefix_totals(e, i + 1);
        assert(e.subrange(0, i + 1).drop_last() =~= e.subrange(0, i));
    } else {
        assert(e.subrange(0, i) =~= e);
    }
}

pub proof fn lemma_totals_update(e: Seq<Entry>, i: int, v: Entry)
    requires
        0 <= i < e.len(),
    ensures
        total(e.update(i, v)) + e[i].1.amount.0 == total(e) + v.1.amount.0,
        unspent_total(e.update(i, v)) + unspent_amount(e[i].1) == unspent_total(e) + unspent_amount(v.1),
    decreases e.len(),
{
    let u = e.update(i, v);
    if i == e.len() - 1 {
        assert(u.drop_last() =~= e.drop_last());
    } else {
        assert(u.drop_last() =~= e.drop_last().update(i, v));
        lemma_totals_update(e.drop_last(), i, v);
    }
}

pub proof fn lemma_totals_push(e: Seq<Entry>, v: Entry)
    ensures
        total(e.push(v)) == total(e) + v.1.amount.0,
        unspent_total(e.push(v)) == unspent_total(e) + unspent_amount(v.1),
{
    assert(e.push(v).drop_last() =~= e);
}

/// The outputs a wallet owns, keyed by outpoint, with the height below which
/// nothing is scanned (`birthday`) and the highest height fully scanned
/// (`last_scan`).
pub struct OutputStore {
    entries: Vec<Entry>,
    birthday: u32,
    last_scan: u32,
}

impl OutputStore {
    pub closed spec fn outputs(&self) -> Seq<Entry> {
        self.entries@
    }

    pub closed spec fn birthday_spec(&self) -> u32 {
        self.birthday
    }

    pub closed spec fn last_scan_spec(&self) -> u32 {
        self.last_scan
    }

    /// Keys are unique, scanning has reached the birthday, and the amounts
    /// sum to a 64-bit value.
    pub open spec fn wf(&self) -> bool {
        &&& unique_keys(self.outputs())
        &&& self.birthday_spec() <= self.last_scan_spec()
        &&& total(self.outputs()) <= u64::MAX
    }

    /// The balance: the sum of the amounts of the unspent outputs.
    pub open spec fn balance_spec(&self) -> nat {
        unspent_total(self.outputs())
    }

    /// An empty store with birthday and last scan at height zero.
    pub fn new() -> (r: OutputStore)
        ensures
            r.wf(),
            r.outputs().len() == 0,
            r.birthday_spec() == 0,
            r.last_scan_spec() == 0,
    {
        OutputStore { entries: Vec::new(), birthday: 0, last_scan: 0 }
    }

    pub fn get_birthday(&self) -> (r: u32)
        ensures
            r == self.birthday_spec(),
    {
        self.birthday
    }

    pub fn get_last_scan(&self) -> (r: u32)
        ensures
            r == self.last_scan_spec(),
    {
        self.last_scan
    }

    pub fn len(&self) -> (r: usize)
        ensures
            r == self.outputs().len(),
    {
        self.entries.len()
    }

    /// Index of the entry keyed by `o`, if any.
    fn find(&self, o: &OutPoint) -> (r: Option<usize>)
        ensures
            match r {
                Some(i) => at_key(self.outputs(), o.key(), i as int),
                None => !has_key(self.outputs(), o.key()),
            },
    {
        let mut i: usize = 0;
        while i < self.entries.len()
            invariant
                i <= self.entries@.len(),
                forall|j: int| 0 <= j < i ==> !at_key(self.entries@, o.key(), j),
            decreases self.entries@.len() - i,
        {
            if self.entries[i].0.same_as(o) {
                return Some(i);
            }
            i = i + 1;
        }
        None
    }

    /// The output stored under `o`, if any.
    pub fn get(&self, o: &OutPoint) -> (r: Option<&OwnedOutput>)
        requires
            self.wf(),
        ensures
            match r {
                Some(out) => has_key(self.outputs(), o.key()) && *out == self.outputs()[index_of(self.outputs(), o.key())].1,
                None => !has_key(self.outputs(), o.key()),
            },
    {
        match self.find(o) {
            Some(i) => {
                proof {
                    lemma_index_of_unique(self.entries@, o.key(), i as int);
                }
                Some(&self.entries[i].1)
            },
            None => None,
        }
    }

    /// Whether an output is stored under `o`.
    pub fn contains(&self, o: &OutPoint) -> (r: bool)
        ensures
            r == has_key(self.outputs(), o.key()),
    {
        self.find(o).is_some()
    }

    /// Sets the birthday. Scanning never goes below it, so the last scanned
    /// height is raised to it where it was lower; the outputs stay.
    pub fn set_birthday(&mut self, h: u32)
        requires
            old(self).wf(),
        ensures
            final(self).wf(),
            final(self).birthday_spec() == h,
            final(self).last_scan_spec() == if h > old(self).last_scan_spec() { h } else { old(self).last_scan_spec() },
            final(self).outputs() == old(self).outputs(),
    {
        self.birthday = h;
        if h > self.last_scan {
            self.last_scan = h;
        }
    }

    /// Records that scanning has reached height `h`; the last scanned height
    /// never goes down.
    pub fn update_last_scan(&mut self, h: u32)
        requires
            old(self).wf(),
        ensures
            final(self).wf(),
            final(self).last_scan_spec() == if h > old(self).last_scan_spec() { h } else { old(self).last_scan_spec() },
            final(self).birthday_spec() == old(self).birthday_spec(),
            final(self).outputs() == old(self).outputs(),
    {
        if h > self.last_scan {
            self.last_scan = h;
        }
    }

    /// Forgets every output and sets the last scanned height back to the
    /// birthday, so that the next scan starts over from there.
    pub fn reset_to_birthday(&mut self)
        requires
            old(self).wf(),
        ensures
            final(self).wf(),
            final(self).outputs().len() == 0,
            final(self).birthday_spec() == old(self).birthday_spec(),
            final(self).last_scan_spec() == old(self).birthday_spec(),
            final(self).balance_spec() == 0,
    {
        self.entries = Vec::new();
        self.last_scan = self.birthday;
    }

    /// Adds an output found by a scan. Fails with `AlreadyExists` where the
    /// outpoint is stored already, and with `AmountOverflow` where the amounts
    /// would no longer sum to a 64-bit value.
    pub fn add_output(&mut self, o: OutPoint, out: OwnedOutput) -> (r: Result<(), WalletError>)
        requires
            old(self).wf(),
        ensures
            final(self).wf(),
            final(self).birthday_spec() == old(self).birthday_spec(),
            final(self).last_scan_spec() == old(self).last_scan_spec(),
            has_key(old(self).outputs(), o.key()) ==> r == Err::<(), WalletError>(WalletError::AlreadyExists),
            !has_key(old(self).outputs(), o.key()) && total(old(self).outputs()) + out.amount.0 > u64::MAX
                ==> r == Err::<(), WalletError>(WalletError::AmountOverflow),
            !has_key(old(self).outputs(), o.key()) && total(old(self).outputs()) + out.amount.0 <= u64::MAX
                ==> r == Ok::<(), WalletError>(()),
            r is Ok ==> final(self).outputs() == old(self).outputs().push((o, out)),
            r is Err ==> final(self).outputs() == old(self).outputs(),
    {
        if self.find(&o).is_some() {
            return Err(WalletError::AlreadyExists);
        }
        let t = self.total_amount();
        if out.amount.0 > u64::MAX - t {
            return Err(WalletError::AmountOverflow);
        }
        proof {
            lemma_totals_push(self.entries@, (o, out));
        }
        let ghost prev = self.entries@;
        self.entries.push((o, out));
        proof {
            assert forall|a: int, b: int|
                0 <= a < self.entries@.len() && 0 <= b < self.entries@.len() && a != b implies
                self.entries@[a].0.key() != self.entries@[b].0.key() by {
                if a < prev.len() && b < prev.len() {
                    assert(prev[a].0.key() != prev[b].0.key());
                } else if a < prev.len() {
                    assert(!at_key(prev, o.key(), a));
                } else {
                    assert(!at_key(prev, o.key(), b));
                }
            }
        }
        Ok(())
    }

    /// The sum of the amounts of all stored outputs, spent or not.
    fn total_amount(&self) -> (r: u64)
        requires
            self.wf(),
        ensures
            r == total(self.outputs()),
    {
        let mut sum: u64 = 0;
        let mut i: usize = 0;
        while i < self.entries.len()
            invariant
                self.wf(),
                i <= self.entries@.len(),
                sum == total(self.entries@.subrange(0, i as int)),
            decreases self.entries@.len() - i,
        {
            proof {
                assert(self.entries@.subrange(0, i + 1).drop_last() =~= self.entries@.subrange(0, i as int));
                lemma_prefix_totals(self.entries@, i + 1);
            }
            sum = sum + self.entries[i].1.amount.0;
            i = i + 1;
        }
        assert(self.entries@.subrange(0, i as int) =~= self.entries@);
        sum
    }

    /// The balance: the sum of the amounts of the unspent outputs.
    pub fn balance(&self) -> (r: Amount)
        requires
            self.wf(),
        ensures
            r.0 == self.balance_spec(),
    {
        let mut sum: u64 = 0;
        let mut i: usize = 0;
        while i < self.entries.len()
            invariant
                self.wf(),
                i <= self.entries@.len(),
                sum == unspent_total(self.entries@.subrange(0, i as int)),
            decreases self.entries@.len() - i,
        {
            proof {
                assert(self.entries@.subrange(0, i + 1).drop_last() =~= self.entries@.subrange(0, i as int));
                lemma_prefix_totals(self.entries@, i + 1);
                lemma_unspent_le_total(self.entries@.subrange(0, i + 1));
            }
            if let OutputSpendStatus::Unspent = self.entries[i].1.spend_status {
                sum = sum + self.entries[i].1.amount.0;
            }
            i = i + 1;
        }
        assert(self.entries@.subrange(0, i as int) =~= self.entries@);
        Amount(sum)
    }

    /// Marks the output under `o` as spent by `txid`. An unspent output
    /// becomes `Spent(txid)`. An output already spent by `txid` is left as it
    /// is where `final_` is set; any other output fails with `AlreadySpent`.
    /// Fails with `NotFound` where nothing is stored under `o`.
    pub fn mark_spent(&mut self, o: &OutPoint, txid: String, final_: bool) -> (r: Result<(), WalletError>)
        requires
            old(self).wf(),
        ensures
            final(self).wf(),
            final(self).birthday_spec() == old(self).birthday_spec(),
            final(self).last_scan_spec() == old(self).last_scan_spec(),
            (r, final(self).outputs()) == mark_spent_result(old(self).outputs(), o.key(), txid, final_),
    {
        let idx = self.find(o);
        match idx {
            None => Err(WalletError::NotFound),
            Some(i) => {
                let (allowed, same) = match &self.entries[i].1.spend_status {
                    OutputSpendStatus::Unspent => (true, false),
                    OutputSpendStatus::Spent(t) => (false, final_ && *t == txid),
                    OutputSpendStatus::Mined(_) => (false, false),
                };
                proof {
                    lemma_index_of_unique(self.entries@, o.key(), i as int);
                }
                if same {
                    return Ok(());
                }
                if !allowed {
                    return Err(WalletError::AlreadySpent);
                }
                let ghost prev = self.entries@;
                let (op, mut out) = self.entries.remove(i);
                out.spend_status = OutputSpendStatus::Spent(txid);
                self.entries.insert(i, (op, out));
                proof {
                    let v = (op, out);
                    assert(self.entries@ =~= prev.update(i as int, v));
                    lemma_totals_update(prev, i as int, v);
                    assert forall|a: int, b: int|
                        0 <= a < self.entries@.len() && 0 <= b < self.entries@.len() && a != b implies
                        self.entries@[a].0.key() != self.entries@[b].0.key() by {
                        assert(prev[a].0.key() != prev[b].0.key());
                    }
                    lemma_index_of_unique(prev, o.key(), i as int);
                }
                Ok(())
            },
        }
    }

    /// Records that the transaction `txid` was mined in `block`: every
    /// output it spent moves from `Spent(txid)` to `Mined(block)`. The
    /// balance does not change, as none of them was unspent.
    pub fn mark_mined(&mut self, txid: &String, block: String)
        requires
            old(self).wf(),
        ensures
            final(self).wf(),
            final(self).outputs() == mined_result(old(self).outputs(), txid@, block),
            final(self).balance_spec() == old(self).balance_spec(),
            final(self).birthday_spec() == old(self).birthday_spec(),
            final(self).last_scan_spec() == old(self).last_scan_spec(),
    {
        let ghost e0 = self.entries@;
        let mut i: usize = 0;
        while i < self.entries.len()
            invariant
                self.wf(),
                self.birthday_spec() == old(self).birthday_spec(),
                self.last_scan_spec() == old(self).last_scan_spec(),
                e0 == old(self).outputs(),
                self.entries@.len() == e0.len(),
                i <= e0.len(),
                unspent_total(self.entries@) == unspent_total(e0),
                forall|j: int| 0 <= j < i ==> self.entries@[j] == mined_result(e0, txid@, block)[j],
                forall|j: int| i <= j < e0.len() ==> self.entries@[j] == e0[j],
            decreases e0.len() - i,
        {
            let hit = match &self.entries[i].1.spend_status {
                OutputSpendStatus::Spent(t) => *t == *txid,
                _ => false,
            };
            if hit {
                let ghost prev = self.entries@;
                let (op, mut out) = self.entries.remove(i);
                out.spend_status = OutputSpendStatus::Mined(block.clone());
                self.entries.insert(i, (op, out));
                proof {
                    let v = (op, out);
                    assert(self.entries@ =~= prev.update(i as int, v));
                    lemma_totals_update(prev, i as int, v);
                    assert forall|a: int, b: int|
                        0 <= a < self.entries@.len() && 0 <= b < self.entries@.len() && a != b implies
                        self.entries@[a].0.key() != self.entries@[b].0.key() by {
                        assert(prev[a].0.key() != prev[b].0.key());
                    }
                }
            }
            i = i + 1;
        }
        assert(self.entries@ =~= mined_result(e0, txid@, block));
    }

    /// Copies of the entries, all or the unspent ones only, in store order.
    fn list(&self, unspent_only: bool) -> (r: Vec<Entry>)
        ensures
            r@ == if unspent_only { unspent_entries(self.outputs()) } else { self.outputs() },
    {
        let mut res: Vec<Entry> = Vec::new();
        let mut i: usize = 0;
        while i < self.entries.len()
            invariant
                i <= self.entries@.len(),
                res@ == if unspent_only {
                    unspent_entries(self.entries@.subrange(0, i as int))
                } else {
                    self.entries@.subrange(0, i as int)
                },
            decreases self.entries@.len() - i,
        {
            let ghost before = res@;
            let e = &self.entries[i];
            let keep = !unspent_only || matches!(e.1.spend_status, OutputSpendStatus::Unspent);
            if keep {
                res.push((e.0, e.1.duplicate()));
            }
            proof {
                let s = self.entries@.subrange(0, i + 1);
                assert(s.drop_last() =~= self.entries@.subrange(0, i as int));
                if unspent_only {
                    reveal(Seq::filter);
                    assert(unspent_entries(s) =~= if keep { before.push(s.last()) } else { before });
                } else {
                    assert(res@ =~= s);
                }
            }
            i = i + 1;
        }
        assert(self.entries@.subrange(0, i as int) =~= self.entries@);
        res
    }

    /// The unspent outputs, in store order.
    pub fn spendable_list(&self) -> (r: Vec<Entry>)
        ensures
            r@ == unspent_entries(self.outputs()),
    {
        self.list(true)
    }

    /// Every stored output, whatever its status, in store order.
    pub fn all_list(&self) -> (r: Vec<Entry>)
        ensures
            r@ == self.outputs(),
    {
        self.list(false)
    }

    /// The balance, the birthday and the last scanned height.
    pub fn status(&self) -> (r: WalletStatus)
        requires
            self.wf(),
        ensures
            r.amount == self.balance_spec(),
            r.birthday == self.birthday_spec(),
            r.scan_height == self.last_scan_spec(),
    {
        WalletStatus { amount: self.balance().0, birthday: self.birthday, scan_height: self.last_scan }
    }
}

} // verus!
