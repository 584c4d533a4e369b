use vstd::prelude::*;

verus! {

/// Id of the transaction that spends an output, as hex text.
pub type SpendingTxId = String;

/// Hash of the block in which the spending transaction was mined, as hex text.
pub type MinedInBlock = String;

/// Where an owned output stands in its spend lifecycle.
#[derive(Debug, Clone)]
pub enum OutputSpendStatus {
    Unspent,
    Spent(SpendingTxId),
    Mined(MinedInBlock),
}

/// An amount of satoshis.
#[derive(Debug, Clone, Copy, PartialEq, Eq, Structural)]
pub struct Amount(pub u64);

/// An output that the wallet owns.
#[derive(Debug, Clone)]
pub struct OwnedOutput {
    pub blockheight: u32,
    pub tweak: String,
    pub amount: Amount,
    pub script: String,
    pub label: Option<String>,
    pub spend_status: OutputSpendStatus,
}

impl OutputSpendStatus {
    /// A copy of this status.
    pub fn duplicate(&self) -> (r: OutputSpendStatus)
        ensures
            r == *self,
    {
        match self {
            OutputSpendStatus::Unspent => OutputSpendStatus::Unspent,
            OutputSpendStatus::Spent(t) => OutputSpendStatus::Spent(t.clone()),
            OutputSpendStatus::Mined(b) => OutputSpendStatus::Mined(b.clone()),
        }
    }
}

impl OwnedOutput {
    /// A copy of this output.
    pub fn duplicate(&self) -> (r: OwnedOutput)
        ensures
            r == *self,
    {
        let label = match &self.label {
            Some(l) => Some(l.clone()),
            None => None,
        };
        OwnedOutput {
            blockheight: self.blockheight,
            tweak: self.tweak.clone(),
            amount: self.amount,
            script: self.script.clone(),
            label,
            spend_status: self.spend_status.duplicate(),
        }
    }
}

/// A payee of a new transaction: a legacy or a silent-payment address.
/// A legacy address receives exactly one output.
#[derive(Debug, Clone)]
pub struct Recipient {
    pub address: String,
    pub amount: Amount,
    pub nb_outputs: u32,
}

/// Summary of a wallet: its unspent balance and scan bookkeeping.
#[derive(Debug, Clone, Copy, PartialEq, Eq, Structural)]
pub struct WalletStatus {
    pub amount: u64,
    pub birthday: u32,
    pub scan_height: u32,
}

/// How a wallet is set up: a fresh mnemonic, a restored mnemonic, a pair of
/// secret keys (scan, spend) or a watch-only pair (scan secret, spend public).
#[derive(Debug, Clone)]
pub enum WalletType {
    New,
    Mnemonic(String),
    PrivateKeys(String, String),
    WatchOnly(String, String),
}

impl WalletType {
    /// Whether a wallet of this kind can sign: every kind but watch-only.
    pub fn can_sign(&self) -> (r: bool)
        ensures
            r == !(self is WatchOnly),
    {
        match self {
            WalletType::WatchOnly(_, _) => false,
            _ => true,
        }
    }
}

/// A reference to a transaction output: the transaction id and the index.
#[derive(Debug, Clone, Copy)]
pub struct OutPoint {
    pub txid: [u8; 32],
    pub vout: u32,
}

impl OutPoint {
    pub open spec fn key(self) -> (Seq<u8>, u32) {
        (self.txid@, self.vout)
    }

    /// Whether two outpoints name the same output.
    pub fn same_as(&self, other: &OutPoint) -> (r: bool)
        ensures
            r == (self.key() == other.key()),
    {
        if self.vout != other.vout {
            return false;
        }
        let mut i: usize = 0;
        while i < 32
            invariant
                i <= 32,
                self.txid@.len() == 32,
                other.txid@.len() == 32,
                forall|j: int| 0 <= j < i ==> self.txid@[j] == other.txid@[j],
            decreases 32 - i,
        {
            if self.txid[i] != other.txid[i] {
                return false;
            }
            i = i + 1;
        }
        assert(self.txid@ =~= other.txid@);
        true
    }
}

} // verus!
