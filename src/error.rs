use vstd::prelude::*;

verus! {

/// Failures of wallet operations.
#[derive(Debug, Clone, Copy, PartialEq, Eq, Structural)]
pub enum WalletError {
    /// Malformed text: an outpoint, an address or a number.
    ParseError,
    /// No output or record under the given key.
    NotFound,
    /// An output or record is already present under the given key.
    AlreadyExists,
    /// The output is no longer unspent.
    AlreadySpent,
    /// The recipient at this index is not acceptable.
    InvalidRecipient(usize),
    /// The inputs fall short of the recipients by this many satoshis.
    InsufficientFunds(u64),
    /// The input at this index is not a known unspent output.
    UnknownInput(usize),
    /// The fee asked for would exceed the payer's output.
    FeeExceedsOutput,
    /// A sum of amounts does not fit in 64 bits.
    AmountOverflow,
    /// The partially signed transaction does not give a valid transaction:
    /// input values are missing, or the fee is negative or absurd.
    NotExtractable,
    /// An input of the partially signed transaction has no final signature
    /// data yet.
    NotFinalized,
    /// A one-time output key could not be formed.
    TweakError,
    /// The text is no silent-payment or legacy address.
    AddressFormatError,
}

} // verus!
