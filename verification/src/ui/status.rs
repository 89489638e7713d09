use vstd::prelude::*;

verus! {

/// Progress of a transaction or faucet request, as the interface reports it.
pub enum TxStatus {
    Waiting,
    /// The account's sequence number is being fetched to build a transaction.
    FetchingSequence,
    Submitting,
    CallingFaucet,
    Success(String),
    Error(String),
    FaucetSuccess(String),
}

} // verus!
