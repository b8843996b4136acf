use vstd::prelude::*;

verus! {

/// Failure modes of the vault accounting core.
///
/// Every operation either commits all of its state changes or returns one
/// of these and changes nothing: no partial effect is ever observable.
#[derive(Clone, Copy, Debug, PartialEq, Eq, Structural)]
pub enum VaultError {
    /// A zero amount or zero share count was supplied.
    InvalidInput,
    /// The deposit is so small that pro-rata math would mint zero shares;
    /// accepting it would dilute existing holders for free.
    ZeroShares,
    /// A withdrawal request asked for more shares than the caller holds.
    InsufficientBalance,
    /// The withdrawal request has already been settled; a settled request
    /// is terminal.
    AlreadyProcessed,
    /// The request was filed in the current epoch; settlement must wait
    /// until at least one epoch advance has passed.
    EpochNotSettled,
    /// A checked arithmetic step would overflow.
    Overflow,
    /// The new notional exposure would exceed the pool's utilization cap.
    ExceedsUtilizationCap,
    /// The external asset-transfer collaborator failed. Reported by the
    /// embedding that performs transfers, never by the core itself.
    TransferFailed,
}

} // verus!
