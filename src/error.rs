use vstd::prelude::*;

verus! {

/// Why an operation of the organization was refused.
#[derive(Clone, Copy, Debug, PartialEq, Eq, Structural)]
pub enum DaoError {
    /// The supplied proof resource, amount or role does not satisfy the policy.
    Authorization,
    /// The treasury holds less than the operation needs.
    InsufficientFunds,
    /// A payment is smaller than the price asked.
    InsufficientPayment,
    /// A vault or bucket holds less than the amount to take from it.
    InsufficientBalance,
    /// The voter has already voted on this proposal.
    DuplicateVote,
    /// The executive has already answered this withdrawal request.
    DuplicateResponse,
    /// The proposal's voting period has not ended yet.
    TooEarly,
    /// The bond's maturity date has not passed yet.
    MaturityNotReached,
    /// No proposal with this id, or no bond issued by this address.
    ReferenceNotFound,
    /// A field that the proposal kind needs is absent.
    MissingField,
    /// The requested withdrawal is above the cap of the requester's investment.
    ExceedsCap,
    /// The requester has never invested.
    NoInvestmentRecord,
    /// The caller is not one of the executives.
    NotExecutive,
    /// No pending withdrawal request has this id.
    UnknownRequest,
    /// An asset of the wrong resource, or of the wrong size, was supplied.
    InvalidAsset,
    /// An amount is not acceptable for the resource (not whole, or negative supply).
    InvalidAmount,
    /// Governance tokens cannot be sold back while proposals are active.
    ActiveProposals,
    /// An amount would leave the range that a `Decimal` can hold.
    Overflow,
}

} // verus!
