//! Error taxonomy for the transaction builder.

use vstd::prelude::*;

verus! {

/// The input field an input error refers to.
#[derive(Clone, Copy, PartialEq, Eq, Structural, Debug)]
pub enum Field {
    Validator,
    Delegate,
    Administrator,
    TransactionId,
    OutputIndex,
    Quorum,
}

/// Every failure the builder can surface. Input errors are detected before
/// any build attempt; the others abort the operation with no partial
/// artifact.
#[derive(Clone, Copy, PartialEq, Eq, Structural, Debug)]
pub enum Error {
    /// A hex-encoded argument holds a non-digit or has an odd length.
    FailedToDecodeHexString(Field),
    /// An output reference is not of the form `tx_id#index`.
    MalformedOutputReference,
    /// An integer argument is empty, non-decimal, or out of range.
    FailedToDecodeInt(Field),
    /// The delegate list is empty.
    NoDelegates,
    /// The quorum is zero or exceeds the number of delegates.
    QuorumOutOfRange,
    /// A value subtraction would not leave a positive coin remainder.
    InsufficientFunds,
    /// Quantity or fee arithmetic left the representable range.
    NumericOverflow,
    /// A contract-custodied value carries no state token.
    NoStateToken,
    /// The minting transaction has no non-void certificate redeemer.
    NoMintingRedeemer,
    /// The fuel address is not a key-locked payment address.
    UnsupportedAddress,
    /// The external script evaluator rejected the candidate transaction.
    EvaluationFailed,
    /// The fee / execution-unit search did not converge within its attempt
    /// budget.
    DidNotConverge,
}

} // verus!
