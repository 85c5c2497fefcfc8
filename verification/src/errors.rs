//! The errors with which an operation is refused.

use vstd::prelude::*;

verus! {

/// Why an operation was refused. A refused operation changes nothing.
#[derive(Clone, Copy, Debug, PartialEq, Eq, Structural)]
pub enum ErrorCode {
    /// The protocol is currently paused.
    ProtocolPaused,
    /// The asset is not enabled for trading.
    AssetNotEnabled,
    /// Not enough available balance to cover the amount asked for.
    InsufficientLiquidity,
    /// The quote's expiry is not in the future.
    QuoteExpired,
    /// The quote is not active.
    QuoteNotActive,
    /// No strike entry of the quote has the requested strike price.
    StrikePriceNotFound,
    /// Contract size below the quote's minimum.
    ContractSizeTooSmall,
    /// Contract size above the quote's maximum.
    ContractSizeTooLarge,
    /// The position has not reached its expiry.
    PositionNotExpired,
    /// The position is not active.
    PositionNotActive,
    /// The position has already been settled. Kept for callers that know
    /// the code; settling a settled position is refused with
    /// `PositionNotActive`.
    PositionAlreadySettled,
    /// The oracle update is too old, or could not be read.
    PriceTooStale,
    /// The oracle update is for another feed than the asset's.
    PythFeedIdMismatch,
    /// Minimum strike percentage not below the maximum.
    InvalidStrikeRange,
    /// Minimum expiry not below the maximum.
    InvalidExpiryRange,
    /// An amount or counter left the range of its integer type.
    MathOverflow,
    /// The signer is not the authority that the record requires.
    Unauthorized,
    /// The market maker is not active.
    MarketMakerNotActive,
    /// More strike entries than a quote may carry.
    TooManyStrikes,
    /// Size range with a zero minimum or a maximum below the minimum.
    InvalidQuoteParameters,
    /// The confirmation window of the request has passed.
    RequestExpired,
    /// The request is not pending.
    RequestNotPending,
    /// The confirmation window of the request has not passed yet.
    RequestNotExpired,
    /// The request names another market maker.
    UnauthorizedConfirmation,
}

/// How an operation on the records `S` ends, given its `outcome`: carried out
/// in full, so that the records are those of the outcome and `r` is `Ok`; or
/// refused, so that the records are as before and `r` is the error.
pub open spec fn carried_out<S>(
    outcome: Result<S, ErrorCode>,
    before: S,
    after: S,
    r: Result<(), ErrorCode>,
) -> bool {
    match outcome {
        Ok(next) => after == next && r is Ok,
        Err(e) => after == before && r == Err::<(), ErrorCode>(e),
    }
}

/// As `carried_out`, for an operation that also hands back a value `V`.
pub open spec fn carried_out_with<S, V>(
    outcome: Result<(S, V), ErrorCode>,
    before: S,
    after: S,
    r: Result<V, ErrorCode>,
) -> bool {
    match outcome {
        Ok((next, value)) => after == next && r == Ok::<V, ErrorCode>(value),
        Err(e) => after == before && r == Err::<V, ErrorCode>(e),
    }
}

} // verus!
