//! Typed failures. Every operation of the engine returns one of these instead
//! of panicking; no partial state is committed on failure.

use vstd::prelude::*;

verus! {

/// The failure taxonomy: validation (malformed configuration, mismatched
/// accounts), authorization (the caller is not the stored authority, bidder or
/// exhibitor), state (expiry, immutability, an already-placed bid), arithmetic
/// (overflow or underflow in a share computation) and resource (insufficient
/// funds, wrong asset type).
#[derive(Clone, Copy, Debug, PartialEq, Eq, Structural)]
pub enum ErrorCode {
    InvalidNFTOwnership,
    InvalidNFTMetadata,
    UnauthorizedPlayback,
    InvalidMusicTrack,
    InvalidMetadataProgram,
    AuthorizationExpired,
    InvalidRoyaltyConfig,
    RoyaltyBasisPointsExceedMax,
    TooManyRoyaltyRecipients,
    RoyaltyBasisPointsMismatch,
    UnauthorizedRoyaltyUpdate,
    ImmutableRoyaltyConfig,
    InvalidTokenAccount,
    ArithmeticOverflow,
    InsufficientFunds,
    SalePriceTooLow,
    InvalidRecipientAccount,
    MissingExpectedAccount,
    TokenMintMismatch,
    /// A bid no higher than the current price.
    BidTooLow,
    /// A bid arriving at or after the auction's end.
    AuctionExpired,
    /// A close attempted before the auction's end.
    AuctionNotExpired,
    /// A bid by the party that already holds the highest bid.
    SelfBid,
    /// A cancel attempted after a real bid was accepted.
    AuctionHasBid,
    /// A caller that is not the party the operation is reserved to.
    UnauthorizedCaller,
    /// A supplied account differing from the stored identifier.
    AccountMismatch,
}

} // verus!
