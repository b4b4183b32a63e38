//! The escrow auction state machine.
//!
//! One `Auction` record exists per listed asset. It is created by [`exhibit`],
//! mutated only by [`bid`], and ended by [`cancel`] or [`close`], which are
//! mutually exclusive terminal transitions (the caller destroys the record
//! after either returns a plan). While `highest_bidder == exhibitor` no real
//! bid has occurred: the exhibitor is the sentinel bidder. The price increases
//! strictly on each accepted bid and `end_at` is never mutated after creation.
//!
//! Each operation validates, and either returns the exact custody plan to
//! execute (with the state change applied) or a typed error with the state
//! untouched.

use vstd::prelude::*;
use crate::ids::{AccountId, TokenHolding};
use crate::errors::ErrorCode;
use crate::custody::{Custodian, CustodyOp, delegate_and_deposit, release, close_holding};

verus! {

/// The auction record, one per listed asset.
#[derive(Clone, Debug, PartialEq)]
pub struct Auction {
    /// The party that listed the asset.
    pub exhibitor: AccountId,
    /// The ledger holding record that escrows the one unit of the asset.
    pub asset_custody_ref: AccountId,
    /// The exhibitor's payout destination for the winning funds.
    pub proceeds_ref: AccountId,
    /// The current highest bid; the reservation price until a real bid lands.
    pub price: u64,
    /// When bidding ends; set once at creation, never mutated.
    pub end_at: i64,
    /// The current top bidder; equal to `exhibitor` while no real bid exists.
    pub highest_bidder: AccountId,
    /// The holding record that escrows the top bidder's funds.
    pub highest_bidder_funds_ref: AccountId,
    /// Where the top bidder's funds go back to when they are outbid.
    pub highest_bidder_refund_ref: AccountId,
}

impl Auction {
    /// The sentinel state: no real bid has been accepted yet.
    pub open spec fn no_real_bid(self) -> bool {
        self.highest_bidder == self.exhibitor
    }
}

/// The accounts a bidder supplies alongside a new price.
pub struct BidRequest {
    /// The bidder placing the bid.
    pub bidder: AccountId,
    /// The bidder's funds holding the bid is paid from.
    pub funds_source: TokenHolding,
    /// The fresh temporary holding that will escrow the bid.
    pub funds_temp: AccountId,
    /// The currently stored top bidder, as observed by the caller.
    pub prev_bidder: AccountId,
    /// The currently escrowing funds holding, as observed by the caller.
    pub prev_funds_ref: AccountId,
    /// The refund destination of the current top bidder, as observed.
    pub prev_refund_ref: AccountId,
    /// The offered price.
    pub new_price: u64,
}

/// Creates the auction: delegates custody of the temporary asset holding to
/// the program custodian, then moves exactly one unit of the asset into it.
/// Fails if the exhibitor's source holding does not contain exactly one unit.
///
/// The new record starts in the sentinel state: the exhibitor stands as its
/// own highest bidder at the reservation price, and `end_at` is fixed to
/// `now + duration`.
pub fn exhibit(
    exhibitor: AccountId,
    asset_source: &TokenHolding,
    asset_custody_ref: AccountId,
    proceeds_ref: AccountId,
    custodian: &Custodian,
    initial_price: u64,
    now: i64,
    duration: u64,
) -> (r: Result<(Auction, Vec<CustodyOp>), ErrorCode>)
    requires
        duration <= i64::MAX,
        now + duration <= i64::MAX,
    ensures
        asset_source.amount != 1 ==> r == Err::<(Auction, Vec<CustodyOp>), ErrorCode>(
            ErrorCode::InvalidNFTOwnership,
        ),
        asset_source.amount == 1 ==> {
            &&& r is Ok
            &&& r->Ok_0.0 == (Auction {
                exhibitor,
                asset_custody_ref,
                proceeds_ref,
                price: initial_price,
                end_at: (now + duration) as i64,
                highest_bidder: exhibitor,
                highest_bidder_funds_ref: proceeds_ref,
                highest_bidder_refund_ref: proceeds_ref,
            })
            &&& r->Ok_0.0.no_real_bid()
            &&& r->Ok_0.1@ == seq![
                (CustodyOp::DelegateAuthority {
                    holding: asset_custody_ref,
                    new_authority: custodian.authority,
                }),
                (CustodyOp::Deposit {
                    source: asset_source.address,
                    temp_holding: asset_custody_ref,
                    amount: 1u64,
                }),
            ]
        },
{
    if asset_source.amount != 1 {
        return Err(ErrorCode::InvalidNFTOwnership);
    }
    let auction = Auction {
        exhibitor,
        asset_custody_ref,
        proceeds_ref,
        price: initial_price,
        end_at: now + duration as i64,
        highest_bidder: exhibitor,
        highest_bidder_funds_ref: proceeds_ref,
        highest_bidder_refund_ref: proceeds_ref,
    };
    let ops = delegate_and_deposit(asset_source.address, asset_custody_ref, custodian, 1);
    Ok((auction, ops))
}

/// Whether a bid request passes every guard against the given auction state.
pub open spec fn bid_accepted(auction: Auction, req: BidRequest, now: i64) -> bool {
    &&& req.funds_source.amount >= req.new_price
    &&& req.prev_bidder != req.bidder
    &&& auction.highest_bidder == req.prev_bidder
    &&& auction.highest_bidder_funds_ref == req.prev_funds_ref
    &&& auction.highest_bidder_refund_ref == req.prev_refund_ref
    &&& auction.price < req.new_price
    &&& auction.end_at > now
}

/// The error an unaccepted bid fails with: the first guard that does not
/// hold, in the order the guards are checked.
pub open spec fn bid_error(auction: Auction, req: BidRequest, now: i64) -> ErrorCode {
    if req.funds_source.amount < req.new_price {
        ErrorCode::InsufficientFunds
    } else if req.prev_bidder == req.bidder {
        ErrorCode::SelfBid
    } else if auction.highest_bidder != req.prev_bidder
        || auction.highest_bidder_funds_ref != req.prev_funds_ref
        || auction.highest_bidder_refund_ref != req.prev_refund_ref {
        ErrorCode::AccountMismatch
    } else if auction.price >= req.new_price {
        ErrorCode::BidTooLow
    } else {
        ErrorCode::AuctionExpired
    }
}

/// The custody plan of an accepted bid: refund the outbid party first (skipped
/// in the sentinel state), then escrow the new bid.
pub open spec fn bid_plan(auction: Auction, req: BidRequest, custodian: Custodian) -> Seq<
    CustodyOp,
> {
    let escrow = seq![
        (CustodyOp::DelegateAuthority { holding: req.funds_temp, new_authority: custodian.authority }),
        (CustodyOp::Deposit {
            source: req.funds_source.address,
            temp_holding: req.funds_temp,
            amount: req.new_price,
        }),
    ];
    if auction.no_real_bid() {
        escrow
    } else {
        seq![
            (CustodyOp::Release {
                temp_holding: auction.highest_bidder_funds_ref,
                destination: auction.highest_bidder_refund_ref,
                amount: auction.price,
            }),
            (CustodyOp::CloseHolding {
                temp_holding: auction.highest_bidder_funds_ref,
                destination: auction.highest_bidder,
            }),
        ] + escrow
    }
}

/// Accepts a bid iff it is strictly higher than the current price, arrives
/// before `end_at`, does not come from the current top bidder, and names the
/// stored accounts exactly. On acceptance the previous real bid (if any) is
/// refunded and its escrow closed, the new bid is escrowed, and the record's
/// price and bidder references are replaced. A rejected bid fails with the
/// first failing guard's error and mutates nothing.
pub fn bid(
    auction: &mut Auction,
    req: &BidRequest,
    custodian: &Custodian,
    now: i64,
) -> (r: Result<Vec<CustodyOp>, ErrorCode>)
    ensures
        r is Ok <==> bid_accepted(*old(auction), *req, now),
        r is Err ==> *final(auction) == *old(auction) && r->Err_0 == bid_error(
            *old(auction),
            *req,
            now,
        ),
        r is Ok ==> {
            &&& r->Ok_0@ == bid_plan(*old(auction), *req, *custodian)
            &&& *final(auction) == (Auction {
                price: req.new_price,
                highest_bidder: req.bidder,
                highest_bidder_funds_ref: req.funds_temp,
                highest_bidder_refund_ref: req.funds_source.address,
                ..*old(auction)
            })
            &&& final(auction).price > old(auction).price
            &&& final(auction).end_at == old(auction).end_at
        },
{
    if req.funds_source.amount < req.new_price {
        return Err(ErrorCode::InsufficientFunds);
    }
    if req.prev_bidder == req.bidder {
        return Err(ErrorCode::SelfBid);
    }
    if auction.highest_bidder != req.prev_bidder || auction.highest_bidder_funds_ref
        != req.prev_funds_ref || auction.highest_bidder_refund_ref != req.prev_refund_ref {
        return Err(ErrorCode::AccountMismatch);
    }
    if auction.price >= req.new_price {
        return Err(ErrorCode::BidTooLow);
    }
    if auction.end_at <= now {
        return Err(ErrorCode::AuctionExpired);
    }
    let mut ops: Vec<CustodyOp> = Vec::new();
    if auction.highest_bidder != auction.exhibitor {
        ops.push(release(
            auction.highest_bidder_funds_ref,
            auction.highest_bidder_refund_ref,
            auction.price,
        ));
        ops.push(close_holding(auction.highest_bidder_funds_ref, auction.highest_bidder));
    }
    let mut escrow = delegate_and_deposit(
        req.funds_source.address,
        req.funds_temp,
        custodian,
        req.new_price,
    );
    ops.append(&mut escrow);
    auction.price = req.new_price;
    auction.highest_bidder = req.bidder;
    auction.highest_bidder_funds_ref = req.funds_temp;
    auction.highest_bidder_refund_ref = req.funds_source.address;
    proof {
        assert(ops@ =~= bid_plan(*old(auction), *req, *custodian));
    }
    Ok(ops)
}

/// Whether a cancel request passes every guard.
pub open spec fn cancel_accepted(auction: Auction, caller: AccountId, asset_temp: TokenHolding) -> bool {
    &&& auction.exhibitor == caller
    &&& auction.no_real_bid()
    &&& auction.asset_custody_ref == asset_temp.address
}

/// The error a refused cancel fails with, in check order.
pub open spec fn cancel_error(auction: Auction, caller: AccountId, asset_temp: TokenHolding) -> ErrorCode {
    if auction.exhibitor != caller {
        ErrorCode::UnauthorizedCaller
    } else if !auction.no_real_bid() {
        ErrorCode::AuctionHasBid
    } else {
        ErrorCode::AccountMismatch
    }
}

/// Cancels an auction that has no real bid: returns the escrowed asset to
/// the exhibitor's own asset holding and closes the escrow holding. Only the exhibitor may cancel, and
/// only while the sentinel state holds; after any accepted real bid the
/// cancel fails. On success the caller destroys the record: cancel and close
/// are mutually exclusive terminal transitions.
pub fn cancel(
    auction: &Auction,
    caller: AccountId,
    asset_temp: &TokenHolding,
    asset_dest: AccountId,
) -> (r: Result<Vec<CustodyOp>, ErrorCode>)
    ensures
        r is Ok <==> cancel_accepted(*auction, caller, *asset_temp),
        r is Err ==> r->Err_0 == cancel_error(*auction, caller, *asset_temp),
        r is Ok ==> r->Ok_0@ == seq![
            (CustodyOp::Release {
                temp_holding: auction.asset_custody_ref,
                destination: asset_dest,
                amount: asset_temp.amount,
            }),
            (CustodyOp::CloseHolding {
                temp_holding: auction.asset_custody_ref,
                destination: auction.exhibitor,
            }),
        ],
{
    if auction.exhibitor != caller {
        return Err(ErrorCode::UnauthorizedCaller);
    }
    if auction.highest_bidder != auction.exhibitor {
        return Err(ErrorCode::AuctionHasBid);
    }
    if auction.asset_custody_ref != asset_temp.address {
        return Err(ErrorCode::AccountMismatch);
    }
    let mut ops: Vec<CustodyOp> = Vec::new();
    ops.push(release(auction.asset_custody_ref, asset_dest, asset_temp.amount));
    ops.push(close_holding(auction.asset_custody_ref, auction.exhibitor));
    Ok(ops)
}

/// The accounts supplied to a close.
pub struct CloseRequest {
    /// The caller, who must be the stored highest bidder.
    pub caller: AccountId,
    /// The stored exhibitor, as observed by the caller.
    pub exhibitor: AccountId,
    /// The escrowed asset holding.
    pub asset_temp: TokenHolding,
    /// The exhibitor's payout destination.
    pub proceeds_dest: AccountId,
    /// The escrowed winning-funds holding.
    pub funds_temp: TokenHolding,
    /// Where the winner receives the asset.
    pub asset_dest: AccountId,
}

/// Whether a close request passes every guard: the auction has ended, the
/// caller is the stored highest bidder, and every referenced account matches
/// the stored identifier exactly (defense against substitution).
pub open spec fn close_accepted(auction: Auction, req: CloseRequest, now: i64) -> bool {
    &&& auction.exhibitor == req.exhibitor
    &&& auction.asset_custody_ref == req.asset_temp.address
    &&& auction.proceeds_ref == req.proceeds_dest
    &&& auction.highest_bidder == req.caller
    &&& auction.highest_bidder_funds_ref == req.funds_temp.address
    &&& auction.end_at <= now
}

/// The error a refused close fails with, in check order.
pub open spec fn close_error(auction: Auction, req: CloseRequest, now: i64) -> ErrorCode {
    if auction.exhibitor != req.exhibitor || auction.asset_custody_ref != req.asset_temp.address
        || auction.proceeds_ref != req.proceeds_dest {
        ErrorCode::AccountMismatch
    } else if auction.highest_bidder != req.caller {
        ErrorCode::UnauthorizedCaller
    } else if auction.highest_bidder_funds_ref != req.funds_temp.address {
        ErrorCode::AccountMismatch
    } else {
        ErrorCode::AuctionNotExpired
    }
}

/// Settles an ended auction: swaps the escrowed asset to the winner and the
/// escrowed winning funds to the exhibitor's payout destination, then closes
/// both temporary holdings. Valid only once `now >= end_at`, for the stored
/// highest bidder, with every referenced account matching. When no real bid
/// occurred the winner is the sentinel exhibitor: the plan degenerates to
/// returning the asset to its own owner with zero funds moved. On success the
/// caller destroys the record.
pub fn close(
    auction: &Auction,
    req: &CloseRequest,
    now: i64,
) -> (r: Result<Vec<CustodyOp>, ErrorCode>)
    ensures
        r is Ok <==> close_accepted(*auction, *req, now),
        r is Err ==> r->Err_0 == close_error(*auction, *req, now),
        r is Ok ==> r->Ok_0@ == seq![
            (CustodyOp::Release {
                temp_holding: auction.asset_custody_ref,
                destination: req.asset_dest,
                amount: req.asset_temp.amount,
            }),
            (CustodyOp::Release {
                temp_holding: auction.highest_bidder_funds_ref,
                destination: auction.proceeds_ref,
                amount: req.funds_temp.amount,
            }),
            (CustodyOp::CloseHolding {
                temp_holding: auction.highest_bidder_funds_ref,
                destination: auction.highest_bidder,
            }),
            (CustodyOp::CloseHolding {
                temp_holding: auction.asset_custody_ref,
                destination: auction.exhibitor,
            }),
        ],
{
    if auction.exhibitor != req.exhibitor || auction.asset_custody_ref != req.asset_temp.address
        || auction.proceeds_ref != req.proceeds_dest {
        return Err(ErrorCode::AccountMismatch);
    }
    if auction.highest_bidder != req.caller {
        return Err(ErrorCode::UnauthorizedCaller);
    }
    if auction.highest_bidder_funds_ref != req.funds_temp.address {
        return Err(ErrorCode::AccountMismatch);
    }
    if auction.end_at > now {
        return Err(ErrorCode::AuctionNotExpired);
    }
    let mut ops: Vec<CustodyOp> = Vec::new();
    ops.push(release(auction.asset_custody_ref, req.asset_dest, req.asset_temp.amount));
    ops.push(release(auction.highest_bidder_funds_ref, auction.proceeds_ref, req.funds_temp.amount));
    ops.push(close_holding(auction.highest_bidder_funds_ref, auction.highest_bidder));
    ops.push(close_holding(auction.asset_custody_ref, auction.exhibitor));
    Ok(ops)
}

} // verus!
