//! The settlement executor: plans a direct sale with royalty distribution.
//!
//! Independent of the auction flow. The executor validates every account
//! before any transfer is planned, computes the batched royalty payouts, and
//! returns the exact ordered transfer plan: one transfer per batched
//! recipient, then the residual to the seller. The plan always moves exactly
//! the sale price; the rounding dust of the per-recipient floor divisions is
//! absorbed into the seller's residual, never redistributed.

use vstd::prelude::*;
use crate::ids::{AccountId, TokenHolding};
use crate::errors::ErrorCode;
use crate::royalty::{
    RoyaltyConfig,
    RoyaltyRecipient,
    BASIS_POINT_DENOMINATOR,
    spec_royalty_amount,
    spec_batch,
    batched_total,
    payout_view,
    payee_from,
    sum_bp,
    sum_shares,
    calculate_royalty_amount,
    batch_royalty_recipients,
    lemma_royalty_amount_bounded,
    lemma_sum_shares_le,
    lemma_batched_total_is_sum_shares,
    lemma_batch_entries_positive,
    lemma_batch_payees_from_recipients,
    lemma_batched_total_nonneg,
};

verus! {

/// One planned transfer: `amount` units move from `from` to `to`.
#[derive(Clone, Copy, Debug, PartialEq)]
pub struct TransferStep {
    pub from: AccountId,
    pub to: AccountId,
    pub amount: u64,
}

/// The whole-number view of a transfer plan.
pub open spec fn plan_view(plan: Seq<TransferStep>) -> Seq<(AccountId, AccountId, int)> {
    plan.map_values(|t: TransferStep| (t.from, t.to, t.amount as int))
}

/// The total amount a plan moves.
pub open spec fn plan_total(plan: Seq<TransferStep>) -> int
    decreases plan.len(),
{
    if plan.len() == 0 {
        0
    } else {
        plan_total(plan.drop_last()) + plan.last().amount
    }
}

/// The index of the last recipient naming `who`, or -1. Where two recipients
/// share a destination, the account supplied for the later one is the one
/// paid, as with a map filled in list order.
pub open spec fn last_recipient_index(rs: Seq<RoyaltyRecipient>, who: AccountId) -> int
    decreases rs.len(),
{
    if rs.len() == 0 {
        -1
    } else if rs.last().recipient == who {
        rs.len() - 1
    } else {
        last_recipient_index(rs.drop_last(), who)
    }
}

/// `last_recipient_index` finds the last matching recipient.
pub proof fn lemma_last_recipient_index(rs: Seq<RoyaltyRecipient>, who: AccountId)
    requires
        payee_from(rs, who),
    ensures
        0 <= last_recipient_index(rs, who) < rs.len(),
        rs[last_recipient_index(rs, who)].recipient == who,
    decreases rs.len(),
{
    if rs.last().recipient == who {
    } else {
        let w = choose|i: int| 0 <= i < rs.len() && rs[i].recipient == who;
        assert(rs.drop_last()[w] == rs[w]);
        lemma_last_recipient_index(rs.drop_last(), who);
    }
}

/// The account checks run before any computation: the seller holds exactly
/// the one unit of the asset, the configuration belongs to the asset, and
/// the buyer owns the paying holding.
pub open spec fn sale_accounts_ok(
    config: RoyaltyConfig,
    nft_mint: AccountId,
    seller: AccountId,
    seller_nft: TokenHolding,
    buyer: AccountId,
    buyer_payment: TokenHolding,
) -> bool {
    &&& seller_nft.mint == nft_mint
    &&& seller_nft.owner == seller
    &&& seller_nft.amount == 1
    &&& config.mint == nft_mint
    &&& buyer_payment.owner == buyer
}

/// The error of the first failing account check.
pub open spec fn sale_accounts_error(
    config: RoyaltyConfig,
    nft_mint: AccountId,
    seller: AccountId,
    seller_nft: TokenHolding,
    buyer: AccountId,
    buyer_payment: TokenHolding,
) -> ErrorCode {
    if seller_nft.mint != nft_mint {
        ErrorCode::TokenMintMismatch
    } else if seller_nft.owner != seller || seller_nft.amount != 1 {
        ErrorCode::InvalidNFTOwnership
    } else if config.mint != nft_mint {
        ErrorCode::InvalidRoyaltyConfig
    } else {
        ErrorCode::InvalidNFTOwnership
    }
}

/// Whether the sale bypasses royalty distribution: no configured royalty, or
/// a computed royalty of zero.
pub open spec fn direct_sale(config: RoyaltyConfig, sale_price: int) -> bool {
    ||| config.total_basis_points == 0
    ||| config.recipients@.len() == 0
    ||| spec_royalty_amount(sale_price, config.total_basis_points as int) == 0
}

/// The transfer plan of a royalty-bearing sale: one transfer per batched
/// recipient, to the account supplied for it, then the residual to the
/// seller when it is not zero.
pub open spec fn spec_royalty_plan(
    recipients: Seq<RoyaltyRecipient>,
    accounts: Seq<TokenHolding>,
    from: AccountId,
    seller_to: AccountId,
    sale_price: int,
    royalty: int,
    total_bp: int,
) -> Seq<(AccountId, AccountId, int)> {
    let batched = spec_batch(recipients, royalty, total_bp);
    let to_recipients = Seq::new(
        batched.len(),
        |k: int|
            (from, accounts[last_recipient_index(recipients, batched[k].0)].address, batched[k].1),
    );
    let seller_amount = sale_price - batched_total(batched);
    if seller_amount > 0 {
        to_recipients.push((from, seller_to, seller_amount))
    } else {
        to_recipients
    }
}

/// The last supplied account for a batched destination, as a map filled in
/// list order would yield it.
fn find_recipient_account(
    recipients: &Vec<RoyaltyRecipient>,
    accounts: &Vec<TokenHolding>,
    who: &AccountId,
) -> (r: Option<usize>)
    requires
        recipients@.len() <= accounts@.len(),
    ensures
        match r {
            Some(i) => i == last_recipient_index(recipients@, *who) && i < recipients@.len(),
            None => !payee_from(recipients@, *who),
        },
{
    let mut found: Option<usize> = None;
    let mut j: usize = 0;
    while j < recipients.len()
        invariant
            0 <= j <= recipients@.len(),
            match found {
                Some(i) => i == last_recipient_index(recipients@.take(j as int), *who) && i < j,
                None => last_recipient_index(recipients@.take(j as int), *who) == -1 && !payee_from(
                    recipients@.take(j as int),
                    *who,
                ),
            },
        decreases recipients@.len() - j,
    {
        proof {
            assert(recipients@.take(j + 1).drop_last() =~= recipients@.take(j as int));
            assert(recipients@.take(j + 1).last() == recipients@[j as int]);
        }
        if recipients[j].recipient == *who {
            found = Some(j);
        }
        proof {
            if recipients@[j as int].recipient != *who && !payee_from(
                recipients@.take(j as int),
                *who,
            ) {
                assert forall|k: int| 0 <= k < j + 1 implies (#[trigger] recipients@.take(
                    j + 1,
                )[k]).recipient != *who by {
                    if k < j {
                        assert(recipients@.take(j as int)[k] == recipients@.take(j + 1)[k]);
                    }
                }
            }
        }
        j = j + 1;
    }
    proof {
        assert(recipients@.take(recipients@.len() as int) =~= recipients@);
    }
    found
}

/// Plans a sale of `sale_price` units from the buyer's payment holding.
///
/// With no effective royalty the whole price goes straight to the seller.
/// Otherwise the buyer's funds, the supplied recipient accounts and the
/// asset-type agreement of every account are all validated before a single
/// transfer is planned; then one transfer per batched recipient and the
/// residual `sale_price - sum(batched shares)` to the seller. Every returned
/// plan moves exactly `sale_price` in total.
#[verifier::loop_isolation(false)]
pub fn process_sale_with_royalties(
    config: &RoyaltyConfig,
    sale_price: u64,
    nft_mint: AccountId,
    seller: AccountId,
    seller_nft: &TokenHolding,
    buyer: AccountId,
    buyer_payment: &TokenHolding,
    seller_payment: &TokenHolding,
    recipient_accounts: &Vec<TokenHolding>,
) -> (r: Result<Vec<TransferStep>, ErrorCode>)
    requires
        config.wf(),
    ensures
        !sale_accounts_ok(*config, nft_mint, seller, *seller_nft, buyer, *buyer_payment) ==> r
            == Err::<Vec<TransferStep>, ErrorCode>(
            sale_accounts_error(*config, nft_mint, seller, *seller_nft, buyer, *buyer_payment),
        ),
        sale_accounts_ok(*config, nft_mint, seller, *seller_nft, buyer, *buyer_payment)
            && direct_sale(*config, sale_price as int) ==> (r matches Ok(plan) && plan_view(plan@)
            == seq![(buyer_payment.address, seller_payment.address, sale_price as int)]),
        sale_accounts_ok(*config, nft_mint, seller, *seller_nft, buyer, *buyer_payment)
            && !direct_sale(*config, sale_price as int) ==> {
            let royalty = spec_royalty_amount(sale_price as int, config.total_basis_points as int);
            if buyer_payment.amount < sale_price {
                r == Err::<Vec<TransferStep>, ErrorCode>(ErrorCode::InsufficientFunds)
            } else if recipient_accounts@.len() < config.recipients@.len() {
                r == Err::<Vec<TransferStep>, ErrorCode>(ErrorCode::MissingExpectedAccount)
            } else if seller_payment.mint != buyer_payment.mint {
                r == Err::<Vec<TransferStep>, ErrorCode>(ErrorCode::TokenMintMismatch)
            } else if exists|k: int|
                0 <= k < config.recipients@.len() && recipient_accounts@[k].mint
                    != buyer_payment.mint {
                r == Err::<Vec<TransferStep>, ErrorCode>(ErrorCode::TokenMintMismatch)
            } else {
                (r matches Ok(plan) && plan_view(plan@) == spec_royalty_plan(
                    config.recipients@,
                    recipient_accounts@,
                    buyer_payment.address,
                    seller_payment.address,
                    sale_price as int,
                    royalty,
                    config.total_basis_points as int,
                ))
            }
        },
        r matches Ok(plan) ==> plan_total(plan@) == sale_price,
{
    // All validation happens before any transfer is planned.
    if seller_nft.mint != nft_mint {
        return Err(ErrorCode::TokenMintMismatch);
    }
    if seller_nft.owner != seller || seller_nft.amount != 1 {
        return Err(ErrorCode::InvalidNFTOwnership);
    }
    if config.mint != nft_mint {
        return Err(ErrorCode::InvalidRoyaltyConfig);
    }
    if buyer_payment.owner != buyer {
        return Err(ErrorCode::InvalidNFTOwnership);
    }
    if config.total_basis_points == 0 || config.recipients.len() == 0 {
        let mut plan: Vec<TransferStep> = Vec::new();
        plan.push(
            TransferStep {
                from: buyer_payment.address,
                to: seller_payment.address,
                amount: sale_price,
            },
        );
        proof {
            assert(plan@.drop_last() =~= Seq::<TransferStep>::empty());
            assert(plan_total(plan@.drop_last()) == 0);
            assert(plan_view(plan@) =~= seq![
                (buyer_payment.address, seller_payment.address, sale_price as int),
            ]);
        }
        return Ok(plan);
    }
    proof {
        lemma_royalty_amount_bounded(sale_price as int, config.total_basis_points as int);
    }
    let total_royalty = match calculate_royalty_amount(sale_price, config.total_basis_points) {
        Ok(v) => v,
        Err(_) => {
            proof {
                assert(false);
            }
            return Err(ErrorCode::ArithmeticOverflow);
        },
    };
    if total_royalty == 0 {
        let mut plan: Vec<TransferStep> = Vec::new();
        plan.push(
            TransferStep {
                from: buyer_payment.address,
                to: seller_payment.address,
                amount: sale_price,
            },
        );
        proof {
            assert(plan@.drop_last() =~= Seq::<TransferStep>::empty());
            assert(plan_total(plan@.drop_last()) == 0);
            assert(plan_view(plan@) =~= seq![
                (buyer_payment.address, seller_payment.address, sale_price as int),
            ]);
        }
        return Ok(plan);
    }
    if buyer_payment.amount < sale_price {
        return Err(ErrorCode::InsufficientFunds);
    }
    let payment_mint = buyer_payment.mint;
    if recipient_accounts.len() < config.recipients.len() {
        return Err(ErrorCode::MissingExpectedAccount);
    }
    if seller_payment.mint != payment_mint {
        return Err(ErrorCode::TokenMintMismatch);
    }
    let mut k: usize = 0;
    while k < config.recipients.len()
        invariant
            0 <= k <= config.recipients@.len(),
            forall|j: int| 0 <= j < k ==> recipient_accounts@[j].mint == buyer_payment.mint,
        decreases config.recipients@.len() - k,
    {
        if recipient_accounts[k].mint != payment_mint {
            return Err(ErrorCode::TokenMintMismatch);
        }
        k = k + 1;
    }
    // The stored invariant makes the whole batch computation exact: the
    // recipients' basis points sum to the (positive) total.
    let ghost royalty = spec_royalty_amount(sale_price as int, config.total_basis_points as int);
    let ghost tbp = config.total_basis_points as int;
    let batched = match batch_royalty_recipients(
        &config.recipients,
        total_royalty,
        config.total_basis_points,
    ) {
        Ok(b) => b,
        Err(_) => {
            proof {
                assert(false);
            }
            return Err(ErrorCode::ArithmeticOverflow);
        },
    };
    proof {
        lemma_batched_total_is_sum_shares(config.recipients@, royalty, tbp);
        lemma_sum_shares_le(config.recipients@, royalty, tbp);
        lemma_batch_entries_positive(config.recipients@, royalty, tbp);
        lemma_batch_payees_from_recipients(config.recipients@, royalty, tbp);
    }
    let ghost batched_view = payout_view(batched@);
    let mut total_paid: u64 = 0;
    let mut j: usize = 0;
    while j < batched.len()
        invariant
            0 <= j <= batched@.len(),
            total_paid == batched_total(batched_view.take(j as int)),
            total_paid <= total_royalty,
        decreases batched@.len() - j,
    {
        proof {
            assert(batched_view.take(j + 1).drop_last() =~= batched_view.take(j as int));
            assert(batched_view.take(j + 1).last() == batched_view[j as int]);
            lemma_batched_take_le(batched_view, j + 1);
        }
        total_paid = total_paid + batched[j].1;
        j = j + 1;
    }
    proof {
        assert(batched_view.take(batched_view.len() as int) =~= batched_view);
    }
    // The floor roundings only lose value, so the batched total never
    // exceeds the royalty, itself within the sale price: the subtraction
    // cannot underflow. The check is nevertheless mandatory.
    if total_paid > sale_price {
        proof {
            assert(false);
        }
        return Err(ErrorCode::RoyaltyBasisPointsExceedMax);
    }
    let seller_amount = sale_price - total_paid;
    let ghost to_recipients = Seq::new(
        payout_view(batched@).len(),
        |k: int|
            (
                buyer_payment.address,
                recipient_accounts@[last_recipient_index(
                    config.recipients@,
                    payout_view(batched@)[k].0,
                )].address,
                payout_view(batched@)[k].1,
            ),
    );
    let mut plan: Vec<TransferStep> = Vec::new();
    let mut n: usize = 0;
    proof {
        assert(plan_view(plan@) =~= to_recipients.take(0));
        assert(batched_view.take(0) =~= Seq::<(AccountId, int)>::empty());
    }
    while n < batched.len()
        invariant
            0 <= n <= batched@.len(),
            plan_view(plan@) == to_recipients.take(n as int),
            plan_total(plan@) == batched_total(batched_view.take(n as int)),
        decreases batched@.len() - n,
    {
        let ghost prev_plan = plan@;
        let who = batched[n].0;
        proof {
            assert(spec_batch(config.recipients@, royalty, tbp)[n as int].0 == who);
            assert(payee_from(config.recipients@, who));
        }
        match find_recipient_account(&config.recipients, recipient_accounts, &who) {
            Some(i) => {
                proof {
                    lemma_last_recipient_index(config.recipients@, who);
                }
                plan.push(
                    TransferStep {
                        from: buyer_payment.address,
                        to: recipient_accounts[i].address,
                        amount: batched[n].1,
                    },
                );
            },
            None => {
                proof {
                    assert(false);
                }
                return Err(ErrorCode::InvalidRecipientAccount);
            },
        }
        proof {
            assert(plan@.drop_last() =~= prev_plan);
            assert(plan_total(plan@) == plan_total(prev_plan) + batched_view[n as int].1);
            assert(batched_view.take(n + 1).drop_last() =~= batched_view.take(n as int));
            assert(batched_view.take(n + 1).last() == batched_view[n as int]);
            assert(plan_view(plan@) =~= to_recipients.take(n + 1));
        }
        n = n + 1;
    }
    proof {
        assert(batched_view.take(batched_view.len() as int) =~= batched_view);
        assert(to_recipients.take(to_recipients.len() as int) =~= to_recipients);
    }
    if seller_amount > 0 {
        let ghost prev_plan = plan@;
        plan.push(
            TransferStep {
                from: buyer_payment.address,
                to: seller_payment.address,
                amount: seller_amount,
            },
        );
        proof {
            assert(plan@.drop_last() =~= prev_plan);
            assert(plan_total(plan@) == plan_total(prev_plan) + seller_amount);
            assert(plan_view(plan@) =~= spec_royalty_plan(
                config.recipients@,
                recipient_accounts@,
                buyer_payment.address,
                seller_payment.address,
                sale_price as int,
                royalty,
                tbp,
            ));
        }
    } else {
        proof {
            assert(plan_view(plan@) =~= spec_royalty_plan(
                config.recipients@,
                recipient_accounts@,
                buyer_payment.address,
                seller_payment.address,
                sale_price as int,
                royalty,
                tbp,
            ));
        }
    }
    Ok(plan)
}

/// A prefix of a positive payout set never totals more than the whole.
proof fn lemma_batched_take_le(acc: Seq<(AccountId, int)>, n: int)
    requires
        0 <= n <= acc.len(),
        forall|j: int| 0 <= j < acc.len() ==> acc[j].1 >= 0,
    ensures
        batched_total(acc.take(n)) <= batched_total(acc),
    decreases acc.len(),
{
    if n == acc.len() {
        assert(acc.take(n) =~= acc);
    } else {
        assert(acc.take(n) =~= acc.drop_last().take(n));
        assert(forall|j: int| 0 <= j < acc.drop_last().len() ==> acc.drop_last()[j].1 >= 0);
        lemma_batched_take_le(acc.drop_last(), n);
    }
}

/// The settlement identity: for every sale price, total rate within bounds
/// and recipient set whose basis points sum to the total, the batched shares
/// never exceed the royalty, the royalty never exceeds the price, and the
/// batched shares plus the seller's residual reassemble the sale price
/// exactly.
pub proof fn lemma_settlement_conserves_sale_price(
    rs: Seq<RoyaltyRecipient>,
    sale_price: int,
    total_bp: int,
)
    requires
        0 <= sale_price,
        0 < total_bp <= BASIS_POINT_DENOMINATOR,
        sum_bp(rs) == total_bp,
    ensures
        ({
            let royalty = spec_royalty_amount(sale_price, total_bp);
            let shares = batched_total(spec_batch(rs, royalty, total_bp));
            &&& 0 <= shares <= royalty <= sale_price
            &&& shares + (sale_price - shares) == sale_price
        }),
{
    let royalty = spec_royalty_amount(sale_price, total_bp);
    lemma_royalty_amount_bounded(sale_price, total_bp);
    lemma_batched_total_is_sum_shares(rs, royalty, total_bp);
    lemma_sum_shares_le(rs, royalty, total_bp);
    lemma_batch_entries_positive(rs, royalty, total_bp);
    lemma_batched_total_nonneg(spec_batch(rs, royalty, total_bp));
}

} // verus!
