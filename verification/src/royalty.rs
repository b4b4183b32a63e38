//! The royalty split engine: basis-point math, recipient batching and the
//! royalty configuration record.
//!
//! Pure computation with no ledger side effects. All share arithmetic runs in
//! a 128-bit intermediate wide enough for the full `u64 x u16` product and
//! fails with a typed arithmetic error where a result would not fit the
//! target width.

use vstd::prelude::*;
use vstd::arithmetic::div_mod::{
    lemma_fundamental_div_mod,
    lemma_div_pos_is_pos,
    lemma_div_is_ordered,
    lemma_div_multiples_vanish,
    lemma_hoist_over_denominator,
};
use vstd::arithmetic::mul::{lemma_mul_is_distributive_add_other_way, lemma_mul_inequality};
use crate::ids::AccountId;
use crate::errors::ErrorCode;

verus! {

/// The largest total royalty: 2500 basis points, a quarter of the price.
pub const MAX_ROYALTY_BASIS_POINTS: u16 = 2500;

/// The most recipients one configuration may name.
pub const MAX_ROYALTY_RECIPIENTS: usize = 5;

/// Basis points per whole: 10000 bp = 100%.
pub const BASIS_POINT_DENOMINATOR: u16 = 10000;

/// The closed set of recipient categories, tagged for category-specific
/// behaviour that may be added later.
#[derive(Clone, Copy, Debug, PartialEq, Eq, Structural)]
pub enum RecipientType {
    Artist,
    Platform,
    Collaborator,
    Other,
}

/// One royalty beneficiary: a destination identity and its share in basis
/// points.
#[derive(Clone, Copy, Debug, PartialEq)]
pub struct RoyaltyRecipient {
    pub recipient: AccountId,
    pub basis_points: u16,
    pub recipient_type: RecipientType,
}

/// The royalty configuration of one asset identity: an ordered list of at
/// most five recipients whose basis points sum exactly to
/// `total_basis_points`, itself at most 2500.
#[derive(Clone, Debug)]
pub struct RoyaltyConfig {
    /// The asset identity this configuration belongs to.
    pub mint: AccountId,
    /// The total royalty in basis points.
    pub total_basis_points: u16,
    /// The beneficiaries; replaced only as a whole, never partially.
    pub recipients: Vec<RoyaltyRecipient>,
    /// Who may modify the configuration.
    pub authority: AccountId,
    /// Whether the configuration may still be changed.
    pub is_mutable: bool,
    /// The derivation bump of the record's address, kept for signing.
    pub bump: u8,
}

/// The mathematical sum of the recipients' basis points.
pub open spec fn sum_bp(rs: Seq<RoyaltyRecipient>) -> int
    decreases rs.len(),
{
    if rs.len() == 0 {
        0
    } else {
        sum_bp(rs.drop_last()) + rs.last().basis_points
    }
}

impl RoyaltyConfig {
    /// The record invariant, enforced on creation and on every update.
    pub open spec fn wf(self) -> bool {
        &&& self.total_basis_points <= MAX_ROYALTY_BASIS_POINTS
        &&& self.recipients@.len() <= MAX_ROYALTY_RECIPIENTS
        &&& sum_bp(self.recipients@) == self.total_basis_points
    }
}

/// `floor(sale_price * total_bp / 10000)`: the royalty carved out of a sale.
pub open spec fn spec_royalty_amount(sale_price: int, basis_points: int) -> int {
    (sale_price * basis_points) / (BASIS_POINT_DENOMINATOR as int)
}

/// `floor(total_royalty * recipient_bp / total_bp)`: one recipient's share.
pub open spec fn spec_recipient_share(total_royalty: int, recipient_bp: int, total_bp: int) -> int {
    (total_royalty * recipient_bp) / total_bp
}

/// The royalty amount a sale owes, or an overflow error where the exact
/// value would exceed the target width. The 128-bit product of a `u64` price
/// and a `u16` rate never overflows.
pub fn calculate_royalty_amount(sale_price: u64, basis_points: u16) -> (r: Result<u64, ErrorCode>)
    ensures
        spec_royalty_amount(sale_price as int, basis_points as int) > u64::MAX ==> r == Err::<
            u64,
            ErrorCode,
        >(ErrorCode::ArithmeticOverflow),
        spec_royalty_amount(sale_price as int, basis_points as int) <= u64::MAX ==> r == Ok::<
            u64,
            ErrorCode,
        >(spec_royalty_amount(sale_price as int, basis_points as int) as u64),
        basis_points <= BASIS_POINT_DENOMINATOR ==> r is Ok,
{
    proof {
        lemma_mul_inequality(sale_price as int, u64::MAX as int, basis_points as int);
        if basis_points <= BASIS_POINT_DENOMINATOR {
            lemma_royalty_amount_bounded(sale_price as int, basis_points as int);
        }
    }
    let product: u128 = (sale_price as u128) * (basis_points as u128);
    let quotient: u128 = product / (BASIS_POINT_DENOMINATOR as u128);
    if quotient > u64::MAX as u128 {
        Err(ErrorCode::ArithmeticOverflow)
    } else {
        Ok(quotient as u64)
    }
}

/// A royalty at a rate of at most one whole never exceeds the sale price.
pub proof fn lemma_royalty_amount_bounded(sale_price: int, basis_points: int)
    requires
        0 <= sale_price,
        0 <= basis_points <= BASIS_POINT_DENOMINATOR,
    ensures
        0 <= spec_royalty_amount(sale_price, basis_points) <= sale_price,
{
    let d = BASIS_POINT_DENOMINATOR as int;
    lemma_div_pos_is_pos(sale_price * basis_points, d);
    lemma_mul_inequality(basis_points, d, sale_price);
    assert(sale_price * basis_points == basis_points * sale_price) by (nonlinear_arith);
    assert(sale_price * d == d * sale_price) by (nonlinear_arith);
    lemma_div_is_ordered(sale_price * basis_points, sale_price * d, d);
    lemma_div_multiples_vanish(sale_price, d);
}

/// One recipient's share of the royalty, or an arithmetic error where the
/// divisor is zero or the exact value would exceed the target width.
pub fn calculate_recipient_share(
    total_royalty_amount: u64,
    recipient_basis_points: u16,
    total_basis_points: u16,
) -> (r: Result<u64, ErrorCode>)
    ensures
        total_basis_points == 0 ==> r == Err::<u64, ErrorCode>(ErrorCode::ArithmeticOverflow),
        total_basis_points > 0 && spec_recipient_share(
            total_royalty_amount as int,
            recipient_basis_points as int,
            total_basis_points as int,
        ) > u64::MAX ==> r == Err::<u64, ErrorCode>(ErrorCode::ArithmeticOverflow),
        total_basis_points > 0 && spec_recipient_share(
            total_royalty_amount as int,
            recipient_basis_points as int,
            total_basis_points as int,
        ) <= u64::MAX ==> r == Ok::<u64, ErrorCode>(
            spec_recipient_share(
                total_royalty_amount as int,
                recipient_basis_points as int,
                total_basis_points as int,
            ) as u64,
        ),
        recipient_basis_points <= total_basis_points && total_basis_points > 0 ==> r is Ok,
{
    if total_basis_points == 0 {
        return Err(ErrorCode::ArithmeticOverflow);
    }
    proof {
        lemma_mul_inequality(
            total_royalty_amount as int,
            u64::MAX as int,
            recipient_basis_points as int,
        );
        if recipient_basis_points <= total_basis_points {
            lemma_share_le_royalty(
                total_royalty_amount as int,
                recipient_basis_points as int,
                total_basis_points as int,
            );
        }
    }
    let product: u128 = (total_royalty_amount as u128) * (recipient_basis_points as u128);
    let quotient: u128 = product / (total_basis_points as u128);
    if quotient > u64::MAX as u128 {
        return Err(ErrorCode::ArithmeticOverflow);
    }
    Ok(quotient as u64)
}

/// A share at a rate of at most the whole never exceeds the royalty.
pub proof fn lemma_share_le_royalty(total_royalty: int, recipient_bp: int, total_bp: int)
    requires
        0 <= total_royalty,
        0 <= recipient_bp <= total_bp,
        0 < total_bp,
    ensures
        0 <= spec_recipient_share(total_royalty, recipient_bp, total_bp) <= total_royalty,
{
    lemma_div_pos_is_pos(total_royalty * recipient_bp, total_bp);
    lemma_mul_inequality(recipient_bp, total_bp, total_royalty);
    assert(total_royalty * recipient_bp == recipient_bp * total_royalty) by (nonlinear_arith);
    assert(total_royalty * total_bp == total_bp * total_royalty) by (nonlinear_arith);
    lemma_div_is_ordered(total_royalty * recipient_bp, total_royalty * total_bp, total_bp);
    lemma_div_multiples_vanish(total_royalty, total_bp);
}

/// Sums the basis points of at most five recipients; five full `u16` values
/// fit a `u32` comfortably.
fn sum_basis_points(recipients: &Vec<RoyaltyRecipient>) -> (total: u32)
    requires
        recipients@.len() <= MAX_ROYALTY_RECIPIENTS,
    ensures
        total == sum_bp(recipients@),
{
    let mut total: u32 = 0;
    let mut i: usize = 0;
    while i < recipients.len()
        invariant
            0 <= i <= recipients@.len(),
            recipients@.len() <= MAX_ROYALTY_RECIPIENTS,
            total == sum_bp(recipients@.take(i as int)),
            total <= i * (u16::MAX as u32),
        decreases recipients@.len() - i,
    {
        proof {
            assert(recipients@.take(i + 1).drop_last() =~= recipients@.take(i as int));
            assert(recipients@.take(i + 1).last() == recipients@[i as int]);
        }
        total = total + recipients[i].basis_points as u32;
        i = i + 1;
    }
    proof {
        assert(recipients@.take(recipients@.len() as int) =~= recipients@);
    }
    total
}

/// Validates the bounds and builds the configuration record. Succeeds for
/// every recipient set with at most five entries whose basis points sum
/// exactly to `total_basis_points`, itself at most 2500; violating any bound
/// fails with the matching error, in this order of checks.
pub fn create_royalty_config(
    mint: AccountId,
    authority: AccountId,
    total_basis_points: u16,
    recipients: Vec<RoyaltyRecipient>,
    is_mutable: bool,
    bump: u8,
) -> (r: Result<RoyaltyConfig, ErrorCode>)
    ensures
        r is Ok <==> {
            &&& total_basis_points <= MAX_ROYALTY_BASIS_POINTS
            &&& recipients@.len() <= MAX_ROYALTY_RECIPIENTS
            &&& sum_bp(recipients@) == total_basis_points
        },
        total_basis_points > MAX_ROYALTY_BASIS_POINTS ==> r == Err::<RoyaltyConfig, ErrorCode>(
            ErrorCode::RoyaltyBasisPointsExceedMax,
        ),
        total_basis_points <= MAX_ROYALTY_BASIS_POINTS && recipients@.len()
            > MAX_ROYALTY_RECIPIENTS ==> r == Err::<RoyaltyConfig, ErrorCode>(
            ErrorCode::TooManyRoyaltyRecipients,
        ),
        total_basis_points <= MAX_ROYALTY_BASIS_POINTS && recipients@.len()
            <= MAX_ROYALTY_RECIPIENTS && sum_bp(recipients@) != total_basis_points ==> r == Err::<
            RoyaltyConfig,
            ErrorCode,
        >(ErrorCode::RoyaltyBasisPointsMismatch),
        r is Ok ==> {
            &&& r->Ok_0.mint == mint
            &&& r->Ok_0.total_basis_points == total_basis_points
            &&& r->Ok_0.recipients@ == recipients@
            &&& r->Ok_0.authority == authority
            &&& r->Ok_0.is_mutable == is_mutable
            &&& r->Ok_0.bump == bump
            &&& r->Ok_0.wf()
        },
{
    if total_basis_points > MAX_ROYALTY_BASIS_POINTS {
        return Err(ErrorCode::RoyaltyBasisPointsExceedMax);
    }
    if recipients.len() > MAX_ROYALTY_RECIPIENTS {
        return Err(ErrorCode::TooManyRoyaltyRecipients);
    }
    let total: u32 = sum_basis_points(&recipients);
    if total != total_basis_points as u32 {
        return Err(ErrorCode::RoyaltyBasisPointsMismatch);
    }
    Ok(RoyaltyConfig { mint, total_basis_points, recipients, authority, is_mutable, bump })
}

/// Replaces the whole recipient list and total while the configuration is
/// still mutable and the caller is the stored authority. The same bounds as
/// creation apply; any failure leaves the record unchanged.
pub fn update_royalty_config(
    config: &mut RoyaltyConfig,
    caller: AccountId,
    total_basis_points: u16,
    recipients: Vec<RoyaltyRecipient>,
) -> (r: Result<(), ErrorCode>)
    ensures
        r is Ok <==> {
            &&& caller == old(config).authority
            &&& old(config).is_mutable
            &&& total_basis_points <= MAX_ROYALTY_BASIS_POINTS
            &&& recipients@.len() <= MAX_ROYALTY_RECIPIENTS
            &&& sum_bp(recipients@) == total_basis_points
        },
        r is Err ==> *final(config) == *old(config),
        caller != old(config).authority ==> r == Err::<(), ErrorCode>(
            ErrorCode::UnauthorizedRoyaltyUpdate,
        ),
        caller == old(config).authority && !old(config).is_mutable ==> r == Err::<(), ErrorCode>(
            ErrorCode::ImmutableRoyaltyConfig,
        ),
        caller == old(config).authority && old(config).is_mutable && total_basis_points
            > MAX_ROYALTY_BASIS_POINTS ==> r == Err::<(), ErrorCode>(
            ErrorCode::RoyaltyBasisPointsExceedMax,
        ),
        caller == old(config).authority && old(config).is_mutable && total_basis_points
            <= MAX_ROYALTY_BASIS_POINTS && recipients@.len() > MAX_ROYALTY_RECIPIENTS ==> r
            == Err::<(), ErrorCode>(ErrorCode::TooManyRoyaltyRecipients),
        caller == old(config).authority && old(config).is_mutable && total_basis_points
            <= MAX_ROYALTY_BASIS_POINTS && recipients@.len() <= MAX_ROYALTY_RECIPIENTS && sum_bp(
            recipients@,
        ) != total_basis_points ==> r == Err::<(), ErrorCode>(
            ErrorCode::RoyaltyBasisPointsMismatch,
        ),
        r is Ok ==> {
            &&& final(config).total_basis_points == total_basis_points
            &&& final(config).recipients@ == recipients@
            &&& final(config).mint == old(config).mint
            &&& final(config).authority == old(config).authority
            &&& final(config).is_mutable == old(config).is_mutable
            &&& final(config).bump == old(config).bump
            &&& final(config).wf()
        },
{
    if caller != config.authority {
        return Err(ErrorCode::UnauthorizedRoyaltyUpdate);
    }
    if !config.is_mutable {
        return Err(ErrorCode::ImmutableRoyaltyConfig);
    }
    if total_basis_points > MAX_ROYALTY_BASIS_POINTS {
        return Err(ErrorCode::RoyaltyBasisPointsExceedMax);
    }
    if recipients.len() > MAX_ROYALTY_RECIPIENTS {
        return Err(ErrorCode::TooManyRoyaltyRecipients);
    }
    let total: u32 = sum_basis_points(&recipients);
    if total != total_basis_points as u32 {
        return Err(ErrorCode::RoyaltyBasisPointsMismatch);
    }
    config.total_basis_points = total_basis_points;
    config.recipients = recipients;
    Ok(())
}

/// The exact byte size of a stored configuration record with the given
/// recipient count: a fixed base plus a per-recipient stride.
pub fn get_royalty_config_size(recipient_count: usize) -> (size: usize)
    requires
        recipient_count <= MAX_ROYALTY_RECIPIENTS,
    ensures
        size == 80 + recipient_count * 35,
{
    8  // discriminator
     + 32  // mint
     + 2  // total basis points
     + 4  // recipient list length
     + recipient_count * (32  // recipient identity
     + 2  // basis points
     + 1  // category tag
    ) + 32  // authority
     + 1  // mutability flag
     + 1  // derivation bump
}

/// The basis points of every recipient set are nonnegative, so the sum is.
pub proof fn lemma_sum_bp_nonneg(rs: Seq<RoyaltyRecipient>)
    ensures
        sum_bp(rs) >= 0,
    decreases rs.len(),
{
    if rs.len() > 0 {
        lemma_sum_bp_nonneg(rs.drop_last());
    }
}

/// A prefix of a recipient set never sums to more basis points than the whole.
pub proof fn lemma_sum_bp_take_le(rs: Seq<RoyaltyRecipient>, n: int)
    requires
        0 <= n <= rs.len(),
    ensures
        sum_bp(rs.take(n)) <= sum_bp(rs),
    decreases rs.len(),
{
    if n == rs.len() {
        assert(rs.take(n) =~= rs);
    } else {
        assert(rs.take(n) =~= rs.drop_last().take(n));
        lemma_sum_bp_take_le(rs.drop_last(), n);
    }
}

/// Every single recipient's basis points are at most the sum.
pub proof fn lemma_sum_bp_element(rs: Seq<RoyaltyRecipient>, i: int)
    requires
        0 <= i < rs.len(),
    ensures
        rs[i].basis_points <= sum_bp(rs),
    decreases rs.len(),
{
    if i == rs.len() - 1 {
        lemma_sum_bp_nonneg(rs.drop_last());
    } else {
        lemma_sum_bp_element(rs.drop_last(), i);
    }
}

/// The mathematical sum of every recipient's share of the royalty.
pub open spec fn sum_shares(rs: Seq<RoyaltyRecipient>, total_royalty: int, total_bp: int) -> int
    decreases rs.len(),
{
    if rs.len() == 0 {
        0
    } else {
        sum_shares(rs.drop_last(), total_royalty, total_bp) + spec_recipient_share(
            total_royalty,
            rs.last().basis_points as int,
            total_bp,
        )
    }
}

/// A share of a nonnegative royalty is nonnegative.
pub proof fn lemma_share_nonneg(total_royalty: int, recipient_bp: int, total_bp: int)
    requires
        total_royalty >= 0,
        recipient_bp >= 0,
        total_bp > 0,
    ensures
        spec_recipient_share(total_royalty, recipient_bp, total_bp) >= 0,
{
    assert(total_royalty * recipient_bp >= 0) by (nonlinear_arith)
        requires
            total_royalty >= 0,
            recipient_bp >= 0,
    ;
    lemma_div_pos_is_pos(total_royalty * recipient_bp, total_bp);
}

/// Floor division loses against summing first: `a/d + b/d <= (a+b)/d`.
proof fn lemma_div_sum_le(a: int, b: int, d: int)
    requires
        a >= 0,
        b >= 0,
        d > 0,
    ensures
        a / d + b / d <= (a + b) / d,
{
    let qa = a / d;
    let ra = a % d;
    let qb = b / d;
    let rb = b % d;
    lemma_fundamental_div_mod(a, d);
    lemma_fundamental_div_mod(b, d);
    lemma_hoist_over_denominator(ra + rb, qa + qb, d as nat);
    assert(a + b == ra + rb + (qa + qb) * d) by (nonlinear_arith)
        requires
            a == d * qa + ra,
            b == d * qb + rb,
    ;
    lemma_div_pos_is_pos(ra + rb, d);
}

/// Independent floor roundings only lose value: the shares of a recipient set
/// whose basis points sum to at most the whole never exceed the royalty they
/// divide. This is what lets the settlement subtract the batched shares from
/// the sale price without underflow.
pub proof fn lemma_sum_shares_le(rs: Seq<RoyaltyRecipient>, total_royalty: int, total_bp: int)
    requires
        total_royalty >= 0,
        total_bp > 0,
        sum_bp(rs) <= total_bp,
    ensures
        sum_shares(rs, total_royalty, total_bp) <= spec_recipient_share(
            total_royalty,
            sum_bp(rs),
            total_bp,
        ),
        sum_shares(rs, total_royalty, total_bp) <= total_royalty,
    decreases rs.len(),
{
    lemma_sum_bp_nonneg(rs);
    if rs.len() == 0 {
        lemma_div_pos_is_pos(0, total_bp);
        lemma_share_nonneg(total_royalty, 0, total_bp);
    } else {
        let dl = rs.drop_last();
        let bp_last = rs.last().basis_points as int;
        lemma_sum_bp_nonneg(dl);
        lemma_sum_shares_le(dl, total_royalty, total_bp);
        assert(total_royalty * sum_bp(dl) >= 0) by (nonlinear_arith)
            requires
                total_royalty >= 0,
                sum_bp(dl) >= 0,
        ;
        assert(total_royalty * bp_last >= 0) by (nonlinear_arith)
            requires
                total_royalty >= 0,
                bp_last >= 0,
        ;
        lemma_div_sum_le(total_royalty * sum_bp(dl), total_royalty * bp_last, total_bp);
        lemma_mul_is_distributive_add_other_way(total_royalty, sum_bp(dl), bp_last);
        assert(total_royalty * sum_bp(dl) + total_royalty * bp_last == total_royalty * sum_bp(rs));
    }
    // The combined rate is at most the whole, so the combined share is at
    // most the royalty.
    lemma_mul_inequality(sum_bp(rs), total_bp, total_royalty);
    assert(sum_bp(rs) * total_royalty == total_royalty * sum_bp(rs)) by (nonlinear_arith);
    assert(total_bp * total_royalty == total_royalty * total_bp) by (nonlinear_arith);
    lemma_div_is_ordered(total_royalty * sum_bp(rs), total_royalty * total_bp, total_bp);
    lemma_div_multiples_vanish(total_royalty, total_bp);
}

/// Whether some payout entry already names `who` as its destination.
pub open spec fn has_payee(acc: Seq<(AccountId, int)>, who: AccountId) -> bool {
    exists|i: int| 0 <= i < acc.len() && acc[i].0 == who
}

/// The first payout entry naming `who`; meaningful only when one exists.
pub open spec fn first_payee_index(acc: Seq<(AccountId, int)>, who: AccountId) -> int
    decreases acc.len(),
{
    if acc.len() == 0 {
        0
    } else if acc[0].0 == who {
        0
    } else {
        1 + first_payee_index(acc.subrange(1, acc.len() as int), who)
    }
}

/// `first_payee_index` finds the first matching entry.
pub proof fn lemma_first_payee_index(acc: Seq<(AccountId, int)>, who: AccountId)
    requires
        has_payee(acc, who),
    ensures
        0 <= first_payee_index(acc, who) < acc.len(),
        acc[first_payee_index(acc, who)].0 == who,
        forall|j: int| 0 <= j < first_payee_index(acc, who) ==> acc[j].0 != who,
    decreases acc.len(),
{
    if acc[0].0 == who {
    } else {
        let rest = acc.subrange(1, acc.len() as int);
        let w = choose|i: int| 0 <= i < acc.len() && acc[i].0 == who;
        assert(rest[w - 1] == acc[w]);
        lemma_first_payee_index(rest, who);
        let fi = first_payee_index(acc, who);
        assert forall|j: int| 0 <= j < fi implies acc[j].0 != who by {
            if j > 0 {
                assert(acc[j] == rest[j - 1]);
            }
        }
    }
}

/// Merging one recipient's share into the running payout set: zero shares
/// are dropped, a share for a destination already present accumulates into
/// that entry, and a new destination is appended.
pub open spec fn batch_step(acc: Seq<(AccountId, int)>, who: AccountId, amount: int) -> Seq<
    (AccountId, int),
> {
    if amount <= 0 {
        acc
    } else if has_payee(acc, who) {
        let i = first_payee_index(acc, who);
        acc.update(i, (who, acc[i].1 + amount))
    } else {
        acc.push((who, amount))
    }
}

/// The batched payout set of a recipient list: one entry per distinct
/// destination, in order of first appearance, zero shares dropped.
pub open spec fn spec_batch(rs: Seq<RoyaltyRecipient>, total_royalty: int, total_bp: int) -> Seq<
    (AccountId, int),
>
    decreases rs.len(),
{
    if rs.len() == 0 {
        Seq::empty()
    } else {
        batch_step(
            spec_batch(rs.drop_last(), total_royalty, total_bp),
            rs.last().recipient,
            spec_recipient_share(total_royalty, rs.last().basis_points as int, total_bp),
        )
    }
}

/// The total amount a payout set moves.
pub open spec fn batched_total(acc: Seq<(AccountId, int)>) -> int
    decreases acc.len(),
{
    if acc.len() == 0 {
        0
    } else {
        batched_total(acc.drop_last()) + acc.last().1
    }
}

/// Adding to one entry adds to the total.
proof fn lemma_batched_total_update(acc: Seq<(AccountId, int)>, i: int, delta: int)
    requires
        0 <= i < acc.len(),
    ensures
        batched_total(acc.update(i, (acc[i].0, acc[i].1 + delta))) == batched_total(acc) + delta,
    decreases acc.len(),
{
    let u = acc.update(i, (acc[i].0, acc[i].1 + delta));
    if i == acc.len() - 1 {
        assert(u.drop_last() =~= acc.drop_last());
    } else {
        assert(u.drop_last() =~= acc.drop_last().update(i, (acc[i].0, acc[i].1 + delta)));
        lemma_batched_total_update(acc.drop_last(), i, delta);
    }
}

/// One merge step adds exactly the (nonnegative) share to the total.
proof fn lemma_batch_step_total(acc: Seq<(AccountId, int)>, who: AccountId, amount: int)
    requires
        amount >= 0,
    ensures
        batched_total(batch_step(acc, who, amount)) == batched_total(acc) + amount,
{
    if amount <= 0 {
    } else if has_payee(acc, who) {
        lemma_first_payee_index(acc, who);
        lemma_batched_total_update(acc, first_payee_index(acc, who), amount);
    } else {
        assert(acc.push((who, amount)).drop_last() =~= acc);
    }
}

/// Batching neither loses nor creates value: the batched total equals the
/// plain sum of the per-recipient shares (the dropped entries are exactly
/// the zero shares).
pub proof fn lemma_batched_total_is_sum_shares(
    rs: Seq<RoyaltyRecipient>,
    total_royalty: int,
    total_bp: int,
)
    requires
        total_royalty >= 0,
        total_bp > 0,
    ensures
        batched_total(spec_batch(rs, total_royalty, total_bp)) == sum_shares(
            rs,
            total_royalty,
            total_bp,
        ),
    decreases rs.len(),
{
    if rs.len() > 0 {
        let dl = rs.drop_last();
        lemma_batched_total_is_sum_shares(dl, total_royalty, total_bp);
        lemma_share_nonneg(total_royalty, rs.last().basis_points as int, total_bp);
        lemma_batch_step_total(
            spec_batch(dl, total_royalty, total_bp),
            rs.last().recipient,
            spec_recipient_share(total_royalty, rs.last().basis_points as int, total_bp),
        );
    }
}

/// Every batched entry is strictly positive.
pub proof fn lemma_batch_entries_positive(
    rs: Seq<RoyaltyRecipient>,
    total_royalty: int,
    total_bp: int,
)
    requires
        total_royalty >= 0,
        total_bp > 0,
    ensures
        forall|k: int|
            0 <= k < spec_batch(rs, total_royalty, total_bp).len() ==> spec_batch(
                rs,
                total_royalty,
                total_bp,
            )[k].1 > 0,
    decreases rs.len(),
{
    if rs.len() > 0 {
        let dl = rs.drop_last();
        lemma_batch_entries_positive(dl, total_royalty, total_bp);
        lemma_share_nonneg(total_royalty, rs.last().basis_points as int, total_bp);
        let acc = spec_batch(dl, total_royalty, total_bp);
        let who = rs.last().recipient;
        let amount = spec_recipient_share(total_royalty, rs.last().basis_points as int, total_bp);
        if amount > 0 && has_payee(acc, who) {
            lemma_first_payee_index(acc, who);
        }
    }
}

/// A payout set of positive entries never holds an entry above its total.
pub proof fn lemma_batched_entry_le_total(acc: Seq<(AccountId, int)>, k: int)
    requires
        0 <= k < acc.len(),
        forall|j: int| 0 <= j < acc.len() ==> acc[j].1 >= 0,
    ensures
        acc[k].1 <= batched_total(acc),
    decreases acc.len(),
{
    if k == acc.len() - 1 {
        lemma_batched_total_nonneg(acc.drop_last());
    } else {
        assert(forall|j: int| 0 <= j < acc.drop_last().len() ==> acc.drop_last()[j].1 >= 0);
        lemma_batched_entry_le_total(acc.drop_last(), k);
    }
}

/// A payout set of nonnegative entries has a nonnegative total.
pub proof fn lemma_batched_total_nonneg(acc: Seq<(AccountId, int)>)
    requires
        forall|j: int| 0 <= j < acc.len() ==> acc[j].1 >= 0,
    ensures
        batched_total(acc) >= 0,
    decreases acc.len(),
{
    if acc.len() > 0 {
        assert(forall|j: int| 0 <= j < acc.drop_last().len() ==> acc.drop_last()[j].1 >= 0);
        lemma_batched_total_nonneg(acc.drop_last());
    }
}

/// Whether some recipient names `who` as destination.
pub open spec fn payee_from(rs: Seq<RoyaltyRecipient>, who: AccountId) -> bool {
    exists|i: int| 0 <= i < rs.len() && rs[i].recipient == who
}

/// Every batched destination comes from the recipient list.
pub proof fn lemma_batch_payees_from_recipients(
    rs: Seq<RoyaltyRecipient>,
    total_royalty: int,
    total_bp: int,
)
    ensures
        forall|k: int|
            0 <= k < spec_batch(rs, total_royalty, total_bp).len() ==> payee_from(
                rs,
                #[trigger] spec_batch(rs, total_royalty, total_bp)[k].0,
            ),
    decreases rs.len(),
{
    if rs.len() > 0 {
        let dl = rs.drop_last();
        lemma_batch_payees_from_recipients(dl, total_royalty, total_bp);
        let acc = spec_batch(dl, total_royalty, total_bp);
        let who = rs.last().recipient;
        let amount = spec_recipient_share(total_royalty, rs.last().basis_points as int, total_bp);
        let stepped = spec_batch(rs, total_royalty, total_bp);
        if amount > 0 && has_payee(acc, who) {
            lemma_first_payee_index(acc, who);
        }
        assert forall|k: int| 0 <= k < stepped.len() implies payee_from(rs, stepped[k].0) by {
            if k < acc.len() && stepped[k].0 == acc[k].0 {
                assert(payee_from(dl, acc[k].0));
                let i = choose|i: int| 0 <= i < dl.len() && dl[i].recipient == acc[k].0;
                assert(rs[i].recipient == stepped[k].0);
            } else {
                assert(rs[rs.len() - 1].recipient == stepped[k].0);
            }
        }
    }
}

/// The whole-number view of a payout list.
pub open spec fn payout_view(entries: Seq<(AccountId, u64)>) -> Seq<(AccountId, int)> {
    entries.map_values(|p: (AccountId, u64)| (p.0, p.1 as int))
}

/// The first payout entry paying `who`, if one exists.
fn find_payee(entries: &Vec<(AccountId, u64)>, who: &AccountId) -> (r: Option<usize>)
    ensures
        match r {
            Some(i) => 0 <= i < entries@.len() && entries@[i as int].0 == *who && forall|j: int|
                0 <= j < i ==> entries@[j].0 != *who,
            None => forall|j: int| 0 <= j < entries@.len() ==> entries@[j].0 != *who,
        },
{
    let mut i: usize = 0;
    while i < entries.len()
        invariant
            0 <= i <= entries@.len(),
            forall|j: int| 0 <= j < i ==> entries@[j].0 != *who,
        decreases entries@.len() - i,
    {
        if entries[i].0 == *who {
            return Some(i);
        }
        i = i + 1;
    }
    None
}

/// Computes every recipient's share of the royalty, accumulates the shares
/// of recipients naming the same destination into a single entry, and drops
/// zero shares. The returned payout set is `spec_batch` of the inputs; its
/// total may fall short of the royalty only by the independent floor
/// roundings. Succeeds whenever the recipients' basis points sum to at most
/// the (positive) total, the invariant every stored configuration keeps.
pub fn batch_royalty_recipients(
    recipients: &Vec<RoyaltyRecipient>,
    total_royalty_amount: u64,
    total_basis_points: u16,
) -> (r: Result<Vec<(AccountId, u64)>, ErrorCode>)
    ensures
        r is Ok ==> payout_view(r->Ok_0@) == spec_batch(
            recipients@,
            total_royalty_amount as int,
            total_basis_points as int,
        ),
        r is Err ==> r->Err_0 == ErrorCode::ArithmeticOverflow,
        r is Err ==> total_basis_points == 0 || sum_bp(recipients@) > total_basis_points,
        total_basis_points == 0 && recipients@.len() > 0 ==> r is Err,
        total_basis_points > 0 && sum_bp(recipients@) <= total_basis_points ==> r is Ok,
{
    let ghost tr = total_royalty_amount as int;
    let ghost tbp = total_basis_points as int;
    let ghost in_reach = total_basis_points > 0 && sum_bp(recipients@) <= tbp;
    let mut entries: Vec<(AccountId, u64)> = Vec::new();
    let mut i: usize = 0;
    while i < recipients.len()
        invariant
            0 <= i <= recipients@.len(),
            tr == total_royalty_amount as int,
            tbp == total_basis_points as int,
            payout_view(entries@) == spec_batch(recipients@.take(i as int), tr, tbp),
            in_reach == (total_basis_points > 0 && sum_bp(recipients@) <= tbp),
            i > 0 ==> total_basis_points > 0,
            in_reach ==> batched_total(payout_view(entries@)) == sum_shares(
                recipients@.take(i as int),
                tr,
                tbp,
            ) <= tr,
        decreases recipients@.len() - i,
    {
        let ghost prefix = recipients@.take(i as int);
        let ghost next_prefix = recipients@.take(i + 1);
        proof {
            assert(next_prefix.drop_last() =~= prefix);
            assert(next_prefix.last() == recipients@[i as int]);
            if in_reach {
                lemma_sum_bp_element(recipients@, i as int);
                lemma_sum_bp_take_le(recipients@, i + 1);
                lemma_sum_shares_le(next_prefix, tr, tbp);
                lemma_sum_bp_nonneg(next_prefix.drop_last());
                lemma_sum_bp_element(next_prefix, i as int);
            }
        }
        let share = match calculate_recipient_share(
            total_royalty_amount,
            recipients[i].basis_points,
            total_basis_points,
        ) {
            Ok(s) => s,
            Err(e) => {
                return Err(e);
            },
        };
        let ghost spec_share = spec_recipient_share(
            tr,
            recipients@[i as int].basis_points as int,
            tbp,
        );
        let ghost acc = payout_view(entries@);
        let who = recipients[i].recipient;
        if share > 0 {
            match find_payee(&entries, &who) {
                Some(j) => {
                    proof {
                        assert(has_payee(acc, who)) by {
                            assert(acc[j as int].0 == who);
                        }
                        lemma_first_payee_index(acc, who);
                        let fi = first_payee_index(acc, who);
                        if fi < j {
                            assert(entries@[fi].0 == who);
                            assert(false);
                        }
                        if j < fi {
                            assert(acc[j as int].0 != who);
                            assert(false);
                        }
                        if in_reach {
                            assert(forall|k: int| 0 <= k < acc.len() ==> acc[k].1 >= 0);
                            lemma_batched_entry_le_total(acc, j as int);
                        }
                    }
                    let cur: u64 = entries[j].1;
                    if cur > u64::MAX - share {
                        proof {
                            if in_reach {
                                // Inside the invariant region the running
                                // total stays below the royalty, so the sum
                                // cannot overflow.
                                assert(cur + share <= tr);
                                assert(false);
                            }
                        }
                        return Err(ErrorCode::ArithmeticOverflow);
                    }
                    let merged: u64 = cur + share;
                    entries[j] = (who, merged);
                    proof {
                        assert(payout_view(entries@) =~= batch_step(acc, who, spec_share));
                    }
                },
                None => {
                    proof {
                        assert(!has_payee(acc, who)) by {
                            if has_payee(acc, who) {
                                let k = choose|k: int| 0 <= k < acc.len() && acc[k].0 == who;
                                assert(entries@[k].0 == who);
                            }
                        }
                    }
                    entries.push((who, share));
                    proof {
                        assert(payout_view(entries@) =~= batch_step(acc, who, spec_share));
                    }
                },
            }
        } else {
            proof {
                assert(payout_view(entries@) =~= batch_step(acc, who, spec_share));
            }
        }
        proof {
            assert(spec_batch(next_prefix, tr, tbp) == batch_step(
                spec_batch(prefix, tr, tbp),
                who,
                spec_share,
            ));
            if in_reach {
                lemma_share_nonneg(tr, recipients@[i as int].basis_points as int, tbp);
                lemma_batch_step_total(acc, who, spec_share);
            }
        }
        i = i + 1;
    }
    proof {
        assert(recipients@.take(recipients@.len() as int) =~= recipients@);
    }
    Ok(entries)
}

} // verus!
