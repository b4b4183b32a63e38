use anchor_auction::errors::ErrorCode;
use anchor_auction::ids::{AccountId, TokenHolding};
use anchor_auction::royalty::{create_royalty_config, RecipientType, RoyaltyRecipient};
use anchor_auction::settlement::{process_sale_with_royalties, TransferStep};

fn id(n: u8) -> AccountId {
    AccountId([n; 32])
}

fn holding(address: u8, mint: u8, owner: u8, amount: u64) -> TokenHolding {
    TokenHolding {
        address: id(address),
        mint: id(mint),
        owner: id(owner),
        amount,
        frozen: false,
    }
}

fn recipient(who: u8, bp: u16) -> RoyaltyRecipient {
    RoyaltyRecipient {
        recipient: id(who),
        basis_points: bp,
        recipient_type: RecipientType::Collaborator,
    }
}

// The fixed cast: asset mint 10, seller 11 (asset in 13, paid into 15),
// buyer 12 (paying from 14), payment mint 50.
fn seller_nft() -> TokenHolding {
    holding(13, 10, 11, 1)
}

fn buyer_payment(amount: u64) -> TokenHolding {
    holding(14, 50, 12, amount)
}

fn seller_payment() -> TokenHolding {
    holding(15, 50, 11, 0)
}

#[test]
fn sale_splits_royalty_and_residual() {
    // sale 1_000_000 at 1000 bp: royalty 100_000; recipient A (600 bp of
    // 1000) gets 60_000, B (400 bp) gets 40_000, the seller 900_000.
    let config = create_royalty_config(
        id(10),
        id(9),
        1000,
        vec![recipient(1, 600), recipient(2, 400)],
        true,
        0,
    )
    .unwrap();
    let accounts = vec![holding(21, 50, 1, 0), holding(22, 50, 2, 0)];
    let plan = process_sale_with_royalties(
        &config,
        1_000_000,
        id(10),
        id(11),
        &seller_nft(),
        id(12),
        &buyer_payment(2_000_000),
        &seller_payment(),
        &accounts,
    )
    .unwrap();
    assert_eq!(
        plan,
        vec![
            TransferStep {
                from: id(14),
                to: id(21),
                amount: 60_000,
            },
            TransferStep {
                from: id(14),
                to: id(22),
                amount: 40_000,
            },
            TransferStep {
                from: id(14),
                to: id(15),
                amount: 900_000,
            },
        ]
    );
    let total: u64 = plan.iter().map(|t| t.amount).sum();
    assert_eq!(total, 1_000_000);
}

#[test]
fn shared_destination_batches_into_one_transfer() {
    // Two recipients with one destination and 300/200 bp of a 500-bp total
    // batch into a single transfer of the combined share.
    let config = create_royalty_config(
        id(10),
        id(9),
        500,
        vec![recipient(1, 300), recipient(1, 200)],
        true,
        0,
    )
    .unwrap();
    let accounts = vec![holding(21, 50, 1, 0), holding(21, 50, 1, 0)];
    let plan = process_sale_with_royalties(
        &config,
        1_000_000,
        id(10),
        id(11),
        &seller_nft(),
        id(12),
        &buyer_payment(1_000_000),
        &seller_payment(),
        &accounts,
    )
    .unwrap();
    // Royalty 50_000, all of it to the one destination, residual 950_000.
    assert_eq!(
        plan,
        vec![
            TransferStep {
                from: id(14),
                to: id(21),
                amount: 50_000,
            },
            TransferStep {
                from: id(14),
                to: id(15),
                amount: 950_000,
            },
        ]
    );
}

#[test]
fn no_royalty_goes_straight_to_the_seller() {
    let config = create_royalty_config(id(10), id(9), 0, vec![], true, 0).unwrap();
    let plan = process_sale_with_royalties(
        &config,
        777,
        id(10),
        id(11),
        &seller_nft(),
        id(12),
        &buyer_payment(0),
        &seller_payment(),
        &vec![],
    )
    .unwrap();
    assert_eq!(
        plan,
        vec![TransferStep {
            from: id(14),
            to: id(15),
            amount: 777,
        }]
    );
}

#[test]
fn rounded_away_royalty_goes_straight_to_the_seller() {
    // 9 * 1000 / 10000 floors to 0: no royalty path at all.
    let config =
        create_royalty_config(id(10), id(9), 1000, vec![recipient(1, 1000)], true, 0).unwrap();
    let plan = process_sale_with_royalties(
        &config,
        9,
        id(10),
        id(11),
        &seller_nft(),
        id(12),
        &buyer_payment(0),
        &seller_payment(),
        &vec![holding(21, 50, 1, 0)],
    )
    .unwrap();
    assert_eq!(plan.len(), 1);
    assert_eq!(plan[0].amount, 9);
}

#[test]
fn underfunded_buyer_fails() {
    let config =
        create_royalty_config(id(10), id(9), 1000, vec![recipient(1, 1000)], true, 0).unwrap();
    let r = process_sale_with_royalties(
        &config,
        1_000_000,
        id(10),
        id(11),
        &seller_nft(),
        id(12),
        &buyer_payment(999_999),
        &seller_payment(),
        &vec![holding(21, 50, 1, 0)],
    );
    assert_eq!(r.unwrap_err(), ErrorCode::InsufficientFunds);
}

#[test]
fn missing_recipient_account_fails() {
    let config = create_royalty_config(
        id(10),
        id(9),
        1000,
        vec![recipient(1, 600), recipient(2, 400)],
        true,
        0,
    )
    .unwrap();
    let r = process_sale_with_royalties(
        &config,
        1_000_000,
        id(10),
        id(11),
        &seller_nft(),
        id(12),
        &buyer_payment(2_000_000),
        &seller_payment(),
        &vec![holding(21, 50, 1, 0)],
    );
    assert_eq!(r.unwrap_err(), ErrorCode::MissingExpectedAccount);
}

#[test]
fn mismatched_mints_fail() {
    let config =
        create_royalty_config(id(10), id(9), 1000, vec![recipient(1, 1000)], true, 0).unwrap();
    // A recipient account of another asset type.
    let r = process_sale_with_royalties(
        &config,
        1_000_000,
        id(10),
        id(11),
        &seller_nft(),
        id(12),
        &buyer_payment(2_000_000),
        &seller_payment(),
        &vec![holding(21, 51, 1, 0)],
    );
    assert_eq!(r.unwrap_err(), ErrorCode::TokenMintMismatch);
    // A seller payout account of another asset type.
    let r2 = process_sale_with_royalties(
        &config,
        1_000_000,
        id(10),
        id(11),
        &seller_nft(),
        id(12),
        &buyer_payment(2_000_000),
        &holding(15, 51, 11, 0),
        &vec![holding(21, 50, 1, 0)],
    );
    assert_eq!(r2.unwrap_err(), ErrorCode::TokenMintMismatch);
}

#[test]
fn foreign_config_fails() {
    // The configuration belongs to another mint.
    let config =
        create_royalty_config(id(33), id(9), 1000, vec![recipient(1, 1000)], true, 0).unwrap();
    let r = process_sale_with_royalties(
        &config,
        1_000_000,
        id(10),
        id(11),
        &TokenHolding {
            address: id(13),
            mint: id(10),
            owner: id(11),
            amount: 1,
            frozen: false,
        },
        id(12),
        &buyer_payment(2_000_000),
        &seller_payment(),
        &vec![holding(21, 50, 1, 0)],
    );
    assert_eq!(r.unwrap_err(), ErrorCode::InvalidRoyaltyConfig);
}

#[test]
fn seller_without_the_asset_fails() {
    let config =
        create_royalty_config(id(10), id(9), 1000, vec![recipient(1, 1000)], true, 0).unwrap();
    let r = process_sale_with_royalties(
        &config,
        1_000_000,
        id(10),
        id(11),
        &holding(13, 10, 11, 0),
        id(12),
        &buyer_payment(2_000_000),
        &seller_payment(),
        &vec![holding(21, 50, 1, 0)],
    );
    assert_eq!(r.unwrap_err(), ErrorCode::InvalidNFTOwnership);
}

#[test]
fn every_plan_moves_exactly_the_sale_price() {
    // Floors strew dust: 100001 at 777 bp over three recipients; whatever
    // rounds away lands in the seller's residual.
    let config = create_royalty_config(
        id(10),
        id(9),
        777,
        vec![recipient(1, 259), recipient(2, 259), recipient(3, 259)],
        true,
        0,
    )
    .unwrap();
    let accounts = vec![
        holding(21, 50, 1, 0),
        holding(22, 50, 2, 0),
        holding(23, 50, 3, 0),
    ];
    let plan = process_sale_with_royalties(
        &config,
        100_001,
        id(10),
        id(11),
        &seller_nft(),
        id(12),
        &buyer_payment(200_000),
        &seller_payment(),
        &accounts,
    )
    .unwrap();
    let total: u64 = plan.iter().map(|t| t.amount).sum();
    assert_eq!(total, 100_001);
}
