use anchor_auction::errors::ErrorCode;
use anchor_auction::ids::AccountId;
use anchor_auction::royalty::{
    batch_royalty_recipients, calculate_recipient_share, calculate_royalty_amount,
    create_royalty_config, get_royalty_config_size, update_royalty_config, RecipientType,
    RoyaltyRecipient,
};

fn id(n: u8) -> AccountId {
    AccountId([n; 32])
}

fn recipient(who: u8, bp: u16) -> RoyaltyRecipient {
    RoyaltyRecipient {
        recipient: id(who),
        basis_points: bp,
        recipient_type: RecipientType::Artist,
    }
}

#[test]
fn royalty_amount_floor_values() {
    assert_eq!(calculate_royalty_amount(10000, 1000), Ok(1000));
    assert_eq!(calculate_royalty_amount(999, 1000), Ok(99));
}

#[test]
fn royalty_amount_zero_rate() {
    assert_eq!(calculate_royalty_amount(123456, 0), Ok(0));
}

#[test]
fn royalty_amount_overflow() {
    // u64::MAX * 65535 / 10000 does not fit back into a u64.
    assert_eq!(
        calculate_royalty_amount(u64::MAX, u16::MAX),
        Err(ErrorCode::ArithmeticOverflow)
    );
}

#[test]
fn recipient_share_floor() {
    assert_eq!(calculate_recipient_share(100000, 600, 1000), Ok(60000));
    assert_eq!(calculate_recipient_share(100000, 400, 1000), Ok(40000));
    // 99 * 1 / 3 floors to 33; 100 * 2 / 3 floors to 66.
    assert_eq!(calculate_recipient_share(99, 1, 3), Ok(33));
    assert_eq!(calculate_recipient_share(100, 2, 3), Ok(66));
}

#[test]
fn recipient_share_zero_divisor() {
    assert_eq!(
        calculate_recipient_share(100, 100, 0),
        Err(ErrorCode::ArithmeticOverflow)
    );
}

#[test]
fn create_config_accepts_every_valid_bound() {
    let recipients = vec![recipient(1, 600), recipient(2, 400)];
    let config = create_royalty_config(id(10), id(9), 1000, recipients, true, 254).unwrap();
    assert_eq!(config.mint, id(10));
    assert_eq!(config.authority, id(9));
    assert_eq!(config.total_basis_points, 1000);
    assert_eq!(config.recipients.len(), 2);
    assert!(config.is_mutable);
    assert_eq!(config.bump, 254);

    // The extreme points of the bounds still succeed.
    let five = vec![
        recipient(1, 500),
        recipient(2, 500),
        recipient(3, 500),
        recipient(4, 500),
        recipient(5, 500),
    ];
    assert!(create_royalty_config(id(10), id(9), 2500, five, false, 0).is_ok());
    assert!(create_royalty_config(id(10), id(9), 0, vec![], false, 0).is_ok());
}

#[test]
fn create_config_rejects_excessive_total() {
    let recipients = vec![recipient(1, 2501)];
    assert_eq!(
        create_royalty_config(id(10), id(9), 2501, recipients, true, 0).unwrap_err(),
        ErrorCode::RoyaltyBasisPointsExceedMax
    );
}

#[test]
fn create_config_rejects_too_many_recipients() {
    let recipients = vec![
        recipient(1, 100),
        recipient(2, 100),
        recipient(3, 100),
        recipient(4, 100),
        recipient(5, 100),
        recipient(6, 100),
    ];
    assert_eq!(
        create_royalty_config(id(10), id(9), 600, recipients, true, 0).unwrap_err(),
        ErrorCode::TooManyRoyaltyRecipients
    );
}

#[test]
fn create_config_rejects_sum_mismatch() {
    let recipients = vec![recipient(1, 600), recipient(2, 300)];
    assert_eq!(
        create_royalty_config(id(10), id(9), 1000, recipients, true, 0).unwrap_err(),
        ErrorCode::RoyaltyBasisPointsMismatch
    );
}

#[test]
fn update_config_replaces_list_when_mutable() {
    let mut config =
        create_royalty_config(id(10), id(9), 1000, vec![recipient(1, 1000)], true, 0).unwrap();
    let new_recipients = vec![recipient(2, 300), recipient(3, 200)];
    update_royalty_config(&mut config, id(9), 500, new_recipients).unwrap();
    assert_eq!(config.total_basis_points, 500);
    assert_eq!(config.recipients.len(), 2);
    assert_eq!(config.recipients[0].recipient, id(2));
    // Identity fields survive the update.
    assert_eq!(config.mint, id(10));
    assert_eq!(config.authority, id(9));
    assert!(config.is_mutable);
}

#[test]
fn update_config_rejects_immutable() {
    let mut config =
        create_royalty_config(id(10), id(9), 1000, vec![recipient(1, 1000)], false, 0).unwrap();
    let r = update_royalty_config(&mut config, id(9), 500, vec![recipient(2, 500)]);
    assert_eq!(r.unwrap_err(), ErrorCode::ImmutableRoyaltyConfig);
    // The record is unchanged.
    assert_eq!(config.total_basis_points, 1000);
    assert_eq!(config.recipients.len(), 1);
    assert_eq!(config.recipients[0].recipient, id(1));
}

#[test]
fn update_config_rejects_foreign_authority() {
    let mut config =
        create_royalty_config(id(10), id(9), 1000, vec![recipient(1, 1000)], true, 0).unwrap();
    let r = update_royalty_config(&mut config, id(8), 500, vec![recipient(2, 500)]);
    assert_eq!(r.unwrap_err(), ErrorCode::UnauthorizedRoyaltyUpdate);
    assert_eq!(config.total_basis_points, 1000);
}

#[test]
fn update_config_rejects_bad_bounds() {
    let mut config =
        create_royalty_config(id(10), id(9), 1000, vec![recipient(1, 1000)], true, 0).unwrap();
    assert_eq!(
        update_royalty_config(&mut config, id(9), 2600, vec![recipient(1, 2600)]).unwrap_err(),
        ErrorCode::RoyaltyBasisPointsExceedMax
    );
    assert_eq!(
        update_royalty_config(&mut config, id(9), 400, vec![recipient(1, 300)]).unwrap_err(),
        ErrorCode::RoyaltyBasisPointsMismatch
    );
    assert_eq!(config.total_basis_points, 1000);
}

#[test]
fn batch_merges_same_destination() {
    // 300 and 200 of a 500-bp total on a royalty of 50000 combine into one
    // transfer of the whole royalty.
    let recipients = vec![recipient(1, 300), recipient(1, 200)];
    let batched = batch_royalty_recipients(&recipients, 50000, 500).unwrap();
    assert_eq!(batched, vec![(id(1), 50000)]);
}

#[test]
fn batch_drops_zero_shares_and_keeps_order() {
    let recipients = vec![recipient(7, 1), recipient(3, 600), recipient(4, 399)];
    // Shares of 10: floor(10*1/1000) = 0 (dropped), floor(10*600/1000) = 6,
    // floor(10*399/1000) = 3.
    let batched = batch_royalty_recipients(&recipients, 10, 1000).unwrap();
    assert_eq!(batched, vec![(id(3), 6), (id(4), 3)]);
}

#[test]
fn batch_of_empty_list_is_empty() {
    let batched = batch_royalty_recipients(&vec![], 1000, 500).unwrap();
    assert!(batched.is_empty());
}

#[test]
fn config_size_is_base_plus_stride() {
    assert_eq!(get_royalty_config_size(0), 80);
    assert_eq!(get_royalty_config_size(1), 115);
    assert_eq!(get_royalty_config_size(5), 255);
}
