use anchor_auction::errors::ErrorCode;
use anchor_auction::ids::{AccountId, TokenHolding};
use anchor_auction::pda::{derive_custodian, find_metadata_pda, find_royalty_config_pda};
use anchor_auction::track::{
    add_authorized_collection, create_user_auth_cache, register_music_track,
    verify_playback_authorization, AuthorizationRegistry, MusicTrack, UserAuthCache,
};

fn id(n: u8) -> AccountId {
    AccountId([n; 32])
}

/// The trusted metadata oracle program, decoded from its well-known base58
/// form.
fn metadata_program() -> AccountId {
    AccountId([
        11, 112, 101, 177, 227, 209, 124, 69, 56, 157, 82, 127, 107, 4, 195, 205, 88, 184, 108,
        115, 26, 160, 253, 181, 73, 182, 209, 188, 3, 248, 41, 70,
    ])
}

fn registry() -> AuthorizationRegistry {
    AuthorizationRegistry {
        authority: id(0),
        track_count: 0,
        bump: 1,
    }
}

fn track(authority: u8, is_public: bool) -> MusicTrack {
    let mut reg = registry();
    register_music_track(
        &mut reg,
        id(authority),
        String::from("track-1"),
        String::from("ipfs://track"),
        String::from("ipfs://preview"),
        String::from("ipfs://meta"),
        is_public,
    )
}

#[test]
fn registering_counts_and_claims_the_registry() {
    let mut reg = registry();
    let t = register_music_track(
        &mut reg,
        id(5),
        String::from("track-1"),
        String::from("a"),
        String::from("b"),
        String::from("c"),
        false,
    );
    assert_eq!(t.authority, id(5));
    assert_eq!(t.track_id, "track-1");
    assert!(t.authorized_collections.is_empty());
    assert!(!t.is_public);
    // The first registration claims the registry.
    assert_eq!(reg.track_count, 1);
    assert_eq!(reg.authority, id(5));
    // A later one only counts.
    register_music_track(
        &mut reg,
        id(6),
        String::from("track-2"),
        String::from("a"),
        String::from("b"),
        String::from("c"),
        false,
    );
    assert_eq!(reg.track_count, 2);
    assert_eq!(reg.authority, id(5));
}

#[test]
fn collections_deduplicate_and_cap() {
    let mut t = track(5, false);
    add_authorized_collection(&mut t, id(5), id(40)).unwrap();
    add_authorized_collection(&mut t, id(5), id(40)).unwrap();
    assert_eq!(t.authorized_collections.len(), 1);
    assert_eq!(
        add_authorized_collection(&mut t, id(6), id(41)).unwrap_err(),
        ErrorCode::UnauthorizedPlayback
    );
    for n in 41..60 {
        add_authorized_collection(&mut t, id(5), id(n)).unwrap();
    }
    assert_eq!(t.authorized_collections.len(), 20);
    assert_eq!(
        add_authorized_collection(&mut t, id(5), id(60)).unwrap_err(),
        ErrorCode::InvalidMusicTrack
    );
    assert_eq!(t.authorized_collections.len(), 20);
}

#[test]
fn fresh_cache_grants_without_writing() {
    let t = track(5, false);
    let cache = UserAuthCache {
        user: id(7),
        track_id: String::from("track-1"),
        expires_at: 2000,
    };
    let r = verify_playback_authorization(&t, id(7), Some(&cache), None, None, id(0), 1999);
    assert_eq!(r.unwrap(), None);
}

#[test]
fn public_track_grants_and_refreshes_a_supplied_cache() {
    let t = track(5, true);
    let stale = create_user_auth_cache(id(7), String::from("track-1"));
    assert_eq!(stale.expires_at, 0);
    let r = verify_playback_authorization(&t, id(7), Some(&stale), None, None, id(0), 1000);
    let written = r.unwrap().unwrap();
    assert_eq!(written.user, id(7));
    assert_eq!(written.track_id, "track-1");
    assert_eq!(written.expires_at, 4600);
    // Without a cache account nothing is written.
    let r2 = verify_playback_authorization(&t, id(7), None, None, None, id(0), 1000);
    assert_eq!(r2.unwrap(), None);
}

#[test]
fn private_track_requires_the_trusted_metadata_program() {
    let t = track(5, false);
    let r = verify_playback_authorization(&t, id(7), None, None, None, id(33), 1000);
    assert_eq!(r.unwrap_err(), ErrorCode::InvalidMetadataProgram);
}

#[test]
fn holder_of_an_authorized_asset_is_granted() {
    let mut t = track(5, false);
    add_authorized_collection(&mut t, id(5), id(40)).unwrap();
    let token = TokenHolding {
        address: id(8),
        mint: id(40),
        owner: id(7),
        amount: 1,
        frozen: false,
    };
    let (meta, _bump) = find_metadata_pda(&metadata_program(), &id(40)).unwrap();
    let r = verify_playback_authorization(
        &t,
        id(7),
        None,
        Some(&token),
        Some(&meta),
        metadata_program(),
        1000,
    );
    assert_eq!(r.unwrap(), None);
}

#[test]
fn wrong_metadata_record_fails() {
    let mut t = track(5, false);
    add_authorized_collection(&mut t, id(5), id(40)).unwrap();
    let token = TokenHolding {
        address: id(8),
        mint: id(40),
        owner: id(7),
        amount: 1,
        frozen: false,
    };
    let wrong = id(9);
    let r = verify_playback_authorization(
        &t,
        id(7),
        None,
        Some(&token),
        Some(&wrong),
        metadata_program(),
        1000,
    );
    assert_eq!(r.unwrap_err(), ErrorCode::InvalidNFTMetadata);
}

#[test]
fn frozen_or_foreign_tokens_fail() {
    let t = track(5, false);
    let frozen = TokenHolding {
        address: id(8),
        mint: id(40),
        owner: id(7),
        amount: 1,
        frozen: true,
    };
    let r = verify_playback_authorization(
        &t,
        id(7),
        None,
        Some(&frozen),
        None,
        metadata_program(),
        1000,
    );
    assert_eq!(r.unwrap_err(), ErrorCode::InvalidNFTOwnership);
    let foreign = TokenHolding {
        address: id(8),
        mint: id(40),
        owner: id(9),
        amount: 1,
        frozen: false,
    };
    let r2 = verify_playback_authorization(
        &t,
        id(7),
        None,
        Some(&foreign),
        None,
        metadata_program(),
        1000,
    );
    assert_eq!(r2.unwrap_err(), ErrorCode::InvalidNFTOwnership);
}

#[test]
fn unauthorized_mint_is_refused() {
    let t = track(5, false);
    let token = TokenHolding {
        address: id(8),
        mint: id(40),
        owner: id(7),
        amount: 1,
        frozen: false,
    };
    let (meta, _bump) = find_metadata_pda(&metadata_program(), &id(40)).unwrap();
    let r = verify_playback_authorization(
        &t,
        id(7),
        None,
        Some(&token),
        Some(&meta),
        metadata_program(),
        1000,
    );
    assert_eq!(r.unwrap_err(), ErrorCode::UnauthorizedPlayback);
}

#[test]
fn derived_addresses_are_deterministic_and_fresh() {
    let program = id(1);
    let (pda_a, _bump_a) = find_royalty_config_pda(&program, &id(10)).unwrap();
    let (pda_a2, _) = find_royalty_config_pda(&program, &id(10)).unwrap();
    let (pda_b, _) = find_royalty_config_pda(&program, &id(11)).unwrap();
    assert_eq!(pda_a, pda_a2);
    assert_ne!(pda_a, pda_b);
    // The derivation really transforms its inputs.
    assert_ne!(pda_a, id(10));
    assert_ne!(pda_a, program);
}

#[test]
fn one_custodian_per_program() {
    let c1 = derive_custodian(&id(1)).unwrap();
    let c2 = derive_custodian(&id(1)).unwrap();
    assert_eq!(c1.authority, c2.authority);
    assert_eq!(c1.bump, c2.bump);
    assert_ne!(c1.authority, id(1));
}
