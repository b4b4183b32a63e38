//! Music tracks and playback authorization.
//!
//! An external collaborator to the auction core: tracks are registered with
//! their URIs, collections of asset mints are authorized per track, and
//! playback is granted either publicly, through a still-fresh cached
//! authorization, or by holding one unfrozen unit of an authorized asset
//! whose metadata record address checks out against the metadata oracle's
//! derivation.

use vstd::prelude::*;
use vstd::string::StringSliceAdditionalSpecFns;
use crate::ids::{AccountId, TokenHolding};
use crate::errors::ErrorCode;
use crate::pda::{pda_of, key_of_base58, parse_base58_key, find_metadata_pda};

verus! {

/// A registered music track.
#[derive(Clone, Debug)]
pub struct MusicTrack {
    /// The creator that owns the track.
    pub authority: AccountId,
    /// The unique identifier of the track.
    pub track_id: String,
    /// Where the full music file lives.
    pub track_uri: String,
    /// Where the free preview lives.
    pub preview_uri: String,
    /// Where the track metadata lives.
    pub metadata_uri: String,
    /// The asset mints whose holders may play the track.
    pub authorized_collections: Vec<AccountId>,
    /// Whether anyone may play the track without holding an asset.
    pub is_public: bool,
}

/// The registry counting the registered tracks.
pub struct AuthorizationRegistry {
    /// The administrator of global settings.
    pub authority: AccountId,
    /// How many tracks have been registered.
    pub track_count: u64,
    /// The derivation bump of the registry record.
    pub bump: u8,
}

/// A cached playback authorization with a time-to-live.
#[derive(Clone, Debug, PartialEq)]
pub struct UserAuthCache {
    /// The authorized user.
    pub user: AccountId,
    /// The track the authorization is for.
    pub track_id: String,
    /// When the authorization lapses.
    pub expires_at: i64,
}

/// The most collections one track may authorize.
pub const MAX_AUTHORIZED_COLLECTIONS: usize = 20;

/// How long a cached authorization lives, in seconds.
pub const AUTH_CACHE_TTL_SECS: i64 = 3600;

/// Initializes a track record with the given fields and an empty collection
/// list, and counts it in the registry; the first registration also claims
/// the registry for the registering authority.
pub fn register_music_track(
    registry: &mut AuthorizationRegistry,
    authority: AccountId,
    track_id: String,
    track_uri: String,
    preview_uri: String,
    metadata_uri: String,
    is_public: bool,
) -> (track: MusicTrack)
    requires
        old(registry).track_count < u64::MAX,
    ensures
        track.authority == authority,
        track.track_id@ == track_id@,
        track.track_uri@ == track_uri@,
        track.preview_uri@ == preview_uri@,
        track.metadata_uri@ == metadata_uri@,
        track.authorized_collections@ == Seq::<AccountId>::empty(),
        track.is_public == is_public,
        final(registry).track_count == old(registry).track_count + 1,
        final(registry).authority == if old(registry).track_count == 0 {
            authority
        } else {
            old(registry).authority
        },
        final(registry).bump == old(registry).bump,
{
    let track = MusicTrack {
        authority,
        track_id,
        track_uri,
        preview_uri,
        metadata_uri,
        authorized_collections: Vec::new(),
        is_public,
    };
    if registry.track_count == 0 {
        registry.authority = authority;
    }
    registry.track_count = registry.track_count + 1;
    track
}

/// Whether the list already holds the identity.
fn contains_account(list: &Vec<AccountId>, needle: &AccountId) -> (r: bool)
    ensures
        r == list@.contains(*needle),
{
    let mut i: usize = 0;
    while i < list.len()
        invariant
            0 <= i <= list@.len(),
            forall|j: int| 0 <= j < i ==> list@[j] != *needle,
        decreases list@.len() - i,
    {
        if list[i] == *needle {
            return true;
        }
        i = i + 1;
    }
    false
}

/// Adds a collection mint to the track's authorized list. Only the track
/// authority may add; an already-listed mint is left as it is; the list is
/// capped to prevent excessive storage costs. Any failure leaves the track
/// unchanged.
pub fn add_authorized_collection(
    track: &mut MusicTrack,
    caller: AccountId,
    collection_mint: AccountId,
) -> (r: Result<(), ErrorCode>)
    ensures
        caller != old(track).authority ==> r == Err::<(), ErrorCode>(
            ErrorCode::UnauthorizedPlayback,
        ) && *final(track) == *old(track),
        caller == old(track).authority && old(track).authorized_collections@.contains(
            collection_mint,
        ) ==> r is Ok && *final(track) == *old(track),
        caller == old(track).authority && !old(track).authorized_collections@.contains(
            collection_mint,
        ) && old(track).authorized_collections@.len() >= MAX_AUTHORIZED_COLLECTIONS ==> r
            == Err::<(), ErrorCode>(ErrorCode::InvalidMusicTrack) && *final(track) == *old(track),
        caller == old(track).authority && !old(track).authorized_collections@.contains(
            collection_mint,
        ) && old(track).authorized_collections@.len() < MAX_AUTHORIZED_COLLECTIONS ==> r is Ok && {
            &&& final(track).authorized_collections@ == old(
                track,
            ).authorized_collections@.push(collection_mint)
            &&& final(track).authority == old(track).authority
            &&& final(track).track_id@ == old(track).track_id@
            &&& final(track).is_public == old(track).is_public
        },
{
    if caller != track.authority {
        return Err(ErrorCode::UnauthorizedPlayback);
    }
    if contains_account(&track.authorized_collections, &collection_mint) {
        return Ok(());
    }
    if track.authorized_collections.len() >= MAX_AUTHORIZED_COLLECTIONS {
        return Err(ErrorCode::InvalidMusicTrack);
    }
    track.authorized_collections.push(collection_mint);
    Ok(())
}

/// Initializes an empty authorization cache for a user and a track; the
/// actual authorization is written by a later playback verification.
pub fn create_user_auth_cache(user: AccountId, track_id: String) -> (cache: UserAuthCache)
    ensures
        cache.user == user,
        cache.track_id@ == track_id@,
        cache.expires_at == 0,
{
    UserAuthCache { user, track_id, expires_at: 0 }
}

/// Whether `program` is the one metadata oracle program the engine trusts.
pub open spec fn is_metadata_program(program: AccountId) -> bool {
    key_of_base58("metaqbxxUerdq28cj1RbAWkYQm3ybzjb6a8bt518x1s"@) == Some(program)
}

/// The full playback decision, stated over the inputs alone: a fresh cache
/// grants and writes nothing; a public track grants and refreshes a supplied
/// cache; otherwise the caller must name the trusted metadata program and
/// hold one unfrozen unit of an authorized collection mint whose supplied
/// metadata record sits at the oracle's derived address.
pub open spec fn spec_playback_decision(
    track: MusicTrack,
    user: AccountId,
    cache: Option<UserAuthCache>,
    user_token: Option<TokenHolding>,
    metadata_key: Option<AccountId>,
    metadata_program: AccountId,
    now: i64,
) -> Result<Option<UserAuthCache>, ErrorCode> {
    let refreshed = if cache is Some {
        Some(
            UserAuthCache {
                user,
                track_id: track.track_id,
                expires_at: (now + AUTH_CACHE_TTL_SECS) as i64,
            },
        )
    } else {
        None
    };
    if cache matches Some(c) && c.expires_at > now {
        Ok(None)
    } else if track.is_public {
        Ok(refreshed)
    } else if !is_metadata_program(metadata_program) {
        Err(ErrorCode::InvalidMetadataProgram)
    } else {
        match user_token {
            Some(tok) => {
                if tok.owner != user || tok.amount != 1 || tok.frozen {
                    Err(ErrorCode::InvalidNFTOwnership)
                } else {
                    match metadata_key {
                        Some(meta) => {
                            match pda_of(
                                "metadata".spec_bytes(),
                                seq![metadata_program, tok.mint],
                                metadata_program,
                            ) {
                                Some(expected) => {
                                    if meta != expected.0 {
                                        Err(ErrorCode::InvalidNFTMetadata)
                                    } else if track.authorized_collections@.contains(tok.mint) {
                                        Ok(refreshed)
                                    } else {
                                        Err(ErrorCode::UnauthorizedPlayback)
                                    }
                                },
                                None => Err(ErrorCode::InvalidNFTMetadata),
                            }
                        },
                        None => Err(ErrorCode::UnauthorizedPlayback),
                    }
                }
            },
            None => Err(ErrorCode::UnauthorizedPlayback),
        }
    }
}

/// Decides playback for `user` on `track` at time `now`, as
/// [`spec_playback_decision`] states it. On a grant the result carries the
/// cache record to store, if a cache account was supplied and the grant did
/// not come from a still-fresh cache.
pub fn verify_playback_authorization(
    track: &MusicTrack,
    user: AccountId,
    cache: Option<&UserAuthCache>,
    user_token: Option<&TokenHolding>,
    metadata_key: Option<&AccountId>,
    metadata_program: AccountId,
    now: i64,
) -> (r: Result<Option<UserAuthCache>, ErrorCode>)
    requires
        now + AUTH_CACHE_TTL_SECS <= i64::MAX,
    ensures
        r == spec_playback_decision(
            *track,
            user,
            match cache {
                Some(c) => Some(*c),
                None => None,
            },
            match user_token {
                Some(t) => Some(*t),
                None => None,
            },
            match metadata_key {
                Some(m) => Some(*m),
                None => None,
            },
            metadata_program,
            now,
        ),
{
    let has_cache = cache.is_some();
    if let Some(c) = cache {
        if c.expires_at > now {
            return Ok(None);
        }
    }
    if track.is_public {
        return Ok(
            if has_cache {
                Some(
                    UserAuthCache {
                        user,
                        track_id: track.track_id.clone(),
                        expires_at: now + AUTH_CACHE_TTL_SECS,
                    },
                )
            } else {
                None
            },
        );
    }
    let expected_program = match parse_base58_key(
        "metaqbxxUerdq28cj1RbAWkYQm3ybzjb6a8bt518x1s",
    ) {
        Some(k) => k,
        None => {
            return Err(ErrorCode::InvalidMetadataProgram);
        },
    };
    if metadata_program != expected_program {
        return Err(ErrorCode::InvalidMetadataProgram);
    }
    if let Some(tok) = user_token {
        if tok.owner != user || tok.amount != 1 || tok.frozen {
            return Err(ErrorCode::InvalidNFTOwnership);
        }
        if let Some(meta) = metadata_key {
            match find_metadata_pda(&metadata_program, &tok.mint) {
                Some((expected, _bump)) => {
                    if *meta != expected {
                        return Err(ErrorCode::InvalidNFTMetadata);
                    }
                    if contains_account(&track.authorized_collections, &tok.mint) {
                        return Ok(
                            if has_cache {
                                Some(
                                    UserAuthCache {
                                        user,
                                        track_id: track.track_id.clone(),
                                        expires_at: now + AUTH_CACHE_TTL_SECS,
                                    },
                                )
                            } else {
                                None
                            },
                        );
                    }
                    Err(ErrorCode::UnauthorizedPlayback)
                },
                None => Err(ErrorCode::InvalidNFTMetadata),
            }
        } else {
            Err(ErrorCode::UnauthorizedPlayback)
        }
    } else {
        Err(ErrorCode::UnauthorizedPlayback)
    }
}

} // verus!
