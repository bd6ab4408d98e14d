use vstd::prelude::*;

use crate::constants::{CURRENT_VERSION, MAX_BIO_LEN, MAX_USERNAME_LEN};
use crate::errors::TradaryError;
use crate::key::Pubkey;
use crate::state::{TradingStats, UserAccount};
use crate::text::{byte_len, string_byte_len};

verus! {

broadcast use vstd::array::group_array_axioms;

/// What is announced when a profile has been created.
#[derive(Clone, Copy, Debug)]
pub struct UserInitialized {
    pub owner: Pubkey,
    pub created_at: i64,
}

/// Why a profile with this name and bio is refused, checked in this order;
/// `None` when it is accepted.
pub open spec fn initialize_user_error(username: Seq<char>, bio: Seq<char>) -> Option<TradaryError> {
    if byte_len(username) > MAX_USERNAME_LEN {
        Some(TradaryError::UsernameTooLong)
    } else if byte_len(bio) > MAX_BIO_LEN {
        Some(TradaryError::BioTooLong)
    } else {
        None
    }
}

/// Creates the journal profile of `owner`, with no trades, no tags and fresh
/// statistics.
pub fn handler(
    owner: &Pubkey,
    bump: u8,
    username: String,
    bio: String,
    privacy_enabled: bool,
    now: i64,
) -> (res: Result<(UserAccount, UserInitialized), TradaryError>)
    ensures
        match res {
            Err(e) => initialize_user_error(username@, bio@) == Some(e),
            Ok((user, event)) => {
                &&& initialize_user_error(username@, bio@) is None
                &&& user.version == CURRENT_VERSION
                &&& user.owner == *owner
                &&& user.bump == bump
                &&& user.username@ == username@
                &&& user.bio@ == bio@
                &&& user.created_at == now
                &&& user.trade_count == 0
                &&& user.tag_count == 0
                &&& user.stats.is_fresh()
                &&& (forall|i: int| 0 <= i < 16 ==> user.stats._reserved[i] == 0)
                &&& user.privacy_enabled == privacy_enabled
                &&& (forall|i: int| 0 <= i < 32 ==> user._reserved[i] == 0)
                &&& user.wf()
                &&& event == UserInitialized { owner: *owner, created_at: now }
            },
        },
{
    if string_byte_len(&username) > MAX_USERNAME_LEN {
        return Err(TradaryError::UsernameTooLong);
    }
    if string_byte_len(&bio) > MAX_BIO_LEN {
        return Err(TradaryError::BioTooLong);
    }
    let user = UserAccount {
        version: CURRENT_VERSION,
        owner: *owner,
        bump,
        username,
        bio,
        created_at: now,
        trade_count: 0,
        tag_count: 0,
        stats: TradingStats::default(),
        privacy_enabled,
        _reserved: [0u8; 32],
    };
    Ok((user, UserInitialized { owner: *owner, created_at: now }))
}

/// A profile is created exactly when the user name has at most 32 bytes
/// (the empty name included) and the bio at most 128 bytes; a too long name
/// is reported before a too long bio.
pub proof fn lemma_initialize_user_accepts_valid_profiles(username: Seq<char>, bio: Seq<char>)
    ensures
        initialize_user_error(username, bio) is None <==> byte_len(username) <= 32 && byte_len(bio)
            <= 128,
        initialize_user_error(username, bio) == Some(TradaryError::UsernameTooLong) <==> byte_len(
            username,
        ) > 32,
        initialize_user_error(username, bio) == Some(TradaryError::BioTooLong) <==> byte_len(username)
            <= 32 && byte_len(bio) > 128,
{
}

} // verus!
