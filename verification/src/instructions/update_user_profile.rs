use vstd::prelude::*;

use crate::constants::{MAX_BIO_LEN, MAX_USERNAME_LEN};
use crate::errors::TradaryError;
use crate::key::Pubkey;
use crate::state::UserAccount;
use crate::text::{byte_len, string_byte_len};

verus! {

/// Profile fields to change; `None` leaves a field as it is.
#[derive(Clone, Debug)]
pub struct UpdateUserProfileParams {
    pub username: Option<String>,
    pub bio: Option<String>,
    pub privacy_enabled: Option<bool>,
}

/// Why updating the profile of `user` with `params` on behalf of `signer` is
/// refused, checked in this order; `None` when it succeeds.
pub open spec fn update_user_profile_error(
    user: UserAccount,
    signer: Pubkey,
    params: UpdateUserProfileParams,
) -> Option<TradaryError> {
    if user.owner != signer {
        Some(TradaryError::Unauthorized)
    } else if params.username matches Some(name) && byte_len(name@) > MAX_USERNAME_LEN {
        Some(TradaryError::UsernameTooLong)
    } else if params.bio matches Some(bio) && byte_len(bio@) > MAX_BIO_LEN {
        Some(TradaryError::BioTooLong)
    } else {
        None
    }
}

/// Replaces the given profile fields. On any error the profile does not
/// change.
pub fn handler(
    user: &mut UserAccount,
    signer: &Pubkey,
    params: UpdateUserProfileParams,
) -> (res: Result<(), TradaryError>)
    ensures
        match res {
            Err(e) => {
                &&& update_user_profile_error(*old(user), *signer, params) == Some(e)
                &&& *final(user) == *old(user)
            },
            Ok(()) => {
                &&& update_user_profile_error(*old(user), *signer, params) is None
                &&& final(user).same_except_profile(old(user))
                &&& final(user).username@ == match params.username {
                    Some(name) => name@,
                    None => old(user).username@,
                }
                &&& final(user).bio@ == match params.bio {
                    Some(bio) => bio@,
                    None => old(user).bio@,
                }
                &&& final(user).privacy_enabled == match params.privacy_enabled {
                    Some(p) => p,
                    None => old(user).privacy_enabled,
                }
            },
        },
        old(user).wf() ==> final(user).wf(),
{
    if !user.owner.same_as(signer) {
        return Err(TradaryError::Unauthorized);
    }
    if let Some(name) = &params.username {
        if string_byte_len(name) > MAX_USERNAME_LEN {
            return Err(TradaryError::UsernameTooLong);
        }
    }
    if let Some(bio) = &params.bio {
        if string_byte_len(bio) > MAX_BIO_LEN {
            return Err(TradaryError::BioTooLong);
        }
    }
    if let Some(name) = params.username {
        user.username = name;
    }
    if let Some(bio) = params.bio {
        user.bio = bio;
    }
    if let Some(privacy_enabled) = params.privacy_enabled {
        user.privacy_enabled = privacy_enabled;
    }
    Ok(())
}

/// A profile update is accepted exactly when the signer owns the profile,
/// a new user name (if any) has at most 32 bytes and a new bio (if any) at
/// most 128 bytes; a refusal names the first failed check in that order.
pub proof fn lemma_update_profile_accepts_valid_fields(
    user: UserAccount,
    signer: Pubkey,
    params: UpdateUserProfileParams,
)
    ensures
        ({
            let owner_ok = user.owner == signer;
            let name_ok = params.username matches Some(name) ==> byte_len(name@) <= 32;
            let bio_ok = params.bio matches Some(bio) ==> byte_len(bio@) <= 128;
            let e = update_user_profile_error(user, signer, params);
            &&& (e is None <==> owner_ok && name_ok && bio_ok)
            &&& (e == Some(TradaryError::Unauthorized) <==> !owner_ok)
            &&& (e == Some(TradaryError::UsernameTooLong) <==> owner_ok && !name_ok)
            &&& (e == Some(TradaryError::BioTooLong) <==> owner_ok && name_ok && !bio_ok)
        }),
{
}

} // verus!
