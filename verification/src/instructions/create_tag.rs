use vstd::prelude::*;

use crate::constants::{MAX_TAG_NAME_LEN, MAX_TAGS_PER_USER};
use crate::errors::TradaryError;
use crate::key::Pubkey;
use crate::state::{TagAccount, UserAccount};
use crate::text::{byte_len, string_byte_len};

verus! {

/// What is announced when a tag has been created.
#[derive(Clone, Debug)]
pub struct TagCreated {
    pub owner: Pubkey,
    pub tag_index: u8,
    pub name: String,
}

/// Why creating a tag named `name` for `user` on behalf of `signer` is
/// refused, checked in this order; `None` when it succeeds.
pub open spec fn create_tag_error(user: UserAccount, signer: Pubkey, name: Seq<char>) -> Option<TradaryError> {
    if user.owner != signer {
        Some(TradaryError::Unauthorized)
    } else if byte_len(name) > MAX_TAG_NAME_LEN || byte_len(name) == 0 {
        Some(TradaryError::TagNameTooLong)
    } else if user.tag_count >= MAX_TAGS_PER_USER {
        Some(TradaryError::TooManyUserTags)
    } else {
        None
    }
}

/// Creates a strategy tag with index `user.tag_count` and advances the
/// user's tag counter by one; a user never holds more than
/// `MAX_TAGS_PER_USER` tags. On any error the user does not change.
pub fn handler(
    user: &mut UserAccount,
    signer: &Pubkey,
    bump: u8,
    name: String,
    color: u32,
    now: i64,
) -> (res: Result<(TagAccount, TagCreated), TradaryError>)
    ensures
        match res {
            Err(e) => {
                &&& create_tag_error(*old(user), *signer, name@) == Some(e)
                &&& *final(user) == *old(user)
            },
            Ok((tag, event)) => {
                &&& create_tag_error(*old(user), *signer, name@) is None
                &&& tag.owner == *signer
                &&& tag.bump == bump
                &&& tag.tag_index == old(user).tag_count
                &&& tag.name@ == name@
                &&& tag.color == color
                &&& tag.usage_count == 0
                &&& tag.created_at == now
                &&& tag.wf()
                &&& final(user).tag_count == old(user).tag_count + 1
                &&& final(user).tag_count <= MAX_TAGS_PER_USER
                &&& final(user).same_profile(old(user))
                &&& final(user).trade_count == old(user).trade_count
                &&& final(user).stats == old(user).stats
                &&& event.owner == *signer
                &&& event.tag_index == old(user).tag_count
                &&& event.name@ == name@
            },
        },
        old(user).wf() ==> final(user).wf(),
{
    if !user.owner.same_as(signer) {
        return Err(TradaryError::Unauthorized);
    }
    let name_len = string_byte_len(&name);
    if name_len > MAX_TAG_NAME_LEN {
        return Err(TradaryError::TagNameTooLong);
    }
    if name_len == 0 {
        return Err(TradaryError::TagNameTooLong);
    }
    if user.tag_count as usize >= MAX_TAGS_PER_USER {
        return Err(TradaryError::TooManyUserTags);
    }
    let tag_index = user.tag_count;
    let next_count = match tag_index.checked_add(1) {
        Some(c) => c,
        None => return Err(TradaryError::ArithmaticOverflow),
    };
    let event = TagCreated { owner: *signer, tag_index, name: name.clone() };
    let tag = TagAccount {
        owner: *signer,
        bump,
        tag_index,
        name,
        color,
        usage_count: 0,
        created_at: now,
    };
    user.tag_count = next_count;
    Ok((tag, event))
}

/// A tag is created exactly when the signer owns the profile, the name has
/// between 1 and 32 bytes and the user has fewer than 50 tags; a refusal
/// names the first failed check in that order.
pub proof fn lemma_create_tag_accepts_valid_tags(user: UserAccount, signer: Pubkey, name: Seq<char>)
    ensures
        ({
            let owner_ok = user.owner == signer;
            let name_ok = 1 <= byte_len(name) <= 32;
            let room_ok = user.tag_count < 50;
            let e = create_tag_error(user, signer, name);
            &&& (e is None <==> owner_ok && name_ok && room_ok)
            &&& (e == Some(TradaryError::Unauthorized) <==> !owner_ok)
            &&& (e == Some(TradaryError::TagNameTooLong) <==> owner_ok && !name_ok)
            &&& (e == Some(TradaryError::TooManyUserTags) <==> owner_ok && name_ok && !room_ok)
        }),
{
}

} // verus!
