use vstd::prelude::*;

use crate::constants::{DISCRIMINATOR, MAX_TAG_NAME_LEN, MAX_TAGS_PER_USER};
use crate::key::Pubkey;
use crate::text::byte_len;

verus! {

/// A strategy tag for categorising trades.
#[derive(Clone, Debug)]
pub struct TagAccount {
    /// The wallet that owns the tag.
    pub owner: Pubkey,
    /// Address-derivation bump.
    pub bump: u8,
    /// Position in the user's tag list (0-based).
    pub tag_index: u8,
    /// Human-readable label.
    pub name: String,
    /// ARGB colour for display.
    pub color: u32,
    /// How many trades use this tag (kept by the client, informational).
    pub usage_count: u32,
    /// Unix timestamp of creation.
    pub created_at: i64,
}

impl TagAccount {
    /// Serialized size in bytes, discriminator included.
    pub const LEN: usize = DISCRIMINATOR + 32 + 1 + 1 + 4 + MAX_TAG_NAME_LEN + 4 + 4 + 8;

    /// The limits that every stored tag respects.
    pub open spec fn wf(&self) -> bool {
        &&& 0 < byte_len(self.name@) <= MAX_TAG_NAME_LEN
        &&& self.tag_index < MAX_TAGS_PER_USER
    }
}

} // verus!
