use vstd::prelude::*;

verus! {

/// Maximum byte length of a user name.
pub const MAX_USERNAME_LEN: usize = 32;
/// Maximum byte length of a user bio.
pub const MAX_BIO_LEN: usize = 128;
/// Maximum byte length of a trade symbol.
pub const MAX_SYMBOL_LEN: usize = 16;
/// Maximum byte length of the notes of a trade.
pub const MAX_NOTES_LEN: usize = 512;
/// Maximum byte length of a tag name.
pub const MAX_TAG_NAME_LEN: usize = 32;
/// Maximum number of tags attached to one trade.
pub const MAX_TAGS_PER_TRADE: usize = 5;
/// Maximum number of tags one user may create.
pub const MAX_TAGS_PER_USER: usize = 50;

/// Size of the account discriminator that precedes every stored account.
pub const DISCRIMINATOR: usize = 8;

/// Prices are fixed-point numbers with this many decimal places.
pub const PRICE_DECIMALS: u32 = 6;

/// Highest leverage a trade may use.
pub const MAX_LEVERAGE: u8 = 100;

/// Schema version written into new accounts.
pub const CURRENT_VERSION: u8 = 1;

} // verus!
