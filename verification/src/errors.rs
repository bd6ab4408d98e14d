use vstd::prelude::*;

verus! {

/// Every way an instruction of the journal can be refused.
#[derive(Clone, Copy, Debug, PartialEq, Eq, Structural)]
pub enum TradaryError {
    /// The signer is not the owner of an account the instruction touches.
    Unauthorized,
    /// The user name is longer than `MAX_USERNAME_LEN` bytes.
    UsernameTooLong,
    /// The bio is longer than `MAX_BIO_LEN` bytes.
    BioTooLong,
    /// The symbol is longer than `MAX_SYMBOL_LEN` bytes.
    SymbolTooLong,
    /// The notes are (or would become) longer than `MAX_NOTES_LEN` bytes.
    NotesTooLong,
    /// The tag name is empty or longer than `MAX_TAG_NAME_LEN` bytes.
    TagNameTooLong,
    /// More than `MAX_TAGS_PER_TRADE` tags were given for one trade.
    TooManyTagsOnTrade,
    /// The user already has `MAX_TAGS_PER_USER` tags.
    TooManyUserTags,
    /// The tag already exists for this user.
    TagAlreadyExists,
    /// The entry price is not positive.
    InvalidEntryPrice,
    /// The exit price is not positive.
    InvalidExitPrice,
    /// The position size is zero.
    InvalidSize,
    /// The leverage is outside `1..=MAX_LEVERAGE`.
    InvalidLeverage,
    /// The exit timestamp is not after the entry timestamp.
    InvalidTimestampOrder,
    /// The trade is closed and can no longer change.
    TradeAlreadyClosed,
    /// The trade cannot be closed without exit data.
    TradeNotCloseable,
    /// A profit, total or counter does not fit its integer type.
    ArithmaticOverflow,
    /// The account was written by another schema version.
    VersionMismatch,
}

} // verus!
