use vstd::prelude::*;

use crate::constants::{
    CURRENT_VERSION, MAX_LEVERAGE, MAX_NOTES_LEN, MAX_SYMBOL_LEN, MAX_TAGS_PER_TRADE,
};
use crate::errors::TradaryError;
use crate::key::Pubkey;
use crate::state::{
    AssetClass, EmotionalState, TradeAccount, TradeDirection, TradeStatus, UserAccount,
};
use crate::text::{byte_len, string_byte_len};

verus! {

broadcast use vstd::array::group_array_axioms;

/// Entry data of a new trade.
#[derive(Clone, Debug)]
pub struct CreateTradeParams {
    pub symbol: String,
    pub direction: TradeDirection,
    pub asset_class: AssetClass,
    /// Entry price in micro-units (6 decimals); must be positive.
    pub entry_price: i64,
    /// Position size in base-asset micro-units; must be positive.
    pub size: u64,
    /// Leverage multiplier in `1..=MAX_LEVERAGE`.
    pub leverage: u8,
    pub emotion_entry: EmotionalState,
    /// Initial notes (can be appended to while the trade is open).
    pub notes: String,
    /// Indices of the user's tags attached to the trade.
    pub tag_indices: Vec<u8>,
    /// Unix timestamp of the entry, as given by the client.
    pub entry_timestamp: i64,
}

/// What is announced when a trade has been opened.
#[derive(Clone, Debug)]
pub struct TradeOpened {
    pub owner: Pubkey,
    pub trade_index: u32,
    pub symbol: String,
    pub entry_price: i64,
    pub entry_timestamp: i64,
}

/// Why opening a trade of `user` with `params` on behalf of `signer` is
/// refused, checked in this order; `None` when it succeeds.
pub open spec fn create_trade_error(
    user: UserAccount,
    signer: Pubkey,
    params: CreateTradeParams,
) -> Option<TradaryError> {
    if user.owner != signer {
        Some(TradaryError::Unauthorized)
    } else if byte_len(params.symbol@) > MAX_SYMBOL_LEN {
        Some(TradaryError::SymbolTooLong)
    } else if byte_len(params.notes@) > MAX_NOTES_LEN {
        Some(TradaryError::NotesTooLong)
    } else if params.entry_price <= 0 {
        Some(TradaryError::InvalidEntryPrice)
    } else if params.size == 0 {
        Some(TradaryError::InvalidSize)
    } else if !(1 <= params.leverage <= MAX_LEVERAGE) {
        Some(TradaryError::InvalidLeverage)
    } else if params.tag_indices@.len() > MAX_TAGS_PER_TRADE {
        Some(TradaryError::TooManyTagsOnTrade)
    } else if user.trade_count == u32::MAX {
        Some(TradaryError::ArithmaticOverflow)
    } else {
        None
    }
}

/// Opens a trade: validates the entry data, builds the open trade with index
/// `user.trade_count`, and advances the user's trade counter by one, so that
/// trade indices are sequential. On any error the user does not change.
pub fn handler(
    user: &mut UserAccount,
    signer: &Pubkey,
    bump: u8,
    params: CreateTradeParams,
    now: i64,
) -> (res: Result<(TradeAccount, TradeOpened), TradaryError>)
    ensures
        match res {
            Err(e) => {
                &&& create_trade_error(*old(user), *signer, params) == Some(e)
                &&& *final(user) == *old(user)
            },
            Ok((trade, event)) => {
                &&& create_trade_error(*old(user), *signer, params) is None
                &&& trade.version == CURRENT_VERSION
                &&& trade.owner == *signer
                &&& trade.bump == bump
                &&& trade.trade_index == old(user).trade_count
                &&& trade.symbol@ == params.symbol@
                &&& trade.direction == params.direction
                &&& trade.asset_class == params.asset_class
                &&& trade.entry_price == params.entry_price
                &&& trade.exit_price == 0
                &&& trade.size == params.size
                &&& trade.leverage == params.leverage
                &&& trade.pnl_realized == 0
                &&& trade.fees_paid == 0
                &&& trade.entry_timestamp == params.entry_timestamp
                &&& trade.exit_timestamp == 0
                &&& trade.emotion_entry == params.emotion_entry
                &&& trade.emotion_exit == EmotionalState::Neutral
                &&& trade.notes@ == params.notes@
                &&& trade.tag_indices@ == params.tag_indices@
                &&& trade.status == TradeStatus::Open
                &&& trade.updated_at == now
                &&& (forall|i: int| 0 <= i < 16 ==> trade._reserved[i] == 0)
                &&& trade.wf()
                &&& final(user).trade_count == old(user).trade_count + 1
                &&& final(user).same_profile(old(user))
                &&& final(user).tag_count == old(user).tag_count
                &&& final(user).stats == old(user).stats
                &&& event.owner == *signer
                &&& event.trade_index == old(user).trade_count
                &&& event.symbol@ == params.symbol@
                &&& event.entry_price == params.entry_price
                &&& event.entry_timestamp == params.entry_timestamp
            },
        },
        old(user).wf() ==> final(user).wf(),
{
    if !user.owner.same_as(signer) {
        return Err(TradaryError::Unauthorized);
    }
    if string_byte_len(&params.symbol) > MAX_SYMBOL_LEN {
        return Err(TradaryError::SymbolTooLong);
    }
    if string_byte_len(&params.notes) > MAX_NOTES_LEN {
        return Err(TradaryError::NotesTooLong);
    }
    if params.entry_price <= 0 {
        return Err(TradaryError::InvalidEntryPrice);
    }
    if params.size == 0 {
        return Err(TradaryError::InvalidSize);
    }
    if !(params.leverage >= 1 && params.leverage <= MAX_LEVERAGE) {
        return Err(TradaryError::InvalidLeverage);
    }
    if params.tag_indices.len() > MAX_TAGS_PER_TRADE {
        return Err(TradaryError::TooManyTagsOnTrade);
    }
    let trade_index = user.trade_count;
    let next_count = match trade_index.checked_add(1) {
        Some(c) => c,
        None => return Err(TradaryError::ArithmaticOverflow),
    };
    let event = TradeOpened {
        owner: *signer,
        trade_index,
        symbol: params.symbol.clone(),
        entry_price: params.entry_price,
        entry_timestamp: params.entry_timestamp,
    };
    let trade = TradeAccount {
        version: CURRENT_VERSION,
        owner: *signer,
        bump,
        trade_index,
        symbol: params.symbol,
        direction: params.direction,
        asset_class: params.asset_class,
        entry_price: params.entry_price,
        exit_price: 0,
        size: params.size,
        leverage: params.leverage,
        pnl_realized: 0,
        fees_paid: 0,
        entry_timestamp: params.entry_timestamp,
        exit_timestamp: 0,
        emotion_entry: params.emotion_entry,
        emotion_exit: EmotionalState::Neutral,
        notes: params.notes,
        tag_indices: params.tag_indices,
        status: TradeStatus::Open,
        updated_at: now,
        _reserved: [0u8; 16],
    };
    user.trade_count = next_count;
    Ok((trade, event))
}

/// A trade is opened exactly when the signer owns the profile, the symbol
/// has at most 16 bytes, the notes at most 512 bytes, the entry price is
/// positive, the size is not zero, the leverage lies in 1..=100, at most 5
/// tags are given and the trade counter can still advance; a refusal names
/// the first of these checks, in that order, that fails.
pub proof fn lemma_create_trade_accepts_valid_entries(
    user: UserAccount,
    signer: Pubkey,
    params: CreateTradeParams,
)
    ensures
        ({
            let owner_ok = user.owner == signer;
            let symbol_ok = byte_len(params.symbol@) <= 16;
            let notes_ok = byte_len(params.notes@) <= 512;
            let price_ok = params.entry_price > 0;
            let size_ok = params.size > 0;
            let leverage_ok = 1 <= params.leverage <= 100;
            let tags_ok = params.tag_indices@.len() <= 5;
            let counter_ok = user.trade_count < 0xffff_ffff;
            let e = create_trade_error(user, signer, params);
            &&& (e is None <==> owner_ok && symbol_ok && notes_ok && price_ok && size_ok && leverage_ok
                && tags_ok && counter_ok)
            &&& (e == Some(TradaryError::Unauthorized) <==> !owner_ok)
            &&& (e == Some(TradaryError::SymbolTooLong) <==> owner_ok && !symbol_ok)
            &&& (e == Some(TradaryError::NotesTooLong) <==> owner_ok && symbol_ok && !notes_ok)
            &&& (e == Some(TradaryError::InvalidEntryPrice) <==> owner_ok && symbol_ok && notes_ok
                && !price_ok)
            &&& (e == Some(TradaryError::InvalidSize) <==> owner_ok && symbol_ok && notes_ok && price_ok
                && params.size == 0)
            &&& (e == Some(TradaryError::InvalidLeverage) <==> owner_ok && symbol_ok && notes_ok
                && price_ok && size_ok && !leverage_ok)
            &&& (e == Some(TradaryError::TooManyTagsOnTrade) <==> owner_ok && symbol_ok && notes_ok
                && price_ok && size_ok && leverage_ok && !tags_ok)
            &&& (e == Some(TradaryError::ArithmaticOverflow) <==> owner_ok && symbol_ok && notes_ok
                && price_ok && size_ok && leverage_ok && tags_ok && !counter_ok)
        }),
{
}

} // verus!
