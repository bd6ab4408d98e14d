use vstd::prelude::*;

use crate::constants::{DISCRIMINATOR, MAX_LEVERAGE, MAX_NOTES_LEN, MAX_SYMBOL_LEN, MAX_TAGS_PER_TRADE};
use crate::key::Pubkey;
use crate::state::user_account::{AssetClass, EmotionalState, TradeDirection};
use crate::text::byte_len;

verus! {

/// Lifecycle of a trade: it is opened once and closed once.
#[derive(Clone, Copy, Debug, PartialEq, Eq, Structural)]
pub enum TradeStatus {
    Open,
    Closed,
}

impl Default for TradeStatus {
    fn default() -> (s: Self)
        ensures
            s == TradeStatus::Open,
    {
        TradeStatus::Open
    }
}

/// One entry of the journal.
#[derive(Clone, Debug)]
pub struct TradeAccount {
    /// Schema version.
    pub version: u8,
    /// The wallet that owns the trade.
    pub owner: Pubkey,
    /// Address-derivation bump.
    pub bump: u8,
    /// Sequential index within the owner's trade history (0-based).
    pub trade_index: u32,
    /// Ticker, such as "BTC/USDC".
    pub symbol: String,
    /// Long or short.
    pub direction: TradeDirection,
    /// Spot, perpetual, options, futures or other.
    pub asset_class: AssetClass,
    /// Entry price in micro-units.
    pub entry_price: i64,
    /// Exit price in micro-units (0 while open).
    pub exit_price: i64,
    /// Position size in base-asset micro-units.
    pub size: u64,
    /// Leverage (1 means none).
    pub leverage: u8,
    /// Realized PnL in micro-units; negative is a loss.
    pub pnl_realized: i64,
    /// Fees paid, in micro-units.
    pub fees_paid: u64,
    /// Unix timestamp of entry.
    pub entry_timestamp: i64,
    /// Unix timestamp of exit (0 while open).
    pub exit_timestamp: i64,
    /// Emotional state at entry.
    pub emotion_entry: EmotionalState,
    /// Emotional state at exit (neutral until closed).
    pub emotion_exit: EmotionalState,
    /// Free-form notes; only ever appended to.
    pub notes: String,
    /// Indices of the owner's tags attached to this trade.
    pub tag_indices: Vec<u8>,
    /// Open or closed.
    pub status: TradeStatus,
    /// Unix timestamp of the last change.
    pub updated_at: i64,
    /// Reserved bytes for later fields.
    pub _reserved: [u8; 16],
}

impl TradeAccount {
    /// Serialized size in bytes, discriminator included.
    pub const LEN: usize = DISCRIMINATOR + 1 + 32 + 1 + 4 + 4 + MAX_SYMBOL_LEN + 1 + 1 + 8 + 8 + 8
        + 1 + 8 + 8 + 8 + 8 + 1 + 1 + 4 + MAX_NOTES_LEN + 4 + MAX_TAGS_PER_TRADE + 1 + 8 + 16;

    /// The limits and lifecycle facts that every stored trade respects.
    pub open spec fn wf(&self) -> bool {
        &&& byte_len(self.symbol@) <= MAX_SYMBOL_LEN
        &&& byte_len(self.notes@) <= MAX_NOTES_LEN
        &&& self.tag_indices@.len() <= MAX_TAGS_PER_TRADE
        &&& 1 <= self.leverage <= MAX_LEVERAGE
        &&& self.entry_price > 0
        &&& self.size > 0
        &&& self.status == TradeStatus::Closed ==> {
            &&& self.exit_price > 0
            &&& self.exit_timestamp >= self.entry_timestamp
        }
        &&& self.status == TradeStatus::Open ==> {
            &&& self.exit_price == 0
            &&& self.exit_timestamp == 0
            &&& self.pnl_realized == 0
            &&& self.fees_paid == 0
            &&& self.emotion_exit == EmotionalState::Neutral
        }
    }

    /// The data fixed when the trade was opened agrees.
    pub open spec fn same_entry(&self, other: &TradeAccount) -> bool {
        &&& self.version == other.version
        &&& self.owner == other.owner
        &&& self.bump == other.bump
        &&& self.trade_index == other.trade_index
        &&& self.symbol@ == other.symbol@
        &&& self.direction == other.direction
        &&& self.asset_class == other.asset_class
        &&& self.entry_price == other.entry_price
        &&& self.size == other.size
        &&& self.leverage == other.leverage
        &&& self.entry_timestamp == other.entry_timestamp
        &&& self.emotion_entry == other.emotion_entry
        &&& self.tag_indices@ == other.tag_indices@
        &&& self._reserved == other._reserved
    }

    /// The exit data and status agree.
    pub open spec fn same_exit(&self, other: &TradeAccount) -> bool {
        &&& self.exit_price == other.exit_price
        &&& self.pnl_realized == other.pnl_realized
        &&& self.fees_paid == other.fees_paid
        &&& self.exit_timestamp == other.exit_timestamp
        &&& self.emotion_exit == other.emotion_exit
        &&& self.status == other.status
    }
}

/// `same_entry` holds exactly when every field fixed at opening (version,
/// owner, bump, index, symbol, direction, asset class, entry price, size,
/// leverage, entry time, entry emotion, tags, reserved bytes) agrees, and
/// `same_exit` exactly when the exit price, PnL, fees, exit time, exit
/// emotion and status agree.
pub proof fn lemma_trade_relations_compare_fields(a: TradeAccount, b: TradeAccount)
    ensures
        a.same_entry(&b) <==> (a.version == b.version && a.owner == b.owner && a.bump == b.bump
            && a.trade_index == b.trade_index && a.symbol@ == b.symbol@ && a.direction == b.direction
            && a.asset_class == b.asset_class && a.entry_price == b.entry_price && a.size == b.size
            && a.leverage == b.leverage && a.entry_timestamp == b.entry_timestamp && a.emotion_entry
            == b.emotion_entry && a.tag_indices@ == b.tag_indices@ && a._reserved == b._reserved),
        a.same_exit(&b) <==> (a.exit_price == b.exit_price && a.pnl_realized == b.pnl_realized
            && a.fees_paid == b.fees_paid && a.exit_timestamp == b.exit_timestamp && a.emotion_exit
            == b.emotion_exit && a.status == b.status),
{
}

} // verus!
