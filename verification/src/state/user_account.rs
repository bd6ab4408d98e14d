use vstd::prelude::*;

use crate::constants::{DISCRIMINATOR, MAX_BIO_LEN, MAX_TAGS_PER_USER, MAX_USERNAME_LEN};
use crate::key::Pubkey;
use crate::text::byte_len;

verus! {

/// Emotional state of the trader when a trade is entered or exited.
#[derive(Clone, Copy, Debug, PartialEq, Eq, Structural)]
pub enum EmotionalState {
    Neutral,
    Confident,
    Fearful,
    Greedy,
    Anxious,
    Calm,
    Frustrated,
    Euphoric,
    /// Revenge trading: a critical behavioural pattern.
    Revenge,
}

impl Default for EmotionalState {
    fn default() -> (s: Self)
        ensures
            s == EmotionalState::Neutral,
    {
        EmotionalState::Neutral
    }
}

/// Direction of a trade.
#[derive(Clone, Copy, Debug, PartialEq, Eq, Structural)]
pub enum TradeDirection {
    Long,
    Short,
}

impl Default for TradeDirection {
    fn default() -> (d: Self)
        ensures
            d == TradeDirection::Long,
    {
        TradeDirection::Long
    }
}

/// Asset class, for categorisation and filtering.
#[derive(Clone, Copy, Debug, PartialEq, Eq, Structural)]
pub enum AssetClass {
    Spot,
    Perpetual,
    Opitions,
    Futures,
    Other,
}

impl Default for AssetClass {
    fn default() -> (a: Self)
        ensures
            a == AssetClass::Spot,
    {
        AssetClass::Spot
    }
}

/// Aggregate statistics over the closed trades of a user, kept inline so that
/// no history has to be walked; updated on every close.
#[derive(Clone, Copy, Debug)]
pub struct TradingStats {
    /// Number of closed trades.
    pub total_trades: u32,
    /// Number of closed trades with a positive realized PnL.
    pub winning_trades: u32,
    /// Sum of the realized PnL of all closed trades.
    pub total_pnl_realized: i64,
    /// Best single-trade PnL (0 until the first close).
    pub best_trade_pnl: i64,
    /// Worst single-trade PnL (0 until the first close).
    pub worst_trade_pnl: i64,
    /// Sum of the fees of all closed trades.
    pub total_fees_paid: u64,
    /// Current run of consecutive winning trades.
    pub current_win_streak: u16,
    /// Longest run of consecutive winning trades.
    pub longest_win_streak: u16,
    /// Current run of consecutive non-winning trades.
    pub current_lose_streak: u16,
    /// Longest run of consecutive non-winning trades.
    pub longest_lose_streak: u16,
    /// Reserved bytes for later fields.
    pub _reserved: [u8; 16],
}

impl TradingStats {
    /// Serialized size in bytes.
    pub const LEN: usize = 4 + 4 + 8 + 8 + 8 + 8 + 2 + 2 + 2 + 2 + 16;

    /// All counters are zero: the statistics of a user with no closed trade.
    pub open spec fn is_fresh(self) -> bool {
        &&& self.total_trades == 0
        &&& self.winning_trades == 0
        &&& self.total_pnl_realized == 0
        &&& self.best_trade_pnl == 0
        &&& self.worst_trade_pnl == 0
        &&& self.total_fees_paid == 0
        &&& self.current_win_streak == 0
        &&& self.longest_win_streak == 0
        &&& self.current_lose_streak == 0
        &&& self.longest_lose_streak == 0
    }

    /// The relations that the counters keep between each other.
    pub open spec fn wf(self) -> bool {
        &&& self.winning_trades <= self.total_trades
        &&& self.current_win_streak <= self.winning_trades
        &&& self.current_win_streak <= self.longest_win_streak
        &&& self.current_lose_streak <= self.longest_lose_streak
        &&& (self.current_win_streak == 0 || self.current_lose_streak == 0)
        &&& self.worst_trade_pnl <= self.best_trade_pnl
    }
}

impl Default for TradingStats {
    fn default() -> (s: Self)
        ensures
            s.is_fresh(),
            s.wf(),
            forall|i: int| 0 <= i < 16 ==> s._reserved[i] == 0,
    {
        TradingStats {
            total_trades: 0,
            winning_trades: 0,
            total_pnl_realized: 0,
            best_trade_pnl: 0,
            worst_trade_pnl: 0,
            total_fees_paid: 0,
            current_win_streak: 0,
            longest_win_streak: 0,
            current_lose_streak: 0,
            longest_lose_streak: 0,
            _reserved: [0u8; 16],
        }
    }
}

/// The profile of a journal user.
#[derive(Clone, Debug)]
pub struct UserAccount {
    /// Schema version.
    pub version: u8,
    /// The wallet that owns this account.
    pub owner: Pubkey,
    /// Address-derivation bump.
    pub bump: u8,
    /// Display name.
    pub username: String,
    /// Short description of the trader.
    pub bio: String,
    /// Unix timestamp of creation.
    pub created_at: i64,
    /// Number of trades opened so far: the index of the next trade.
    pub trade_count: u32,
    /// Number of tags created so far: the index of the next tag.
    pub tag_count: u8,
    /// Statistics over closed trades.
    pub stats: TradingStats,
    /// Whether trade notes are encrypted by the client.
    pub privacy_enabled: bool,
    /// Reserved bytes for later fields.
    pub _reserved: [u8; 32],
}

impl UserAccount {
    /// Serialized size in bytes, discriminator included.
    pub const LEN: usize = DISCRIMINATOR + 1 + 32 + 1 + 4 + MAX_USERNAME_LEN + 4 + MAX_BIO_LEN + 8
        + 4 + 1 + TradingStats::LEN + 1 + 32;

    /// The limits that every stored profile respects.
    pub open spec fn wf(&self) -> bool {
        &&& byte_len(self.username@) <= MAX_USERNAME_LEN
        &&& byte_len(self.bio@) <= MAX_BIO_LEN
        &&& self.tag_count <= MAX_TAGS_PER_USER
        &&& self.stats.wf()
    }

    /// Everything but the profile fields (name, bio, privacy flag) agrees.
    pub open spec fn same_except_profile(&self, other: &UserAccount) -> bool {
        &&& self.version == other.version
        &&& self.owner == other.owner
        &&& self.bump == other.bump
        &&& self.created_at == other.created_at
        &&& self.trade_count == other.trade_count
        &&& self.tag_count == other.tag_count
        &&& self.stats == other.stats
        &&& self._reserved == other._reserved
    }

    /// Everything but the counters and statistics agrees.
    pub open spec fn same_profile(&self, other: &UserAccount) -> bool {
        &&& self.version == other.version
        &&& self.owner == other.owner
        &&& self.bump == other.bump
        &&& self.username@ == other.username@
        &&& self.bio@ == other.bio@
        &&& self.created_at == other.created_at
        &&& self.privacy_enabled == other.privacy_enabled
        &&& self._reserved == other._reserved
    }
}

/// `same_except_profile` holds exactly when version, owner, bump, creation
/// time, trade and tag counters, statistics and reserved bytes agree, and
/// `same_profile` exactly when version, owner, bump, user name, bio,
/// creation time, privacy flag and reserved bytes agree.
pub proof fn lemma_user_relations_compare_fields(a: UserAccount, b: UserAccount)
    ensures
        a.same_except_profile(&b) <==> (a.version == b.version && a.owner == b.owner && a.bump == b.bump
            && a.created_at == b.created_at && a.trade_count == b.trade_count && a.tag_count
            == b.tag_count && a.stats == b.stats && a._reserved == b._reserved),
        a.same_profile(&b) <==> (a.version == b.version && a.owner == b.owner && a.bump == b.bump
            && a.username@ == b.username@ && a.bio@ == b.bio@ && a.created_at == b.created_at
            && a.privacy_enabled == b.privacy_enabled && a._reserved == b._reserved),
{
}

} // verus!
