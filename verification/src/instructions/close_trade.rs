use vstd::prelude::*;

use crate::errors::TradaryError;
use crate::key::Pubkey;
use crate::state::{EmotionalState, TradeAccount, TradeDirection, TradeStatus, TradingStats, UserAccount};

verus! {

/// Exit data supplied when a trade is closed.
#[derive(Clone, Copy, Debug)]
pub struct CloseTradeParams {
    /// Exit price in micro-units; must be positive.
    pub exit_price: i64,
    /// Fees paid, in micro-units.
    pub fees_paid: u64,
    /// Emotional state at exit.
    pub emotion_exit: EmotionalState,
    /// Unix timestamp of exit; must be after the entry.
    pub exit_timestamp: i64,
}

/// What is announced when a trade has been closed.
#[derive(Clone, Copy, Debug)]
pub struct TradeClosed {
    pub owner: Pubkey,
    pub trade_index: u32,
    pub pnl_realized: i64,
    pub exit_price: i64,
}

/// Whether an integer fits an `i64`.
pub open spec fn fits_i64(x: int) -> bool {
    i64::MIN <= x <= i64::MAX
}

/// Integer division that rounds toward zero, for a positive divisor.
pub open spec fn div_toward_zero(x: int, d: int) -> int {
    if x >= 0 {
        x / d
    } else {
        -((-x) / d)
    }
}

/// Realized PnL of a trade in quote micro-units:
/// `((exit - entry) * size / 10^6)`, rounded toward zero, negated for a
/// short, times the leverage, minus the fees; `None` when the size, the fees
/// or an intermediate value leaves the `i64` range.
pub open spec fn net_pnl(
    entry_price: i64,
    exit_price: i64,
    size: u64,
    direction: TradeDirection,
    leverage: u8,
    fees_paid: u64,
) -> Option<i64> {
    let delta = exit_price - entry_price;
    let product = delta * size;
    let raw = div_toward_zero(product, 1_000_000);
    let directed = match direction {
        TradeDirection::Long => raw,
        TradeDirection::Short => -raw,
    };
    let levered = directed * leverage;
    let net = levered - fees_paid;
    if size <= i64::MAX && fees_paid <= i64::MAX && fits_i64(delta) && fits_i64(product)
        && fits_i64(levered) && fits_i64(net) {
        Some(net as i64)
    } else {
        None
    }
}

/// The statistics after one more closed trade with realized PnL `pnl` and
/// fees `fees`: counts, totals, best and worst single-trade PnL (the first
/// close sets both), and win/lose streaks;
/// `None` when a total or counter would leave its integer type.
pub open spec fn record_close(s: TradingStats, pnl: i64, fees: u64) -> Option<TradingStats> {
    let total_trades = s.total_trades + 1;
    let total_pnl = s.total_pnl_realized + pnl;
    let total_fees = s.total_fees_paid + fees;
    let best = if s.total_trades == 0 || pnl > s.best_trade_pnl { pnl } else { s.best_trade_pnl };
    let worst = if s.total_trades == 0 || pnl < s.worst_trade_pnl { pnl } else { s.worst_trade_pnl };
    if total_trades > u32::MAX || !fits_i64(total_pnl) || total_fees > u64::MAX {
        None
    } else if pnl > 0 {
        let wins = s.winning_trades + 1;
        let streak = s.current_win_streak + 1;
        if wins > u32::MAX || streak > u16::MAX {
            None
        } else {
            Some(TradingStats {
                total_trades: total_trades as u32,
                winning_trades: wins as u32,
                total_pnl_realized: total_pnl as i64,
                best_trade_pnl: best,
                worst_trade_pnl: worst,
                total_fees_paid: total_fees as u64,
                current_win_streak: streak as u16,
                longest_win_streak: if streak > s.longest_win_streak { streak as u16 } else { s.longest_win_streak },
                current_lose_streak: 0,
                ..s
            })
        }
    } else {
        let streak = s.current_lose_streak + 1;
        if streak > u16::MAX {
            None
        } else {
            Some(TradingStats {
                total_trades: total_trades as u32,
                total_pnl_realized: total_pnl as i64,
                best_trade_pnl: best,
                worst_trade_pnl: worst,
                total_fees_paid: total_fees as u64,
                current_lose_streak: streak as u16,
                longest_lose_streak: if streak > s.longest_lose_streak { streak as u16 } else { s.longest_lose_streak },
                current_win_streak: 0,
                ..s
            })
        }
    }
}

/// Why closing `trade` of `user` with `params` on behalf of `signer` is
/// refused, checked in this order; `None` when it succeeds.
pub open spec fn close_trade_error(
    user: UserAccount,
    trade: TradeAccount,
    signer: Pubkey,
    params: CloseTradeParams,
) -> Option<TradaryError> {
    if user.owner != signer || trade.owner != signer {
        Some(TradaryError::Unauthorized)
    } else if trade.status == TradeStatus::Closed {
        Some(TradaryError::TradeAlreadyClosed)
    } else if params.exit_price <= 0 {
        Some(TradaryError::InvalidExitPrice)
    } else if params.exit_timestamp <= trade.entry_timestamp {
        Some(TradaryError::InvalidTimestampOrder)
    } else {
        match net_pnl(trade.entry_price, params.exit_price, trade.size, trade.direction, trade.leverage, params.fees_paid) {
            None => Some(TradaryError::ArithmaticOverflow),
            Some(pnl) => if record_close(user.stats, pnl, params.fees_paid) is None {
                Some(TradaryError::ArithmaticOverflow)
            } else {
                None
            },
        }
    }
}

/// Realized PnL of a trade, as `net_pnl` states it.
pub fn compute_net_pnl(
    entry_price: i64,
    exit_price: i64,
    size: u64,
    direction: TradeDirection,
    leverage: u8,
    fees_paid: u64,
) -> (r: Option<i64>)
    ensures
        r == net_pnl(entry_price, exit_price, size, direction, leverage, fees_paid),
{
    let price_delta = match exit_price.checked_sub(entry_price) {
        Some(d) => d,
        None => return None,
    };
    if size > 0x7fff_ffff_ffff_ffffu64 {
        return None;
    }
    let size_i64 = size as i64;
    let product = match price_delta.checked_mul(size_i64) {
        Some(p) => p,
        None => return None,
    };
    let raw = match product.checked_div(1_000_000) {
        Some(q) => q,
        None => return None,
    };
    assert(raw as int == div_toward_zero(product as int, 1_000_000));
    let directional: i64 = match direction {
        TradeDirection::Long => raw,
        TradeDirection::Short => {
            // `raw` is at most |i64::MIN| / 10^6 in size, so its negation fits.
            assert(raw > i64::MIN);
            -raw
        },
    };
    let leveraged = match directional.checked_mul(leverage as i64) {
        Some(l) => l,
        None => return None,
    };
    if fees_paid > 0x7fff_ffff_ffff_ffffu64 {
        return None;
    }
    let fees_i64 = fees_paid as i64;
    match leveraged.checked_sub(fees_i64) {
        Some(net) => Some(net),
        None => None,
    }
}

/// The statistics after one more closed trade, as `record_close` states them.
pub fn record_closed_trade(stats: &TradingStats, pnl: i64, fees: u64) -> (r: Option<TradingStats>)
    ensures
        r == record_close(*stats, pnl, fees),
{
    let mut s = *stats;
    s.total_trades = match s.total_trades.checked_add(1) {
        Some(v) => v,
        None => return None,
    };
    s.total_pnl_realized = match s.total_pnl_realized.checked_add(pnl) {
        Some(v) => v,
        None => return None,
    };
    s.total_fees_paid = match s.total_fees_paid.checked_add(fees) {
        Some(v) => v,
        None => return None,
    };
    let first_close = stats.total_trades == 0;
    if first_close || pnl > s.best_trade_pnl {
        s.best_trade_pnl = pnl;
    }
    if first_close || pnl < s.worst_trade_pnl {
        s.worst_trade_pnl = pnl;
    }
    if pnl > 0 {
        s.winning_trades = match s.winning_trades.checked_add(1) {
            Some(v) => v,
            None => return None,
        };
        s.current_win_streak = match s.current_win_streak.checked_add(1) {
            Some(v) => v,
            None => return None,
        };
        s.current_lose_streak = 0;
        if s.current_win_streak > s.longest_win_streak {
            s.longest_win_streak = s.current_win_streak;
        }
    } else {
        s.current_lose_streak = match s.current_lose_streak.checked_add(1) {
            Some(v) => v,
            None => return None,
        };
        s.current_win_streak = 0;
        if s.current_lose_streak > s.longest_lose_streak {
            s.longest_lose_streak = s.current_lose_streak;
        }
    }
    Some(s)
}

/// Closes an open trade: records the exit data and the realized PnL on the
/// trade and folds the result into the owner's statistics. On any error
/// neither account changes. After a successful close the trade is closed for
/// good.
pub fn handler(
    user: &mut UserAccount,
    trade: &mut TradeAccount,
    signer: &Pubkey,
    params: CloseTradeParams,
    now: i64,
) -> (res: Result<TradeClosed, TradaryError>)
    ensures
        match res {
            Err(e) => {
                &&& close_trade_error(*old(user), *old(trade), *signer, params) == Some(e)
                &&& *final(user) == *old(user)
                &&& *final(trade) == *old(trade)
            },
            Ok(event) => {
                let pnl = net_pnl(
                    old(trade).entry_price,
                    params.exit_price,
                    old(trade).size,
                    old(trade).direction,
                    old(trade).leverage,
                    params.fees_paid,
                ).unwrap();
                &&& close_trade_error(*old(user), *old(trade), *signer, params) is None
                &&& final(trade).same_entry(old(trade))
                &&& final(trade).notes@ == old(trade).notes@
                &&& final(trade).status == TradeStatus::Closed
                &&& final(trade).exit_price == params.exit_price
                &&& final(trade).exit_timestamp == params.exit_timestamp
                &&& final(trade).emotion_exit == params.emotion_exit
                &&& final(trade).fees_paid == params.fees_paid
                &&& final(trade).pnl_realized == pnl
                &&& final(trade).updated_at == now
                &&& final(user).same_profile(old(user))
                &&& final(user).trade_count == old(user).trade_count
                &&& final(user).tag_count == old(user).tag_count
                &&& final(user).stats == record_close(old(user).stats, pnl, params.fees_paid).unwrap()
                &&& event == TradeClosed {
                    owner: *signer,
                    trade_index: old(trade).trade_index,
                    pnl_realized: pnl,
                    exit_price: params.exit_price,
                }
            },
        },
        old(user).wf() ==> final(user).wf(),
        old(trade).wf() ==> final(trade).wf(),
{
    if !user.owner.same_as(signer) || !trade.owner.same_as(signer) {
        return Err(TradaryError::Unauthorized);
    }
    if trade.status == TradeStatus::Closed {
        return Err(TradaryError::TradeAlreadyClosed);
    }
    if params.exit_price <= 0 {
        return Err(TradaryError::InvalidExitPrice);
    }
    if params.exit_timestamp <= trade.entry_timestamp {
        return Err(TradaryError::InvalidTimestampOrder);
    }
    let net_pnl = match compute_net_pnl(
        trade.entry_price,
        params.exit_price,
        trade.size,
        trade.direction,
        trade.leverage,
        params.fees_paid,
    ) {
        Some(p) => p,
        None => return Err(TradaryError::ArithmaticOverflow),
    };
    let stats = match record_closed_trade(&user.stats, net_pnl, params.fees_paid) {
        Some(s) => s,
        None => return Err(TradaryError::ArithmaticOverflow),
    };
    proof {
        if old(user).stats.wf() {
            lemma_record_close_preserves_wf(old(user).stats, net_pnl, params.fees_paid);
        }
    }
    trade.exit_price = params.exit_price;
    trade.exit_timestamp = params.exit_timestamp;
    trade.emotion_exit = params.emotion_exit;
    trade.fees_paid = params.fees_paid;
    trade.pnl_realized = net_pnl;
    trade.status = TradeStatus::Closed;
    trade.updated_at = now;
    user.stats = stats;
    Ok(TradeClosed {
        owner: *signer,
        trade_index: trade.trade_index,
        pnl_realized: net_pnl,
        exit_price: params.exit_price,
    })
}

/// Recording a close keeps the relations between the statistics counters:
/// no more wins than trades, current streaks within the longest, never a
/// winning and a losing streak at once, and the worst PnL at most the best.
pub proof fn lemma_record_close_preserves_wf(s: TradingStats, pnl: i64, fees: u64)
    requires
        s.wf(),
        record_close(s, pnl, fees) is Some,
    ensures
        record_close(s, pnl, fees).unwrap().wf(),
{
}

/// A short position gains what the same long position loses: before fees,
/// the PnL of a short is the negation of the PnL of the long with the same
/// prices, size and leverage.
pub proof fn lemma_short_mirrors_long(
    entry_price: i64,
    exit_price: i64,
    size: u64,
    leverage: u8,
    fees_paid: u64,
)
    requires
        net_pnl(entry_price, exit_price, size, TradeDirection::Long, leverage, fees_paid) is Some,
        net_pnl(entry_price, exit_price, size, TradeDirection::Short, leverage, fees_paid) is Some,
    ensures
        net_pnl(entry_price, exit_price, size, TradeDirection::Long, leverage, fees_paid).unwrap()
            + fees_paid == -(net_pnl(
            entry_price,
            exit_price,
            size,
            TradeDirection::Short,
            leverage,
            fees_paid,
        ).unwrap() + fees_paid),
{
    let raw = div_toward_zero((exit_price - entry_price) * size, 1_000_000);
    let lev = leverage as int;
    assert((-raw) * lev == -(raw * lev)) by (nonlinear_arith);
}

/// The realized PnL is the price move times the size, scaled down by 10^6
/// toward zero, with the sign of the direction, times the leverage, less the
/// fees; it is refused (`None`) exactly when the size or the fees exceed
/// `i64::MAX` or one of the price move, its product with the size, the
/// leveraged PnL or the net PnL leaves the `i64` range. Here `q` is any
/// integer that is the quotient of `(exit - entry) * size` by 10^6 rounded
/// toward zero.
pub proof fn lemma_net_pnl_is_scaled_price_move(
    entry_price: i64,
    exit_price: i64,
    size: u64,
    direction: TradeDirection,
    leverage: u8,
    fees_paid: u64,
    q: int,
)
    requires
        (exit_price - entry_price) * size >= 0 ==> q * 1_000_000 <= (exit_price - entry_price) * size
            < q * 1_000_000 + 1_000_000,
        (exit_price - entry_price) * size < 0 ==> q * 1_000_000 - 1_000_000 < (exit_price
            - entry_price) * size <= q * 1_000_000,
    ensures
        ({
            let signed = if direction == TradeDirection::Long { q } else { -q };
            let levered = signed * leverage;
            let net = levered - fees_paid;
            let accepted = size <= 0x7fff_ffff_ffff_ffff && fees_paid <= 0x7fff_ffff_ffff_ffff
                && -0x8000_0000_0000_0000 <= exit_price - entry_price <= 0x7fff_ffff_ffff_ffff
                && -0x8000_0000_0000_0000 <= (exit_price - entry_price) * size <= 0x7fff_ffff_ffff_ffff
                && -0x8000_0000_0000_0000 <= levered <= 0x7fff_ffff_ffff_ffff
                && -0x8000_0000_0000_0000 <= net <= 0x7fff_ffff_ffff_ffff;
            &&& (net_pnl(entry_price, exit_price, size, direction, leverage, fees_paid) is Some <==> accepted)
            &&& (accepted ==> net_pnl(entry_price, exit_price, size, direction, leverage, fees_paid).unwrap() == net)
        }),
{
    let p = (exit_price - entry_price) * size;
    assert(div_toward_zero(p, 1_000_000) == q);
}

/// Recording a close adds one trade, the PnL and the fees to the totals,
/// counts a win exactly when the PnL is positive, makes the PnL the best and
/// the worst on the first close and otherwise keeps the larger and the
/// smaller, extends the current win (or non-win) streak by one and resets
/// the other, and raises the longest streak to the current one when it is
/// longer. It fails exactly when one of the updated counters does not fit its
/// field type.
pub proof fn lemma_record_close_updates_counters(s: TradingStats, pnl: i64, fees: u64)
    ensures
        record_close(s, pnl, fees) is Some <==> {
            &&& s.total_trades + 1 <= 0xffff_ffff
            &&& -0x8000_0000_0000_0000 <= s.total_pnl_realized + pnl <= 0x7fff_ffff_ffff_ffff
            &&& s.total_fees_paid + fees <= 0xffff_ffff_ffff_ffff
            &&& pnl > 0 ==> s.winning_trades + 1 <= 0xffff_ffff && s.current_win_streak + 1 <= 0xffff
            &&& pnl <= 0 ==> s.current_lose_streak + 1 <= 0xffff
        },
        record_close(s, pnl, fees) matches Some(t) ==> {
            &&& t.total_trades == s.total_trades + 1
            &&& t.total_pnl_realized == s.total_pnl_realized + pnl
            &&& t.total_fees_paid == s.total_fees_paid + fees
            &&& t.winning_trades == s.winning_trades + if pnl > 0 { 1int } else { 0int }
            &&& s.total_trades == 0 ==> t.best_trade_pnl == pnl && t.worst_trade_pnl == pnl
            &&& s.total_trades > 0 ==> {
                &&& t.best_trade_pnl == if pnl > s.best_trade_pnl { pnl } else { s.best_trade_pnl }
                &&& t.worst_trade_pnl == if pnl < s.worst_trade_pnl { pnl } else { s.worst_trade_pnl }
            }
            &&& pnl > 0 ==> {
                &&& t.current_win_streak == s.current_win_streak + 1
                &&& t.current_lose_streak == 0
                &&& t.longest_win_streak >= t.current_win_streak
                &&& t.longest_win_streak == s.longest_win_streak || t.longest_win_streak == t.current_win_streak
                &&& t.longest_win_streak >= s.longest_win_streak
                &&& t.longest_lose_streak == s.longest_lose_streak
            }
            &&& pnl <= 0 ==> {
                &&& t.current_lose_streak == s.current_lose_streak + 1
                &&& t.current_win_streak == 0
                &&& t.longest_lose_streak >= t.current_lose_streak
                &&& t.longest_lose_streak == s.longest_lose_streak || t.longest_lose_streak == t.current_lose_streak
                &&& t.longest_lose_streak >= s.longest_lose_streak
                &&& t.longest_win_streak == s.longest_win_streak
            }
            &&& t._reserved == s._reserved
        },
{
}

/// Sum of the realized PnLs.
pub open spec fn sum_pnl(pnls: Seq<i64>) -> int
    decreases pnls.len(),
{
    if pnls.len() == 0 {
        0
    } else {
        sum_pnl(pnls.drop_last()) + pnls.last()
    }
}

/// Sum of the fees.
pub open spec fn sum_fees(fees: Seq<u64>) -> int
    decreases fees.len(),
{
    if fees.len() == 0 {
        0
    } else {
        sum_fees(fees.drop_last()) + fees.last()
    }
}

/// Number of positive PnLs.
pub open spec fn count_wins(pnls: Seq<i64>) -> nat
    decreases pnls.len(),
{
    if pnls.len() == 0 {
        0
    } else {
        count_wins(pnls.drop_last()) + if pnls.last() > 0 { 1nat } else { 0nat }
    }
}

/// The largest PnL (0 for no PnL at all).
pub open spec fn best_pnl(pnls: Seq<i64>) -> int
    decreases pnls.len(),
{
    if pnls.len() == 0 {
        0
    } else if pnls.len() == 1 || pnls.last() > best_pnl(pnls.drop_last()) {
        pnls.last() as int
    } else {
        best_pnl(pnls.drop_last())
    }
}

/// The smallest PnL (0 for no PnL at all).
pub open spec fn worst_pnl(pnls: Seq<i64>) -> int
    decreases pnls.len(),
{
    if pnls.len() == 0 {
        0
    } else if pnls.len() == 1 || pnls.last() < worst_pnl(pnls.drop_last()) {
        pnls.last() as int
    } else {
        worst_pnl(pnls.drop_last())
    }
}

/// Length of the run of positive PnLs at the end of the sequence.
pub open spec fn trailing_wins(pnls: Seq<i64>) -> nat
    decreases pnls.len(),
{
    if pnls.len() == 0 || pnls.last() <= 0 {
        0
    } else {
        trailing_wins(pnls.drop_last()) + 1
    }
}

/// Length of the run of non-positive PnLs at the end of the sequence.
pub open spec fn trailing_losses(pnls: Seq<i64>) -> nat
    decreases pnls.len(),
{
    if pnls.len() == 0 || pnls.last() > 0 {
        0
    } else {
        trailing_losses(pnls.drop_last()) + 1
    }
}

/// Length of the longest run of positive PnLs: the largest trailing run over
/// all prefixes.
pub open spec fn longest_wins(pnls: Seq<i64>) -> nat
    decreases pnls.len(),
{
    if pnls.len() == 0 {
        0
    } else if trailing_wins(pnls) > longest_wins(pnls.drop_last()) {
        trailing_wins(pnls)
    } else {
        longest_wins(pnls.drop_last())
    }
}

/// Length of the longest run of non-positive PnLs.
pub open spec fn longest_losses(pnls: Seq<i64>) -> nat
    decreases pnls.len(),
{
    if pnls.len() == 0 {
        0
    } else if trailing_losses(pnls) > longest_losses(pnls.drop_last()) {
        trailing_losses(pnls)
    } else {
        longest_losses(pnls.drop_last())
    }
}

/// The statistics after recording closes with the given PnLs and fees, in
/// order, starting from `s`; `None` when one of the records overflows.
pub open spec fn replay_closes(s: TradingStats, pnls: Seq<i64>, fees: Seq<u64>) -> Option<TradingStats>
    decreases pnls.len(),
{
    if pnls.len() == 0 {
        Some(s)
    } else {
        match replay_closes(s, pnls.drop_last(), fees.drop_last()) {
            Some(t) => record_close(t, pnls.last(), fees.last()),
            None => None,
        }
    }
}

/// Aggregate statistics summarize the history: starting from fresh
/// statistics, after a sequence of closes the totals are the sums of the PnLs
/// and fees, the trade and win counts count them, best and worst are the
/// extremes, and the current and longest streaks are the trailing
/// and longest runs of wins and of non-wins.
pub proof fn lemma_stats_summarize_history(s: TradingStats, pnls: Seq<i64>, fees: Seq<u64>)
    requires
        s.is_fresh(),
        pnls.len() == fees.len(),
        replay_closes(s, pnls, fees) is Some,
    ensures
        ({
            let t = replay_closes(s, pnls, fees).unwrap();
            &&& t.total_trades == pnls.len()
            &&& t.winning_trades == count_wins(pnls)
            &&& t.total_pnl_realized == sum_pnl(pnls)
            &&& t.total_fees_paid == sum_fees(fees)
            &&& t.best_trade_pnl == best_pnl(pnls)
            &&& t.worst_trade_pnl == worst_pnl(pnls)
            &&& t.current_win_streak == trailing_wins(pnls)
            &&& t.current_lose_streak == trailing_losses(pnls)
            &&& t.longest_win_streak == longest_wins(pnls)
            &&& t.longest_lose_streak == longest_losses(pnls)
        }),
    decreases pnls.len(),
{
    if pnls.len() > 0 {
        lemma_stats_summarize_history(s, pnls.drop_last(), fees.drop_last());
    }
}

proof fn lemma_count_wins_bounded(pnls: Seq<i64>)
    ensures
        count_wins(pnls) <= pnls.len(),
    decreases pnls.len(),
{
    if pnls.len() > 0 {
        lemma_count_wins_bounded(pnls.drop_last());
    }
}

/// A history of closes recorded from fresh statistics never fails as long as
/// its running totals fit: at most `u32::MAX` trades, every running PnL sum
/// within `i64`, every running fee sum within `u64`, and no run of wins or of
/// non-wins longer than `u16::MAX`.
pub proof fn lemma_replay_succeeds_when_totals_fit(s: TradingStats, pnls: Seq<i64>, fees: Seq<u64>)
    requires
        s.is_fresh(),
        pnls.len() == fees.len(),
        pnls.len() <= 0xffff_ffff,
        forall|k: int|
            0 <= k <= pnls.len() ==> -0x8000_0000_0000_0000 <= #[trigger] sum_pnl(pnls.take(k))
                <= 0x7fff_ffff_ffff_ffff,
        forall|k: int| 0 <= k <= fees.len() ==> #[trigger] sum_fees(fees.take(k)) <= 0xffff_ffff_ffff_ffff,
        longest_wins(pnls) <= 0xffff,
        longest_losses(pnls) <= 0xffff,
    ensures
        replay_closes(s, pnls, fees) is Some,
    decreases pnls.len(),
{
    if pnls.len() > 0 {
        let n = pnls.len() as int;
        let pp = pnls.drop_last();
        let ff = fees.drop_last();
        assert forall|k: int| 0 <= k <= pp.len() implies -0x8000_0000_0000_0000 <= #[trigger] sum_pnl(
            pp.take(k),
        ) <= 0x7fff_ffff_ffff_ffff by {
            assert(pp.take(k) =~= pnls.take(k));
        }
        assert forall|k: int| 0 <= k <= ff.len() implies #[trigger] sum_fees(ff.take(k))
            <= 0xffff_ffff_ffff_ffff by {
            assert(ff.take(k) =~= fees.take(k));
        }
        lemma_replay_succeeds_when_totals_fit(s, pp, ff);
        lemma_stats_summarize_history(s, pp, ff);
        lemma_count_wins_bounded(pp);
        assert(pnls.take(n) =~= pnls);
        assert(fees.take(n) =~= fees);
        assert(sum_pnl(pnls.take(n)) == sum_pnl(pnls));
        assert(sum_fees(fees.take(n)) == sum_fees(fees));
    }
}

/// A trade is closed exactly when the signer owns both the profile and the
/// trade, the trade is open, the exit price is positive, the exit comes after
/// the entry, and both the PnL and the updated statistics fit their types; a
/// refusal names the first failed check in that order.
pub proof fn lemma_close_trade_accepts_valid_exits(
    user: UserAccount,
    trade: TradeAccount,
    signer: Pubkey,
    params: CloseTradeParams,
)
    ensures
        ({
            let owner_ok = user.owner == signer && trade.owner == signer;
            let open_ok = trade.status == TradeStatus::Open;
            let price_ok = params.exit_price > 0;
            let time_ok = params.exit_timestamp > trade.entry_timestamp;
            let pnl = net_pnl(trade.entry_price, params.exit_price, trade.size, trade.direction, trade.leverage, params.fees_paid);
            let fits = pnl matches Some(p) && record_close(user.stats, p, params.fees_paid) is Some;
            let e = close_trade_error(user, trade, signer, params);
            &&& (e is None <==> owner_ok && open_ok && price_ok && time_ok && fits)
            &&& (e == Some(TradaryError::Unauthorized) <==> !owner_ok)
            &&& (e == Some(TradaryError::TradeAlreadyClosed) <==> owner_ok && !open_ok)
            &&& (e == Some(TradaryError::InvalidExitPrice) <==> owner_ok && open_ok && !price_ok)
            &&& (e == Some(TradaryError::InvalidTimestampOrder) <==> owner_ok && open_ok && price_ok
                && !time_ok)
            &&& (e == Some(TradaryError::ArithmaticOverflow) <==> owner_ok && open_ok && price_ok
                && time_ok && !fits)
        }),
{
}

} // verus!
