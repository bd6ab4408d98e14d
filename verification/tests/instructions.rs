use tradary::constants::{MAX_NOTES_LEN, MAX_TAGS_PER_USER};
use tradary::errors::TradaryError;
use tradary::instructions::add_trade_notes;
use tradary::instructions::close_trade::{self, CloseTradeParams};
use tradary::instructions::create_tag;
use tradary::instructions::create_trade::{self, CreateTradeParams};
use tradary::instructions::initialize_user;
use tradary::instructions::update_user_profile::{self, UpdateUserProfileParams};
use tradary::key::Pubkey;
use tradary::state::{
    AssetClass, EmotionalState, TagAccount, TradeAccount, TradeDirection, TradeStatus,
    TradingStats, UserAccount,
};

fn key(b: u8) -> Pubkey {
    Pubkey { bytes: [b; 32] }
}

fn new_user(owner: u8) -> UserAccount {
    let (user, _) = initialize_user::handler(
        &key(owner),
        254,
        "trader".to_string(),
        "swing trades".to_string(),
        false,
        1_000,
    )
    .unwrap();
    user
}

fn params(direction: TradeDirection) -> CreateTradeParams {
    CreateTradeParams {
        symbol: "SOL/USDC".to_string(),
        direction,
        asset_class: AssetClass::Spot,
        entry_price: 1_000_000,
        size: 3_000_000,
        leverage: 2,
        emotion_entry: EmotionalState::Calm,
        notes: String::new(),
        tag_indices: vec![0, 1],
        entry_timestamp: 5_000,
    }
}

fn open_trade(user: &mut UserAccount, direction: TradeDirection) -> TradeAccount {
    let signer = user.owner;
    let (trade, _) = create_trade::handler(user, &signer, 7, params(direction), 5_001).unwrap();
    trade
}

fn close(exit_price: i64, fees_paid: u64) -> CloseTradeParams {
    CloseTradeParams {
        exit_price,
        fees_paid,
        emotion_exit: EmotionalState::Greedy,
        exit_timestamp: 6_000,
    }
}

#[test]
fn account_sizes() {
    assert_eq!(TradingStats::LEN, 64);
    assert_eq!(TagAccount::LEN, 94);
    assert_eq!(UserAccount::LEN, 320);
    assert_eq!(TradeAccount::LEN, 677);
}

#[test]
fn defaults() {
    assert_eq!(EmotionalState::default(), EmotionalState::Neutral);
    assert_eq!(TradeDirection::default(), TradeDirection::Long);
    assert_eq!(AssetClass::default(), AssetClass::Spot);
    assert_eq!(TradeStatus::default(), TradeStatus::Open);
    let s = TradingStats::default();
    assert_eq!(s.total_trades, 0);
    assert_eq!(s.best_trade_pnl, 0);
    assert_eq!(s._reserved, [0u8; 16]);
    assert_eq!(new_user(1).stats._reserved, [0u8; 16]);
}

#[test]
fn pubkey_comparison() {
    let a = key(3);
    let mut b = key(3);
    assert!(a.same_as(&b));
    b.bytes[31] = 4;
    assert!(!a.same_as(&b));
}

#[test]
fn initialize_user_creates_empty_profile() {
    let (user, event) = initialize_user::handler(
        &key(9),
        200,
        "alice".to_string(),
        "bio".to_string(),
        true,
        42,
    )
    .unwrap();
    assert!(user.owner.same_as(&key(9)));
    assert_eq!(user.version, 1);
    assert_eq!(user.bump, 200);
    assert_eq!(user.username, "alice");
    assert_eq!(user.bio, "bio");
    assert_eq!(user.created_at, 42);
    assert_eq!(user.trade_count, 0);
    assert_eq!(user.tag_count, 0);
    assert_eq!(user.stats.total_trades, 0);
    assert!(user.privacy_enabled);
    assert_eq!(user._reserved, [0u8; 32]);
    assert!(event.owner.same_as(&key(9)));
    assert_eq!(event.created_at, 42);
}

#[test]
fn initialize_user_limits_are_in_bytes() {
    // 16 two-byte characters: 32 bytes, accepted.
    let ok = "é".repeat(16);
    assert!(initialize_user::handler(&key(1), 1, ok, String::new(), false, 0).is_ok());
    // 17 two-byte characters: 34 bytes, refused although only 17 characters.
    let long = "é".repeat(17);
    let r = initialize_user::handler(&key(1), 1, long, String::new(), false, 0);
    assert_eq!(r.unwrap_err(), TradaryError::UsernameTooLong);
    let r = initialize_user::handler(&key(1), 1, "x".repeat(33), "y".repeat(200), false, 0);
    assert_eq!(r.unwrap_err(), TradaryError::UsernameTooLong);
    let r = initialize_user::handler(&key(1), 1, "x".to_string(), "y".repeat(129), false, 0);
    assert_eq!(r.unwrap_err(), TradaryError::BioTooLong);
    let r = initialize_user::handler(&key(1), 1, "x".to_string(), "y".repeat(128), false, 0);
    assert!(r.is_ok());
}

#[test]
fn update_profile_changes_only_given_fields() {
    let mut user = new_user(1);
    let p = UpdateUserProfileParams {
        username: Some("bob".to_string()),
        bio: None,
        privacy_enabled: Some(true),
    };
    update_user_profile::handler(&mut user, &key(1), p).unwrap();
    assert_eq!(user.username, "bob");
    assert_eq!(user.bio, "swing trades");
    assert!(user.privacy_enabled);
}

#[test]
fn update_profile_failure_changes_nothing() {
    let mut user = new_user(1);
    let p = UpdateUserProfileParams {
        username: Some("bob".to_string()),
        bio: Some("z".repeat(129)),
        privacy_enabled: Some(true),
    };
    let r = update_user_profile::handler(&mut user, &key(1), p);
    assert_eq!(r, Err(TradaryError::BioTooLong));
    assert_eq!(user.username, "trader");
    assert!(!user.privacy_enabled);
    let p = UpdateUserProfileParams {
        username: Some("x".repeat(33)),
        bio: None,
        privacy_enabled: None,
    };
    assert_eq!(
        update_user_profile::handler(&mut user, &key(1), p),
        Err(TradaryError::UsernameTooLong)
    );
}

#[test]
fn update_profile_requires_owner() {
    let mut user = new_user(1);
    let p = UpdateUserProfileParams { username: Some("eve".to_string()), bio: None, privacy_enabled: None };
    assert_eq!(update_user_profile::handler(&mut user, &key(2), p), Err(TradaryError::Unauthorized));
    assert_eq!(user.username, "trader");
}

#[test]
fn create_trade_assigns_sequential_indices() {
    let mut user = new_user(1);
    let (t0, e0) = create_trade::handler(&mut user, &key(1), 7, params(TradeDirection::Long), 99).unwrap();
    let (t1, _) = create_trade::handler(&mut user, &key(1), 8, params(TradeDirection::Short), 100).unwrap();
    assert_eq!(t0.trade_index, 0);
    assert_eq!(t1.trade_index, 1);
    assert_eq!(user.trade_count, 2);
    assert_eq!(e0.trade_index, 0);
    assert_eq!(e0.symbol, "SOL/USDC");
    assert_eq!(e0.entry_price, 1_000_000);
    assert_eq!(e0.entry_timestamp, 5_000);
    assert_eq!(t0.status, TradeStatus::Open);
    assert_eq!(t0.exit_price, 0);
    assert_eq!(t0.exit_timestamp, 0);
    assert_eq!(t0.pnl_realized, 0);
    assert_eq!(t0.fees_paid, 0);
    assert_eq!(t0.emotion_exit, EmotionalState::Neutral);
    assert_eq!(t0.emotion_entry, EmotionalState::Calm);
    assert_eq!(t0.tag_indices, vec![0, 1]);
    assert_eq!(t0.updated_at, 99);
    assert_eq!(t0.bump, 7);
    assert_eq!(t0.version, 1);
    assert_eq!(t1.direction, TradeDirection::Short);
}

#[test]
fn create_trade_validation_errors() {
    let mut user = new_user(1);
    let cases: Vec<(CreateTradeParams, TradaryError)> = vec![
        (CreateTradeParams { symbol: "S".repeat(17), ..params(TradeDirection::Long) }, TradaryError::SymbolTooLong),
        (CreateTradeParams { notes: "n".repeat(513), ..params(TradeDirection::Long) }, TradaryError::NotesTooLong),
        (CreateTradeParams { entry_price: 0, ..params(TradeDirection::Long) }, TradaryError::InvalidEntryPrice),
        (CreateTradeParams { entry_price: -5, ..params(TradeDirection::Long) }, TradaryError::InvalidEntryPrice),
        (CreateTradeParams { size: 0, ..params(TradeDirection::Long) }, TradaryError::InvalidSize),
        (CreateTradeParams { leverage: 0, ..params(TradeDirection::Long) }, TradaryError::InvalidLeverage),
        (CreateTradeParams { leverage: 101, ..params(TradeDirection::Long) }, TradaryError::InvalidLeverage),
        (CreateTradeParams { tag_indices: vec![0; 6], ..params(TradeDirection::Long) }, TradaryError::TooManyTagsOnTrade),
    ];
    for (p, e) in cases {
        assert_eq!(create_trade::handler(&mut user, &key(1), 7, p, 0).unwrap_err(), e);
        assert_eq!(user.trade_count, 0);
    }
    let ok = CreateTradeParams { leverage: 100, tag_indices: vec![0; 5], notes: "n".repeat(512), ..params(TradeDirection::Long) };
    assert!(create_trade::handler(&mut user, &key(1), 7, ok, 0).is_ok());
    assert_eq!(
        create_trade::handler(&mut user, &key(2), 7, params(TradeDirection::Long), 0).unwrap_err(),
        TradaryError::Unauthorized
    );
}

#[test]
fn create_trade_counter_overflow() {
    let mut user = new_user(1);
    user.trade_count = u32::MAX;
    let r = create_trade::handler(&mut user, &key(1), 7, params(TradeDirection::Long), 0);
    assert_eq!(r.unwrap_err(), TradaryError::ArithmaticOverflow);
    assert_eq!(user.trade_count, u32::MAX);
}

#[test]
fn pnl_formula() {
    // (2.0 - 1.0) * 3.0 = 3.0 USDC, times leverage 2, minus 0.0005 fees.
    assert_eq!(
        close_trade::compute_net_pnl(1_000_000, 2_000_000, 3_000_000, TradeDirection::Long, 2, 500),
        Some(5_999_500)
    );
    assert_eq!(
        close_trade::compute_net_pnl(1_000_000, 2_000_000, 3_000_000, TradeDirection::Short, 2, 500),
        Some(-6_000_500)
    );
    // Division rounds toward zero.
    assert_eq!(close_trade::compute_net_pnl(1_000_000, 999_999, 1, TradeDirection::Long, 1, 0), Some(0));
    assert_eq!(close_trade::compute_net_pnl(1_000_000, 999_999, 1_500_000, TradeDirection::Long, 1, 0), Some(-1));
    // A size above i64::MAX does not fit the computation.
    assert_eq!(close_trade::compute_net_pnl(1_000_000, 2_000_000, u64::MAX, TradeDirection::Long, 1, 0), None);
    assert_eq!(close_trade::compute_net_pnl(1_000_000, 1_000_001, 1u64 << 63, TradeDirection::Long, 1, 0), None);
    assert_eq!(
        close_trade::compute_net_pnl(1_000_000, 1_000_001, i64::MAX as u64, TradeDirection::Long, 1, 0),
        Some(i64::MAX / 1_000_000)
    );
    // Overflows.
    assert_eq!(close_trade::compute_net_pnl(i64::MIN, i64::MAX, 1, TradeDirection::Long, 1, 0), None);
    assert_eq!(close_trade::compute_net_pnl(1, i64::MAX, 2, TradeDirection::Long, 1, 0), None);
    assert_eq!(close_trade::compute_net_pnl(1, i64::MAX, 1, TradeDirection::Short, 1, i64::MAX as u64), None);
    // Fees above i64::MAX do not fit the computation.
    assert_eq!(
        close_trade::compute_net_pnl(1_000_000, 2_000_000, 1_000_000, TradeDirection::Long, 1, u64::MAX),
        None
    );
    assert_eq!(
        close_trade::compute_net_pnl(1_000_000, 2_000_000, 1_000_000, TradeDirection::Long, 1, 1u64 << 63),
        None
    );
    assert_eq!(
        close_trade::compute_net_pnl(1_000_000, 2_000_000, 1_000_000, TradeDirection::Long, 1, i64::MAX as u64),
        Some(1_000_000 - i64::MAX)
    );
}

#[test]
fn pnl_short_mirrors_long() {
    for (entry, exit, size, lev, fees) in [(5, 9_000_000, 2_000_000u64, 3u8, 17u64), (7_000, 1_000, 10_000_000, 1, 0)] {
        let long = close_trade::compute_net_pnl(entry, exit, size, TradeDirection::Long, lev, fees).unwrap();
        let short = close_trade::compute_net_pnl(entry, exit, size, TradeDirection::Short, lev, fees).unwrap();
        assert_eq!(long + fees as i64, -(short + fees as i64));
    }
}

#[test]
fn close_trade_records_exit_and_stats() {
    let mut user = new_user(1);
    let mut trade = open_trade(&mut user, TradeDirection::Long);
    let event = close_trade::handler(&mut user, &mut trade, &key(1), close(2_000_000, 500), 7_000).unwrap();
    assert_eq!(trade.status, TradeStatus::Closed);
    assert_eq!(trade.exit_price, 2_000_000);
    assert_eq!(trade.exit_timestamp, 6_000);
    assert_eq!(trade.emotion_exit, EmotionalState::Greedy);
    assert_eq!(trade.fees_paid, 500);
    assert_eq!(trade.pnl_realized, 5_999_500);
    assert_eq!(trade.updated_at, 7_000);
    assert_eq!(event.pnl_realized, 5_999_500);
    assert_eq!(event.exit_price, 2_000_000);
    assert_eq!(event.trade_index, 0);
    let s = user.stats;
    assert_eq!(s.total_trades, 1);
    assert_eq!(s.winning_trades, 1);
    assert_eq!(s.total_pnl_realized, 5_999_500);
    assert_eq!(s.total_fees_paid, 500);
    assert_eq!(s.best_trade_pnl, 5_999_500);
    assert_eq!(s.worst_trade_pnl, 5_999_500);
    assert_eq!(s.current_win_streak, 1);
    assert_eq!(s.longest_win_streak, 1);
    assert_eq!(s.current_lose_streak, 0);
}

#[test]
fn closed_trade_is_final() {
    let mut user = new_user(1);
    let mut trade = open_trade(&mut user, TradeDirection::Long);
    close_trade::handler(&mut user, &mut trade, &key(1), close(2_000_000, 0), 7_000).unwrap();
    let before_stats = user.stats;
    let r = close_trade::handler(&mut user, &mut trade, &key(1), close(3_000_000, 0), 8_000);
    assert_eq!(r.unwrap_err(), TradaryError::TradeAlreadyClosed);
    assert_eq!(trade.exit_price, 2_000_000);
    assert_eq!(user.stats.total_trades, before_stats.total_trades);
    let r = add_trade_notes::handler(&user, &mut trade, &key(1), "late".to_string(), 9_000);
    assert_eq!(r, Err(TradaryError::TradeAlreadyClosed));
    assert_eq!(trade.notes, "");
    assert_eq!(trade.updated_at, 7_000);
}

#[test]
fn close_trade_validation_errors() {
    let mut user = new_user(1);
    let mut trade = open_trade(&mut user, TradeDirection::Long);
    assert_eq!(
        close_trade::handler(&mut user, &mut trade, &key(2), close(2_000_000, 0), 0).unwrap_err(),
        TradaryError::Unauthorized
    );
    assert_eq!(
        close_trade::handler(&mut user, &mut trade, &key(1), close(0, 0), 0).unwrap_err(),
        TradaryError::InvalidExitPrice
    );
    let early = CloseTradeParams { exit_timestamp: 4_999, ..close(2_000_000, 0) };
    assert_eq!(
        close_trade::handler(&mut user, &mut trade, &key(1), early, 0).unwrap_err(),
        TradaryError::InvalidTimestampOrder
    );
    let same_time = CloseTradeParams { exit_timestamp: 5_000, ..close(2_000_000, 0) };
    assert_eq!(
        close_trade::handler(&mut user, &mut trade, &key(1), same_time, 0).unwrap_err(),
        TradaryError::InvalidTimestampOrder
    );
    let just_after = CloseTradeParams { exit_timestamp: 5_001, ..close(2_000_000, 0) };
    let mut other = trade.clone();
    let mut other_user = user.clone();
    assert!(close_trade::handler(&mut other_user, &mut other, &key(1), just_after, 0).is_ok());
    assert_eq!(
        close_trade::handler(&mut user, &mut trade, &key(1), close(i64::MAX, 0), 0).unwrap_err(),
        TradaryError::ArithmaticOverflow
    );
    assert_eq!(trade.status, TradeStatus::Open);
    assert_eq!(user.stats.total_trades, 0);
}

#[test]
fn close_trade_stats_overflow_changes_nothing() {
    let mut user = new_user(1);
    let mut trade = open_trade(&mut user, TradeDirection::Long);
    user.stats.total_fees_paid = u64::MAX;
    let r = close_trade::handler(&mut user, &mut trade, &key(1), close(2_000_000, 1), 0);
    assert_eq!(r.unwrap_err(), TradaryError::ArithmaticOverflow);
    assert_eq!(trade.status, TradeStatus::Open);
    assert_eq!(trade.exit_price, 0);
    assert_eq!(user.stats.total_trades, 0);
    user.stats.total_fees_paid = 0;
    user.stats.current_lose_streak = u16::MAX;
    user.stats.longest_lose_streak = u16::MAX;
    let r = close_trade::handler(&mut user, &mut trade, &key(1), close(500_000, 0), 0);
    assert_eq!(r.unwrap_err(), TradaryError::ArithmaticOverflow);
}

#[test]
fn stats_follow_a_history_of_closes() {
    let mut user = new_user(1);
    // Entry 2.0, size 1.0, leverage 1: PnLs +2, -1.5, -0.5, +1, +2, +0.5 USDC, less 10 of fees each.
    let exits = [4_000_000i64, 500_000, 1_500_000, 3_000_000, 4_000_000, 2_500_000];
    for exit in exits {
        let p = CreateTradeParams { entry_price: 2_000_000, size: 1_000_000, leverage: 1, ..params(TradeDirection::Long) };
        let (mut trade, _) = create_trade::handler(&mut user, &key(1), 1, p, 0).unwrap();
        close_trade::handler(&mut user, &mut trade, &key(1), close(exit, 10), 0).unwrap();
    }
    let s = user.stats;
    assert_eq!(s.total_trades, 6);
    assert_eq!(s.winning_trades, 4);
    assert_eq!(s.total_pnl_realized, 3_499_940);
    assert_eq!(s.total_fees_paid, 60);
    assert_eq!(s.best_trade_pnl, 1_999_990);
    assert_eq!(s.worst_trade_pnl, -1_500_010);
    assert_eq!(s.current_win_streak, 3);
    assert_eq!(s.longest_win_streak, 3);
    assert_eq!(s.current_lose_streak, 0);
    assert_eq!(s.longest_lose_streak, 2);
    assert_eq!(user.trade_count, 6);
}

#[test]
fn first_close_sets_best_and_worst() {
    let mut user = new_user(1);
    let p = CreateTradeParams { entry_price: 2_000_000, size: 1_000_000, leverage: 1, ..params(TradeDirection::Long) };
    let (mut trade, _) = create_trade::handler(&mut user, &key(1), 1, p, 0).unwrap();
    close_trade::handler(&mut user, &mut trade, &key(1), close(1_000_000, 0), 0).unwrap();
    assert_eq!(trade.pnl_realized, -1_000_000);
    assert_eq!(user.stats.best_trade_pnl, -1_000_000);
    assert_eq!(user.stats.worst_trade_pnl, -1_000_000);
}

#[test]
fn huge_fees_are_an_overflow() {
    let mut user = new_user(1);
    let mut trade = open_trade(&mut user, TradeDirection::Long);
    let r = close_trade::handler(&mut user, &mut trade, &key(1), close(1_000_000, u64::MAX), 0);
    assert_eq!(r.unwrap_err(), TradaryError::ArithmaticOverflow);
    assert_eq!(trade.status, TradeStatus::Open);
    assert_eq!(user.stats.total_trades, 0);
}

#[test]
fn break_even_counts_as_loss() {
    let mut user = new_user(1);
    let mut trade = open_trade(&mut user, TradeDirection::Long);
    close_trade::handler(&mut user, &mut trade, &key(1), close(1_000_000, 0), 0).unwrap();
    assert_eq!(trade.pnl_realized, 0);
    assert_eq!(user.stats.winning_trades, 0);
    assert_eq!(user.stats.current_lose_streak, 1);
    assert_eq!(user.stats.longest_lose_streak, 1);
}

#[test]
fn notes_are_appended_with_separator() {
    let mut user = new_user(1);
    let mut trade = open_trade(&mut user, TradeDirection::Long);
    add_trade_notes::handler(&user, &mut trade, &key(1), "entry on breakout".to_string(), 10).unwrap();
    assert_eq!(trade.notes, "entry on breakout");
    assert_eq!(trade.updated_at, 10);
    add_trade_notes::handler(&user, &mut trade, &key(1), "moved stop".to_string(), 11).unwrap();
    assert_eq!(trade.notes, "entry on breakout\n---\nmoved stop");
    assert_eq!(trade.updated_at, 11);
}

#[test]
fn notes_length_limit_counts_separator() {
    let mut user = new_user(1);
    let mut trade = open_trade(&mut user, TradeDirection::Long);
    add_trade_notes::handler(&user, &mut trade, &key(1), "a".repeat(500), 1).unwrap();
    // 500 + 5 + 8 = 513 bytes: refused, nothing changes.
    let r = add_trade_notes::handler(&user, &mut trade, &key(1), "b".repeat(8), 2);
    assert_eq!(r, Err(TradaryError::NotesTooLong));
    assert_eq!(trade.notes.len(), 500);
    assert_eq!(trade.updated_at, 1);
    // 500 + 5 + 7 = 512 bytes: accepted.
    add_trade_notes::handler(&user, &mut trade, &key(1), "b".repeat(7), 3).unwrap();
    assert_eq!(trade.notes.len(), MAX_NOTES_LEN);
    assert_eq!(
        add_trade_notes::handler(&user, &mut trade, &key(2), "x".to_string(), 4),
        Err(TradaryError::Unauthorized)
    );
}

#[test]
fn create_tag_indices_and_limit() {
    let mut user = new_user(1);
    for i in 0..MAX_TAGS_PER_USER {
        let (tag, event) = create_tag::handler(&mut user, &key(1), 3, format!("tag{}", i), 0xff00ff00, 77).unwrap();
        assert_eq!(tag.tag_index as usize, i);
        assert_eq!(event.tag_index as usize, i);
        assert_eq!(tag.color, 0xff00ff00);
        assert_eq!(tag.usage_count, 0);
        assert_eq!(tag.created_at, 77);
        assert_eq!(tag.bump, 3);
    }
    assert_eq!(user.tag_count, 50);
    let r = create_tag::handler(&mut user, &key(1), 3, "one more".to_string(), 0, 0);
    assert_eq!(r.unwrap_err(), TradaryError::TooManyUserTags);
    assert_eq!(user.tag_count, 50);
}

#[test]
fn create_tag_name_errors() {
    let mut user = new_user(1);
    assert_eq!(
        create_tag::handler(&mut user, &key(1), 3, String::new(), 0, 0).unwrap_err(),
        TradaryError::TagNameTooLong
    );
    assert_eq!(
        create_tag::handler(&mut user, &key(1), 3, "t".repeat(33), 0, 0).unwrap_err(),
        TradaryError::TagNameTooLong
    );
    assert_eq!(
        create_tag::handler(&mut user, &key(2), 3, "scalp".to_string(), 0, 0).unwrap_err(),
        TradaryError::Unauthorized
    );
    assert_eq!(user.tag_count, 0);
    let (tag, event) = create_tag::handler(&mut user, &key(1), 3, "t".repeat(32), 0, 0).unwrap();
    assert_eq!(tag.name, "t".repeat(32));
    assert_eq!(event.name, "t".repeat(32));
}
