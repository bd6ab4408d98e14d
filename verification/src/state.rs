pub mod tag_account;
pub mod trade_account;
pub mod user_account;

pub use tag_account::TagAccount;
pub use trade_account::{TradeAccount, TradeStatus};
pub use user_account::{AssetClass, EmotionalState, TradeDirection, TradingStats, UserAccount};
