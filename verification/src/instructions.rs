pub mod add_trade_notes;
pub mod close_trade;
pub mod create_tag;
pub mod create_trade;
pub mod initialize_user;
pub mod update_user_profile;
