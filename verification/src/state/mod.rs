//! The protocol's accounts, as plain data.

pub mod clearing_house;
pub mod fate_order;
pub mod player_state;
pub mod referral_state;

pub use clearing_house::ClearingHouseState;
pub use fate_order::{FateOrder, FateOrderStatus};
pub use player_state::PlayerState;
pub use referral_state::ReferralState;
