//! Model of a "refer and earn" page: the referral code and link derived from a
//! user's canister principal, the tab selection kept in a URL query parameter,
//! and the small decisions that pick which pane and style the page shows.

pub mod code;
pub mod pane;
pub mod tab;
