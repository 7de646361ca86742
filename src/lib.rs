//! Campaign accounting for a crowdfunding ledger program: creating a
//! campaign record, accepting donations into it and letting its
//! administrator withdraw donated funds above a reserve floor.
//!
//! The host runtime authenticates callers, moves funds between accounts it
//! does not own, allocates storage and reports the reserve that a record
//! must keep; the functions here decide and account, over plain values.

mod identity;

pub use identity::Identity;
mod campaign;

pub use campaign::{
    create, creation, donate, donation, withdraw, withdrawal, Campaign, Create, Donate, ErrorCode, Withdraw,
    CAMPAIGN_SPACE, MAX_DESCRIPTION_LEN, MAX_NAME_LEN,
};
mod laws;

pub use laws::{
    after_donations, donate_then_withdraw_restores, donation_keeps_funds_covered,
    donations_add_up, long_description_refused, long_name_refused, non_admin_withdraw_refused,
    overdrawn_withdraw_refused, reserve_breaching_withdraw_refused, total, valid_text_creates,
    withdrawal_keeps_funds_covered,
};
