//! What the windows show, and what clicks in them do.

pub mod account_card;
pub mod notifications;
pub mod panels;
pub mod sidebar;
pub mod window_laws;
