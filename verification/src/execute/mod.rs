pub mod buy_tickets;
pub mod cancel;
pub mod choose_winner;
pub mod claim_refund;
pub mod transfer_ownership;
pub mod update;
pub mod update_marketing;

pub use buy_tickets::buy_tickets;
pub use cancel::cancel;
pub use choose_winner::choose_winner;
pub use claim_refund::claim_refund;
pub use transfer_ownership::transfer_ownership;
pub use update::update;
pub use update_marketing::update_marketing;
