pub mod refund_status;
pub mod select;
pub mod test_random;

pub use refund_status::refund_status;
pub use select::select;
pub use test_random::test_random;
