pub mod jupiter;
pub mod refund;
