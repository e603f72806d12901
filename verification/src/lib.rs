pub mod codec;
pub mod error;
pub mod escrow;
pub mod identity;
pub mod laws;
pub mod processor;
pub mod record;
