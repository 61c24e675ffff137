//! Escrow-style invoicing and settlement: a merchant opens an invoice, a payer
//! settles it with the exact amount, and the merchant may refund it in full.

pub mod bytes;
pub mod contract;
pub mod digest;
pub mod identity;
pub mod invoice;
pub mod laws;
pub mod naming;
pub mod store;
pub mod types;
