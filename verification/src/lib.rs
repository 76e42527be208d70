//! Escrow order lifecycle engine for a marketplace whose settlement funds sit
//! in a 2-of-3 multisignature wallet shared by buyer, seller and marketplace.
//!
//! The crate holds the decision logic only: the order state machine, the
//! role-gated field updates, and the step functions that drive the wallet
//! service through the key-exchange rounds. Storage and transport are left to
//! the caller, who performs each requested action and hands back its result.

pub mod args;
pub mod auth;
pub mod customer;
pub mod decimal;
pub mod logger;
pub mod models;
pub mod monero;
pub mod multisig;
pub mod order;
pub mod product;
pub mod reqres;
pub mod text;
pub mod utils;
pub mod vendor;
