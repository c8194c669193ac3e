//! A registry of notification preferences, one list per token.
//!
//! The registry keeps a small configuration record and, for each token
//! identifier, the list of ways in which its holder wants to be notified.
//! Every change is gated: the configuration may be changed by its owner only,
//! and a token's list only by whoever an outside ownership registry names as
//! the token's owner at the time of the request.
//!
//! The operations in [`contract`] work on a [`state::Store`] that is handed to
//! each of them. What each one makes of the store, and what it answers, is
//! stated over the store's view in [`model`]; what holds of the operations
//! taken together is proved in [`laws`]. The calls into `cosmwasm_std` and
//! `cw721` are gathered in [`host`].

pub mod contract;
pub mod error;
pub mod host;
pub mod laws;
pub mod model;
pub mod msg;
pub mod state;
pub mod text;
