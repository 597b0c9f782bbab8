//! A two-party token-exchange escrow: a market-maker posts a funded standing
//! offer, a taker places a matching order that is escrowed at creation, and an
//! approved order is settled by paying the taker out of the offer's treasury
//! at twice the ask amount.

pub mod errors;
pub mod laws;
pub mod market;
pub mod model;
pub mod schema;
