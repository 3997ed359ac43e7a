//! The name authority bundled with a Floonet relay.
//!
//! `name@domain` stands for a Nostr key. This library holds what the authority
//! decides; the program around it reads files, speaks HTTP and SQL, and asks
//! the clock.
//!
//! - [`config`] and [`setup`]: the configuration, the env files it is read
//!   from, and the questions that fill one.
//! - [`handlers`]: what each endpoint answers, as a function of the request and
//!   of what has been learned for it so far.
//! - [`db`] and [`ledger`]: the tables, the statements on them, and what no
//!   sequence of requests can break.
//! - [`paid`]: the paywall, and whether a key has paid.
//! - [`payproof`], [`address`] and [`node`]: Grin payment proofs, addresses, and
//!   what a Grin node says of a payment.
//! - [`auth`], [`event`] and [`ratelimit`]: signed requests, and how many.
//! - [`names`], [`amount`], [`digits`], [`text`]: what names, amounts and
//!   numbers look like in text.
//! - [`json`] and [`crypto`]: what the outside crates compute.
//!
//! Every function states what it returns; the laws that span functions stand as
//! proof functions at the end of each module.

pub mod address;
pub mod amount;
pub mod auth;
pub mod config;
pub mod crypto;
pub mod db;
pub mod digits;
pub mod event;
pub mod handlers;
pub mod json;
pub mod ledger;
pub mod mixexit;
pub mod names;
pub mod node;
pub mod paid;
pub mod payproof;
pub mod ratelimit;
pub mod setup;
pub mod text;
pub mod util;

pub use config::Config;
pub use handlers::routes;
