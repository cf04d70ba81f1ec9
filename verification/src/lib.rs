//! Slot-aware dispatch of Solana transactions.
//!
//! Who leads a slot decides how a transaction is best sent: some leaders rank by
//! tip, some by compute price, some by neither. A [`TxDispacher`] asks an oracle
//! for the leader and lays out a [`plan::Plan`]: which platform gets the
//! transaction, with which tip and which fee, in which order.
//!
//! - a Harmonic node leads: Harmonic directly, the other platforms by tip;
//! - a Jito node leads: the platforms that rank by tip, without a price;
//! - the leader ranks by tip alone: all platforms at once, under a fee ceiling;
//! - any other leader, known or not: all platforms, by price and by tip.
//!
//! Building, signing and sending the transactions is left to the caller. What the
//! plans promise is in [`guarantees`] and [`guarantees_v1`]. What each operation does,
//! told from its arguments and its result alone, is in [`laws`] and [`laws_v1`], and
//! for the smaller ones in [`laws_of_parts`], [`laws_of_context`] and
//! [`laws_of_sending`]. Whom a send must reach is in [`laws_of_reach`].
//!
//! Ratios are binary64 numbers, given by their bits: see [`binary64`].

pub mod binary64;
pub mod builder;
pub mod bundle;
pub mod context;
pub mod dispatcher;
pub mod failure;
pub mod fee;
pub mod fifo;
pub mod fire;
pub mod guarantees;
pub mod guarantees_v1;
pub mod key;
pub mod laws;
pub mod laws_of_context;
pub mod laws_of_parts;
pub mod laws_of_reach;
pub mod laws_of_sending;
pub mod laws_v1;
pub mod leader;
pub mod nearness;
pub mod outside;
pub mod plan;
pub mod platform;
pub mod rounding;
pub mod shares;
pub mod strategy;
pub mod strategy_v1;
pub mod tip;

pub use builder::TxDispacherBuilder;
pub use bundle::{MultiBundleError, MultiBundleErrorV1, MultiBundleSender, MultiBundleSenderV1};
pub use context::{merge_alts, SendContext};
pub use dispatcher::TxDispacher;
pub use fee::CostConfig;
pub use leader::SendRoute;
pub use tip::TipStrategy;
