//! Control logic of a market-making simulation in the Avellaneda-Stoikov
//! inventory-risk framework.
//!
//! An agent quotes a bid and an ask around a mid-price that follows a
//! driftless Brownian motion, is filled at random, and keeps its inventory
//! within a hard cap. Many independent runs are collected into a batch, whose
//! terminal profits and losses are tallied for a histogram.
//!
//! Real-valued quantities are carried as IEEE 754 binary64 bit patterns
//! ([`binary64::Binary64`]): whether such a value is finite, positive or
//! within bounds is decided here, in integer arithmetic, while the
//! floating-point arithmetic of the model and its random draws are the
//! caller's. The caller samples, quotes and draws; every decision on the
//! state of a path ([`path`]), a ledger ([`ledger`]), a run ([`runner`]) or a
//! batch ([`aggregate`]) is taken here.

pub mod aggregate;
pub mod arrival;
pub mod binary64;
pub mod error;
pub mod histogram;
pub mod ledger;
pub mod params;
pub mod path;
pub mod quoting;
pub mod runner;
