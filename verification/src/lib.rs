//! Decisions of a validator election helper: what to stake, when to wait, and
//! which message to send next.

pub mod address;
pub mod amount;
pub mod cli;
pub mod config;
pub mod confirm;
pub mod depool;
pub mod direct;
pub mod error;
pub mod init;
pub mod iteration;
pub mod managed;
pub mod paths;
pub mod schedule;
pub mod service;
pub mod setup;
pub mod text;
pub mod upkeep;
pub mod wallet;
