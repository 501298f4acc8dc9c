//! Client-side lifecycle model of asynchronously authorized bank payments.

pub mod account;
pub mod flow;
pub mod money;
pub mod payment;
pub mod polling;
pub mod provider;
pub mod string_map;
pub mod submission;
pub mod time;
pub mod wire;
