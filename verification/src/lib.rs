//! Orchestration of zkVM execution and of the composition of its receipts.

pub mod error;
pub mod image;
pub mod receipt;
pub mod reduce;
pub mod run;
pub mod session;
pub mod span;
