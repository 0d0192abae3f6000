//! Parametric insurance settled by oracle readings.

pub mod address;
pub mod host;
pub mod ident;
pub mod lists;
pub mod math;
pub mod mirror;
pub mod oracle;
pub mod policy;
pub mod pool;
pub mod seqs;
pub mod sums;
pub mod table;
