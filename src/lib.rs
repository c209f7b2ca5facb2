//! Typed parameter binding for read and write operations over redb.
//!
//! An operation is a callable whose parameters are table handles (or the
//! transaction itself).  `Query::run` and `Statement::execute` resolve each
//! parameter from an open transaction, left to right, stop at the first
//! resolution failure, and otherwise hand the callable's result back as is.
mod store;

pub mod dispatch;
pub mod laws;
pub mod query;
pub mod resolve;
pub mod statement;

pub use query::Query;
pub use resolve::{QueryArg, StatementArg};
pub use statement::Statement;
