//! Resolver contracts: how an operation parameter is produced from an open
//! transaction.
use vstd::prelude::*;
use redb::{ReadTransaction, WriteTransaction};

verus! {

/// A value that can be resolved from a read-only transaction.
pub trait QueryArg<'a>: Sized {
    fn from_tx(tx: &'a ReadTransaction) -> Result<Self, redb::Error>;
}

/// A value that can be resolved from a read-write transaction.
pub trait StatementArg<'a>: Sized {
    fn from_tx(tx: &'a WriteTransaction) -> Result<Self, redb::Error>;
}

/// Identity resolution: a query may ask for the transaction itself.
impl<'a> QueryArg<'a> for &'a ReadTransaction {
    fn from_tx(tx: &'a ReadTransaction) -> (r: Result<Self, redb::Error>)
        ensures
            r == Ok::<Self, redb::Error>(tx),
    {
        Ok(tx)
    }
}

/// Identity resolution: a statement may ask for the transaction itself.
impl<'a> StatementArg<'a> for &'a WriteTransaction {
    fn from_tx(tx: &'a WriteTransaction) -> (r: Result<Self, redb::Error>)
        ensures
            r == Ok::<Self, redb::Error>(tx),
    {
        Ok(tx)
    }
}

} // verus!
