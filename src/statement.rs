//! Statements: operations executed against a read-write transaction, with
//! their parameters resolved from it.
use vstd::prelude::*;
use redb::WriteTransaction;
use crate::resolve::StatementArg;
use crate::dispatch::{complete1, complete2, completes1, completes2, converted};

verus! {

/// What a one-parameter statement `f` may return on `tx`: the parameter is
/// resolved; a resolution failure is converted and returned, otherwise `f`'s
/// own result is.
pub open spec fn statement_outcome1<'a, T0: StatementArg<'a>, O, E: From<redb::Error>, F: FnOnce(T0) -> Result<O, E>>(
    f: F,
    tx: &'a WriteTransaction,
    r: Result<O, E>,
) -> bool {
    exists|r0: Result<T0, redb::Error>|
        #![trigger call_ensures(T0::from_tx, (tx,), r0)]
        call_ensures(T0::from_tx, (tx,), r0) && completes1(f, r0, r)
}

/// What a two-parameter statement `f` may return on `tx`: the first parameter is
/// resolved, and on failure its converted error is returned before the second
/// is resolved or `f` runs; then the second likewise; then `f`'s own result.
pub open spec fn statement_outcome2<'a, T0: StatementArg<'a>, T1: StatementArg<'a>, O, E: From<redb::Error>, F: FnOnce(T0, T1) -> Result<O, E>>(
    f: F,
    tx: &'a WriteTransaction,
    r: Result<O, E>,
) -> bool {
    exists|r0: Result<T0, redb::Error>|
        #![trigger call_ensures(T0::from_tx, (tx,), r0)]
        call_ensures(T0::from_tx, (tx,), r0) && match r0 {
            Err(e0) => converted(e0, r),
            Ok(t0) => exists|r1: Result<T1, redb::Error>|
                #![trigger call_ensures(T1::from_tx, (tx,), r1)]
                call_ensures(T1::from_tx, (tx,), r1) && completes2(f, t0, r1, r),
        }
}

/// Executes a one-parameter statement: resolves its parameter from `tx`, then calls it.
pub fn execute1<'a, T0, O, E, F>(f: F, tx: &'a WriteTransaction) -> (r: Result<O, E>) where
    F: FnOnce(T0) -> Result<O, E>,
    T0: StatementArg<'a>,
    E: From<redb::Error>,
    requires
        forall|t0: T0| #[trigger] f.requires((t0,)),
    ensures
        statement_outcome1(f, tx, r),
{
    complete1(f, T0::from_tx(tx))
}

/// Executes a two-parameter statement: resolves its parameters from `tx`, left to
/// right and stopping at the first failure, then calls it.
pub fn execute2<'a, T0, T1, O, E, F>(f: F, tx: &'a WriteTransaction) -> (r: Result<O, E>) where
    F: FnOnce(T0, T1) -> Result<O, E>,
    T0: StatementArg<'a>,
    T1: StatementArg<'a>,
    E: From<redb::Error>,
    requires
        forall|t0: T0, t1: T1| #[trigger] f.requires((t0, t1)),
    ensures
        statement_outcome2(f, tx, r),
{
    match T0::from_tx(tx) {
        Err(e) => Err(E::from(e)),
        Ok(t0) => complete2(f, t0, T1::from_tx(tx)),
    }
}

/// An operation that can be executed against a read-write transaction.
///
/// Every callable of one or two `StatementArg` parameters is a statement.  A
/// verified caller that needs the callable's contract calls `execute1` or
/// `execute2`, whose contracts are stated on the callable's type directly.
pub trait Statement<'a, T = ()>: Sized {
    type Output;
    type Error: From<redb::Error>;

    /// Whether the operation may be executed (for a callable: it accepts every
    /// resolved parameter).
    open spec fn ready(&self) -> bool {
        true
    }

    /// What executing the operation on `tx` may return.  An operation
    /// written by hand promises nothing here unless its impl says more.
    open spec fn outcome(&self, tx: &'a WriteTransaction, r: Result<Self::Output, Self::Error>) -> bool {
        true
    }

    fn execute(self, tx: &'a WriteTransaction) -> (r: Result<Self::Output, Self::Error>)
        requires
            self.ready(),
        ensures
            self.outcome(tx, r),
    ;
}

impl<'a, F, O, E, T0> Statement<'a, (T0,)> for F where
    F: FnOnce(T0) -> Result<O, E>,
    T0: StatementArg<'a>,
    E: From<redb::Error>,
 {
    type Output = O;

    type Error = E;

    open spec fn ready(&self) -> bool {
        forall|t0: T0| #[trigger] self.requires((t0,))
    }

    open spec fn outcome(&self, tx: &'a WriteTransaction, r: Result<O, E>) -> bool {
        statement_outcome1(*self, tx, r)
    }

    fn execute(self, tx: &'a WriteTransaction) -> (r: Result<O, E>) {
        execute1(self, tx)
    }
}

impl<'a, F, O, E, T0, T1> Statement<'a, (T0, T1)> for F where
    F: FnOnce(T0, T1) -> Result<O, E>,
    T0: StatementArg<'a>,
    T1: StatementArg<'a>,
    E: From<redb::Error>,
 {
    type Output = O;

    type Error = E;

    open spec fn ready(&self) -> bool {
        forall|t0: T0, t1: T1| #[trigger] self.requires((t0, t1))
    }

    open spec fn outcome(&self, tx: &'a WriteTransaction, r: Result<O, E>) -> bool {
        statement_outcome2(*self, tx, r)
    }

    fn execute(self, tx: &'a WriteTransaction) -> (r: Result<O, E>) {
        execute2(self, tx)
    }
}

} // verus!
