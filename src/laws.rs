//! Properties of the dispatch protocol.
use vstd::prelude::*;
use redb::{ReadTransaction, WriteTransaction};
use crate::dispatch::{completes1, completes2, converted};
use crate::query::{query_outcome1, query_outcome2};
use crate::resolve::{QueryArg, StatementArg};
use crate::statement::{statement_outcome1, statement_outcome2};

verus! {

/// When the first parameter of a two-parameter query can only fail to
/// resolve, with `e0`, the query returns `e0` converted, whatever the second
/// parameter and the callable are: neither is reached.
pub proof fn lemma_query_stops_at_first_failure<'a, T0, T1, O, E, F>(
    f: F,
    tx: &'a ReadTransaction,
    e0: redb::Error,
    r: Result<O, E>,
) where
    F: FnOnce(T0, T1) -> Result<O, E>,
    T0: QueryArg<'a>,
    T1: QueryArg<'a>,
    E: From<redb::Error>,
    requires
        forall|r0: Result<T0, redb::Error>|
            #[trigger] call_ensures(T0::from_tx, (tx,), r0) ==> r0 == Err::<T0, redb::Error>(e0),
        query_outcome2(f, tx, r),
    ensures
        converted(e0, r),
{
}

/// When the first parameter of a two-parameter statement can only fail to
/// resolve, with `e0`, the statement returns `e0` converted, whatever the
/// second parameter and the callable are: neither is reached.
pub proof fn lemma_statement_stops_at_first_failure<'a, T0, T1, O, E, F>(
    f: F,
    tx: &'a WriteTransaction,
    e0: redb::Error,
    r: Result<O, E>,
) where
    F: FnOnce(T0, T1) -> Result<O, E>,
    T0: StatementArg<'a>,
    T1: StatementArg<'a>,
    E: From<redb::Error>,
    requires
        forall|r0: Result<T0, redb::Error>|
            #[trigger] call_ensures(T0::from_tx, (tx,), r0) ==> r0 == Err::<T0, redb::Error>(e0),
        statement_outcome2(f, tx, r),
    ensures
        converted(e0, r),
{
}

/// A two-parameter query `f` whose second parameter is the transaction
/// itself, and which otherwise does what the one-parameter query `g` does,
/// returns only what `g` may return through the same entry point.
pub proof fn lemma_query_two_param_within_one_param<'a, T0, O, E, F, G>(
    f: F,
    g: G,
    tx: &'a ReadTransaction,
    r: Result<O, E>,
) where
    F: FnOnce(T0, &'a ReadTransaction) -> Result<O, E>,
    G: FnOnce(T0) -> Result<O, E>,
    T0: QueryArg<'a>,
    E: From<redb::Error>,
    requires
        forall|t0: T0, s: Result<O, E>| #[trigger] f.ensures((t0, tx), s) <==> g.ensures((t0,), s),
        query_outcome2(f, tx, r),
    ensures
        query_outcome1(g, tx, r),
{
}

/// A two-parameter statement `f` whose second parameter is the transaction
/// itself, and which otherwise does what the one-parameter statement `g`
/// does, returns only what `g` may return through the same entry point.
pub proof fn lemma_statement_two_param_within_one_param<'a, T0, O, E, F, G>(
    f: F,
    g: G,
    tx: &'a WriteTransaction,
    r: Result<O, E>,
) where
    F: FnOnce(T0, &'a WriteTransaction) -> Result<O, E>,
    G: FnOnce(T0) -> Result<O, E>,
    T0: StatementArg<'a>,
    E: From<redb::Error>,
    requires
        forall|t0: T0, s: Result<O, E>| #[trigger] f.ensures((t0, tx), s) <==> g.ensures((t0,), s),
        statement_outcome2(f, tx, r),
    ensures
        statement_outcome1(g, tx, r),
{
}

/// Once its parameters have resolved, a two-parameter operation whose second
/// parameter `x` plays no part returns exactly what the one-parameter
/// operation doing the same with the first parameter returns.
pub proof fn lemma_two_param_step_matches_one_param<T0, X, O, E, F, G>(
    f: F,
    g: G,
    t0: T0,
    x: X,
    r: Result<O, E>,
) where
    F: FnOnce(T0, X) -> Result<O, E>,
    G: FnOnce(T0) -> Result<O, E>,
    E: From<redb::Error>,
    requires
        forall|s: Result<O, E>| #[trigger] f.ensures((t0, x), s) <==> g.ensures((t0,), s),
    ensures
        completes2(f, t0, Ok::<X, redb::Error>(x), r) <==> completes1(g, Ok::<T0, redb::Error>(t0), r),
{
}

} // verus!
