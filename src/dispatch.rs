//! The step shared by queries and statements: once a parameter's resolution
//! is known, either stop with its error or go on to the callable.
use vstd::prelude::*;

verus! {

/// `r` is the error that the operation's error type makes of the store
/// error `e`.
pub open spec fn converted<O, E: From<redb::Error>>(e: redb::Error, r: Result<O, E>) -> bool {
    match r {
        Err(x) => call_ensures(E::from, (e,), x),
        Ok(_) => false,
    }
}

/// `r` is what a one-parameter callable `f` returns given the resolution
/// `r0` of its parameter: the converted error, or `f`'s own result.
pub open spec fn completes1<T0, O, E: From<redb::Error>, F: FnOnce(T0) -> Result<O, E>>(
    f: F,
    r0: Result<T0, redb::Error>,
    r: Result<O, E>,
) -> bool {
    match r0 {
        Err(e0) => converted(e0, r),
        Ok(t0) => f.ensures((t0,), r),
    }
}

/// `r` is what a two-parameter callable `f`, whose first parameter resolved
/// to `t0`, returns given the resolution `r1` of its second parameter.
pub open spec fn completes2<T0, T1, O, E: From<redb::Error>, F: FnOnce(T0, T1) -> Result<O, E>>(
    f: F,
    t0: T0,
    r1: Result<T1, redb::Error>,
    r: Result<O, E>,
) -> bool {
    match r1 {
        Err(e1) => converted(e1, r),
        Ok(t1) => f.ensures((t0, t1), r),
    }
}

/// Finishes a one-parameter operation once its parameter's resolution is
/// known: a failure is converted and returned without calling `f`.
pub fn complete1<T0, O, E, F>(f: F, r0: Result<T0, redb::Error>) -> (r: Result<O, E>) where
    F: FnOnce(T0) -> Result<O, E>,
    E: From<redb::Error>,
    requires
        r0 matches Ok(t0) ==> f.requires((t0,)),
    ensures
        completes1(f, r0, r),
{
    match r0 {
        Err(e) => Err(E::from(e)),
        Ok(t0) => f(t0),
    }
}

/// Finishes a two-parameter operation whose first parameter resolved to
/// `t0`, once the second's resolution is known: a failure is converted and
/// returned without calling `f`.
pub fn complete2<T0, T1, O, E, F>(f: F, t0: T0, r1: Result<T1, redb::Error>) -> (r: Result<O, E>) where
    F: FnOnce(T0, T1) -> Result<O, E>,
    E: From<redb::Error>,
    requires
        r1 matches Ok(t1) ==> f.requires((t0, t1)),
    ensures
        completes2(f, t0, r1, r),
{
    match r1 {
        Err(e) => Err(E::from(e)),
        Ok(t1) => f(t0, t1),
    }
}

} // verus!
