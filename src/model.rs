//! What each combinator returns, as spec functions of the truth value and
//! of the caller's arguments.
//!
//! An eager combinator is a function of its arguments. A lazy one returns
//! whatever the selected thunk returns, so its model is a relation between
//! the arguments and a possible outcome `r`.
use vstd::prelude::*;

verus! {

// Option adapters
/// `true` gives `Some(())`, `false` gives `None`.
pub open spec fn as_option_of(b: bool) -> Option<()> {
    if b { Some(()) } else { None }
}

/// `true` gives `None`, `false` gives `Some(())`.
pub open spec fn as_option_false_of(b: bool) -> Option<()> {
    if b { None } else { Some(()) }
}

/// `true` gives `Some(v)`, `false` gives `None`.
pub open spec fn some_of<T>(b: bool, v: T) -> Option<T> {
    if b { Some(v) } else { None }
}

/// `true` gives `None`, `false` gives `Some(v)`.
pub open spec fn some_false_of<T>(b: bool, v: T) -> Option<T> {
    if b { None } else { Some(v) }
}

/// `r` is a possible outcome of `some_with`: on `true`, `Some` of a value
/// that `f` may return; on `false`, `None`.
pub open spec fn some_with_outcome<T, F: FnOnce() -> T>(b: bool, f: F, r: Option<T>) -> bool {
    if b {
        r is Some && call_ensures(f, (), r->0)
    } else {
        r is None
    }
}

/// `r` is a possible outcome of `some_with_false`: on `true`, `None`; on
/// `false`, `Some` of a value that `f` may return.
pub open spec fn some_with_false_outcome<T, F: FnOnce() -> T>(
    b: bool,
    f: F,
    r: Option<T>,
) -> bool {
    if b {
        r is None
    } else {
        r is Some && call_ensures(f, (), r->0)
    }
}

// Result adapters
/// `true` gives `Ok(())`, `false` gives `Err(())`.
pub open spec fn as_result_of(b: bool) -> Result<(), ()> {
    if b { Ok(()) } else { Err(()) }
}

/// `true` gives `Err(())`, `false` gives `Ok(())`.
pub open spec fn as_result_false_of(b: bool) -> Result<(), ()> {
    if b { Err(()) } else { Ok(()) }
}

/// `true` gives `Ok(v)`, `false` gives `Err(())`.
pub open spec fn ok_of<T>(b: bool, v: T) -> Result<T, ()> {
    if b { Ok(v) } else { Err(()) }
}

/// `r` is a possible outcome of `ok_with`: on `true`, `Ok` of a value that
/// `f` may return; on `false`, `Err(())`.
pub open spec fn ok_with_outcome<T, F: FnOnce() -> T>(b: bool, f: F, r: Result<T, ()>) -> bool {
    if b {
        r is Ok && call_ensures(f, (), r->Ok_0)
    } else {
        r == Err::<T, ()>(())
    }
}

/// `true` gives `Err(e)`, `false` gives `Ok(())`.
pub open spec fn ok_false_of<E>(b: bool, e: E) -> Result<(), E> {
    if b { Err(e) } else { Ok(()) }
}

/// `r` is a possible outcome of `ok_false_with`: on `true`, `Ok(())`; on
/// `false`, `Err` of a value that `f` may return.
pub open spec fn ok_false_with_outcome<E, F: FnOnce() -> E>(
    b: bool,
    f: F,
    r: Result<(), E>,
) -> bool {
    if b {
        r == Ok::<(), E>(())
    } else {
        r is Err && call_ensures(f, (), r->Err_0)
    }
}

/// `true` gives `Ok(ok)`, `false` gives `Err(err)`.
pub open spec fn ok_or_err_of<T, E>(b: bool, ok: T, err: E) -> Result<T, E> {
    if b { Ok(ok) } else { Err(err) }
}

/// `true` gives `Err(err)`, `false` gives `Ok(ok)`.
pub open spec fn ok_or_err_false_of<T, E>(b: bool, ok: T, err: E) -> Result<T, E> {
    if b { Err(err) } else { Ok(ok) }
}

/// `r` is a possible outcome of `ok_or_err_with`: on `true`, `Ok` of a
/// value that `ok` may return; on `false`, `Err` of one that `err` may return.
pub open spec fn ok_or_err_with_outcome<T, E, F: FnOnce() -> T, G: FnOnce() -> E>(
    b: bool,
    ok: F,
    err: G,
    r: Result<T, E>,
) -> bool {
    if b {
        r is Ok && call_ensures(ok, (), r->Ok_0)
    } else {
        r is Err && call_ensures(err, (), r->Err_0)
    }
}

/// `r` is a possible outcome of `ok_or_err_false_with`: on `true`, `Err` of
/// a value that `err` may return; on `false`, `Ok` of one that `ok` may return.
pub open spec fn ok_or_err_false_with_outcome<T, E, F: FnOnce() -> T, G: FnOnce() -> E>(
    b: bool,
    ok: F,
    err: G,
    r: Result<T, E>,
) -> bool {
    if b {
        r is Err && call_ensures(err, (), r->Err_0)
    } else {
        r is Ok && call_ensures(ok, (), r->Ok_0)
    }
}

// Value mapping
/// `r` is a possible outcome of `map`: a value that `on_true` may return
/// when `b` holds, one that `on_false` may return otherwise.
pub open spec fn map_outcome<T, F: FnOnce() -> T, G: FnOnce() -> T>(
    b: bool,
    on_true: F,
    on_false: G,
    r: T,
) -> bool {
    if b {
        call_ensures(on_true, (), r)
    } else {
        call_ensures(on_false, (), r)
    }
}

} // verus!
