//! Laws that tie the combinators together, stated over the models that
//! their contracts use.
use vstd::prelude::*;

use crate::model::{
    as_option_false_of, as_option_of, as_result_false_of, as_result_of, ok_false_of,
    ok_false_with_outcome, ok_or_err_false_of, ok_or_err_false_with_outcome, ok_or_err_of,
    ok_or_err_with_outcome, some_false_of, some_of, some_with_false_outcome, some_with_outcome,
};

verus! {

/// `some(b, v)` is `Some(v)` exactly when `b` is `true`, and `None` otherwise.
pub proof fn lemma_some_present_iff_true<T>(b: bool, v: T)
    ensures
        (some_of(b, v) == Some(v)) <==> b,
        !b ==> some_of(b, v) is None,
{
}

/// Every `_false` operation of the Option and Result families is its
/// counterpart applied to the negated value: eager ones give the same
/// result, lazy ones allow the same outcomes.
pub proof fn lemma_false_is_negation<T, E, F: FnOnce() -> T, G: FnOnce() -> E>(
    b: bool,
    v: T,
    e: E,
    ok: F,
    err: G,
)
    ensures
        as_option_false_of(b) == as_option_of(!b),
        some_false_of(b, v) == some_of(!b, v),
        forall|r: Option<T>| #[trigger]
            some_with_false_outcome(b, ok, r) == some_with_outcome(!b, ok, r),
        as_result_false_of(b) == as_result_of(!b),
        ok_or_err_false_of(b, v, e) == ok_or_err_of(!b, v, e),
        forall|r: Result<T, E>| #[trigger]
            ok_or_err_false_with_outcome(b, ok, err, r) == ok_or_err_with_outcome(!b, ok, err, r),
{
}

/// The `ok_false` pair does not follow that rule: the eager `ok_false`
/// fails on `true` (it is `ok_or_err_false` with a unit success), while
/// every outcome of the lazy `ok_false_with` fails on `false` and succeeds
/// with `Ok(())` on `true`.
pub proof fn lemma_ok_false_polarities<E, G: FnOnce() -> E>(b: bool, e: E, err: G)
    ensures
        ok_false_of(b, e) == ok_or_err_false_of(b, (), e),
        ok_false_of(b, e) is Err <==> b,
        forall|r: Result<(), E>| #[trigger]
            ok_false_with_outcome(b, err, r) ==> (r is Err <==> !b),
        forall|r: Result<(), E>| #[trigger]
            ok_false_with_outcome(b, err, r) ==> (b ==> r == Ok::<(), E>(())),
{
}

} // verus!
