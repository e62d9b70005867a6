//! The combinator trait and its implementation for `bool`.
use vstd::prelude::*;

use crate::model::{
    as_option_false_of, as_option_of, as_result_false_of, as_result_of, map_outcome, ok_false_of,
    ok_false_with_outcome, ok_of, ok_or_err_false_of, ok_or_err_false_with_outcome, ok_or_err_of,
    ok_or_err_with_outcome, ok_with_outcome, some_false_of, some_of, some_with_false_outcome,
    some_with_outcome,
};

verus! {

/// A complete set of functional combinators on a truth value.
///
/// Each operation has a `_false` counterpart that acts as the operation on
/// the negated value (the `ok_false` pair keeps polarities of its own, see
/// there), and `_with` variants take thunks in place of values: only the
/// thunk of the selected branch may be called, and its precondition is asked
/// for on that branch alone.
pub trait BoolExt: View<V = bool> + Sized {
    /// `true` becomes `Some(())`, `false` becomes `None`.
    fn as_option(self) -> (r: Option<()>)
        ensures
            r == as_option_of(self@),
    ;

    /// `true` becomes `None`, `false` becomes `Some(())`.
    fn as_option_false(self) -> (r: Option<()>)
        ensures
            r == as_option_false_of(self@),
    ;

    /// `true` becomes `Some(some)`, `false` becomes `None`.
    fn some<T>(self, some: T) -> (r: Option<T>)
        ensures
            r == some_of(self@, some),
    ;

    /// `true` becomes `None`, `false` becomes `Some(some)`.
    fn some_false<T>(self, some: T) -> (r: Option<T>)
        ensures
            r == some_false_of(self@, some),
    ;

    /// `true` becomes `Some(some())`, `false` becomes `None` without calling
    /// `some`.
    fn some_with<F: FnOnce() -> T, T>(self, some: F) -> (r: Option<T>)
        requires
            self@ ==> call_requires(some, ()),
        ensures
            some_with_outcome(self@, some, r),
    ;

    /// `true` becomes `None` without calling `some`, `false` becomes
    /// `Some(some())`.
    fn some_with_false<F: FnOnce() -> T, T>(self, some: F) -> (r: Option<T>)
        requires
            !self@ ==> call_requires(some, ()),
        ensures
            some_with_false_outcome(self@, some, r),
    ;

    /// `true` becomes `Ok(())`, `false` becomes `Err(())`.
    fn as_result(self) -> (r: Result<(), ()>)
        ensures
            r == as_result_of(self@),
    ;

    /// `true` becomes `Err(())`, `false` becomes `Ok(())`.
    fn as_result_false(self) -> (r: Result<(), ()>)
        ensures
            r == as_result_false_of(self@),
    ;

    /// `true` becomes `Ok(ok)`, `false` becomes `Err(())`.
    fn ok<T>(self, ok: T) -> (r: Result<T, ()>)
        ensures
            r == ok_of(self@, ok),
    ;

    /// `true` becomes `Ok(ok())`, `false` becomes `Err(())` without calling
    /// `ok`.
    fn ok_with<F: FnOnce() -> T, T>(self, ok: F) -> (r: Result<T, ()>)
        requires
            self@ ==> call_requires(ok, ()),
        ensures
            ok_with_outcome(self@, ok, r),
    ;

    /// `true` becomes `Err(err)`, `false` becomes `Ok(())`.
    ///
    /// Note the polarity: here `true` is the failing branch, while
    /// `ok_false_with` fails on `false`.
    fn ok_false<E>(self, err: E) -> (r: Result<(), E>)
        ensures
            r == ok_false_of(self@, err),
    ;

    /// `true` becomes `Ok(())` without calling `err`, `false` becomes
    /// `Err(err())`.
    ///
    /// Note the polarity: here `false` is the failing branch, while the eager
    /// `ok_false` fails on `true`.
    fn ok_false_with<F: FnOnce() -> E, E>(self, err: F) -> (r: Result<(), E>)
        requires
            !self@ ==> call_requires(err, ()),
        ensures
            ok_false_with_outcome(self@, err, r),
    ;

    /// `true` becomes `Ok(ok)`, `false` becomes `Err(err)`.
    fn ok_or_err<T, E>(self, ok: T, err: E) -> (r: Result<T, E>)
        ensures
            r == ok_or_err_of(self@, ok, err),
    ;

    /// `true` becomes `Ok(ok())`, `false` becomes `Err(err())`; only the
    /// selected thunk is called.
    fn ok_or_err_with<F: FnOnce() -> T, G: FnOnce() -> E, T, E>(
        self,
        ok: F,
        err: G,
    ) -> (r: Result<T, E>)
        requires
            self@ ==> call_requires(ok, ()),
            !self@ ==> call_requires(err, ()),
        ensures
            ok_or_err_with_outcome(self@, ok, err, r),
    ;

    /// `true` becomes `Err(err)`, `false` becomes `Ok(ok)`.
    fn ok_or_err_false<T, E>(self, ok: T, err: E) -> (r: Result<T, E>)
        ensures
            r == ok_or_err_false_of(self@, ok, err),
    ;

    /// `true` becomes `Err(err())`, `false` becomes `Ok(ok())`; only the
    /// selected thunk is called.
    fn ok_or_err_false_with<F: FnOnce() -> T, G: FnOnce() -> E, T, E>(
        self,
        ok: F,
        err: G,
    ) -> (r: Result<T, E>)
        requires
            !self@ ==> call_requires(ok, ()),
            self@ ==> call_requires(err, ()),
        ensures
            ok_or_err_false_with_outcome(self@, ok, err, r),
    ;

    /// `true` gives `on_true()`, `false` gives `on_false()`; only the
    /// selected thunk is called.
    fn map<F: FnOnce() -> T, G: FnOnce() -> T, T>(self, on_true: F, on_false: G) -> (r: T)
        requires
            self@ ==> call_requires(on_true, ()),
            !self@ ==> call_requires(on_false, ()),
        ensures
            map_outcome(self@, on_true, on_false, r),
    ;

    /// Runs `action` once when the value is `true`, and returns the value
    /// unchanged.
    fn do_true<F: FnOnce()>(self, action: F) -> (r: bool)
        requires
            self@ ==> call_requires(action, ()),
        ensures
            r == self@,
            self@ ==> call_ensures(action, (), ()),
    ;

    /// Runs `action` once when the value is `false`, and returns the value
    /// unchanged.
    fn do_false<F: FnOnce()>(self, action: F) -> (r: bool)
        requires
            !self@ ==> call_requires(action, ()),
        ensures
            r == self@,
            !self@ ==> call_ensures(action, (), ()),
    ;

    /// Asserts that the value is `true`. An unverified caller that calls it on
    /// `false` panics with `msg`.
    fn expect(self, msg: &str)
        requires
            self@,
    ;

    /// Asserts that the value is `false`. An unverified caller that calls it on
    /// `true` panics with `msg`.
    fn expect_false(self, msg: &str)
        requires
            !self@,
    ;
}

/// Each method restates its contract over the `bool` itself, so that calls on
/// a known `bool` read without the view.
impl BoolExt for bool {
    #[inline]
    fn as_option(self) -> (r: Option<()>)
        ensures
            r == as_option_of(self),
    {
        if self { Some(()) } else { None }
    }

    #[inline]
    fn as_option_false(self) -> (r: Option<()>)
        ensures
            r == as_option_false_of(self),
    {
        (!self).as_option()
    }

    #[inline]
    fn some<T>(self, some: T) -> (r: Option<T>)
        ensures
            r == some_of(self, some),
    {
        if self { Some(some) } else { None }
    }

    #[inline]
    fn some_false<T>(self, some: T) -> (r: Option<T>)
        ensures
            r == some_false_of(self, some),
    {
        (!self).some(some)
    }

    #[inline]
    fn some_with<F: FnOnce() -> T, T>(self, some: F) -> (r: Option<T>)
        ensures
            some_with_outcome(self, some, r),
    {
        if self { Some(some()) } else { None }
    }

    #[inline]
    fn some_with_false<F: FnOnce() -> T, T>(self, some: F) -> (r: Option<T>)
        ensures
            some_with_false_outcome(self, some, r),
    {
        (!self).some_with(some)
    }

    #[inline]
    fn as_result(self) -> (r: Result<(), ()>)
        ensures
            r == as_result_of(self),
    {
        if self { Ok(()) } else { Err(()) }
    }

    #[inline]
    fn as_result_false(self) -> (r: Result<(), ()>)
        ensures
            r == as_result_false_of(self),
    {
        (!self).as_result()
    }

    #[inline]
    fn ok<T>(self, ok: T) -> (r: Result<T, ()>)
        ensures
            r == ok_of(self, ok),
    {
        if self { Ok(ok) } else { Err(()) }
    }

    #[inline]
    fn ok_with<F: FnOnce() -> T, T>(self, ok: F) -> (r: Result<T, ()>)
        ensures
            ok_with_outcome(self, ok, r),
    {
        if self { Ok(ok()) } else { Err(()) }
    }

    #[inline]
    fn ok_false<E>(self, err: E) -> (r: Result<(), E>)
        ensures
            r == ok_false_of(self, err),
    {
        if self { Err(err) } else { Ok(()) }
    }

    #[inline]
    fn ok_false_with<F: FnOnce() -> E, E>(self, err: F) -> (r: Result<(), E>)
        ensures
            ok_false_with_outcome(self, err, r),
    {
        if self { Ok(()) } else { Err(err()) }
    }

    #[inline]
    fn ok_or_err<T, E>(self, ok: T, err: E) -> (r: Result<T, E>)
        ensures
            r == ok_or_err_of(self, ok, err),
    {
        if self { Ok(ok) } else { Err(err) }
    }

    #[inline]
    fn ok_or_err_with<F: FnOnce() -> T, G: FnOnce() -> E, T, E>(
        self,
        ok: F,
        err: G,
    ) -> (r: Result<T, E>)
        ensures
            ok_or_err_with_outcome(self, ok, err, r),
    {
        if self { Ok(ok()) } else { Err(err()) }
    }

    #[inline]
    fn ok_or_err_false<T, E>(self, ok: T, err: E) -> (r: Result<T, E>)
        ensures
            r == ok_or_err_false_of(self, ok, err),
    {
        (!self).ok_or_err(ok, err)
    }

    #[inline]
    fn ok_or_err_false_with<F: FnOnce() -> T, G: FnOnce() -> E, T, E>(
        self,
        ok: F,
        err: G,
    ) -> (r: Result<T, E>)
        ensures
            ok_or_err_false_with_outcome(self, ok, err, r),
    {
        (!self).ok_or_err_with(ok, err)
    }

    #[inline]
    fn map<F: FnOnce() -> T, G: FnOnce() -> T, T>(self, on_true: F, on_false: G) -> (r: T)
        ensures
            map_outcome(self, on_true, on_false, r),
    {
        if self { on_true() } else { on_false() }
    }

    #[inline]
    fn do_true<F: FnOnce()>(self, action: F) -> (r: bool)
        ensures
            r == self,
            self ==> call_ensures(action, (), ()),
    {
        if self {
            action();
        }
        self
    }

    #[inline]
    fn do_false<F: FnOnce()>(self, action: F) -> (r: bool)
        ensures
            r == self,
            !self ==> call_ensures(action, (), ()),
    {
        !(!self).do_true(action)
    }

    #[inline]
    fn expect(self, msg: &str) {
        let checked: Option<()> = if self { Some(()) } else { None };
        checked.expect(msg);
    }

    #[inline]
    fn expect_false(self, msg: &str) {
        (!self).expect(msg)
    }
}

} // verus!
