//! `Option`- and `Result`-style combinators on `bool`.
//!
//! In general `true` / `false` map to `Some(_)` / `None` and to `Ok(_)` / `Err(_)`.
//! The `*_from` variants take a closure that is called only on the branch that
//! needs its value, and at most once.
use vstd::prelude::*;

verus! {

/// Combinator-style methods for `bool` values.
pub trait Boolinator: Sized {
    /// The truth value that the combinators branch on.
    spec fn truth(self) -> bool;

    /// Converts this value into a logically equivalent `Some(())` or `None`.
    fn as_option(self) -> (r: Option<()>)
        ensures
            r is Some <==> self.truth(),
            r == (if self.truth() { Some(()) } else { None::<()> }),
    ;

    /// If this value is `true`, returns `Some(some)`; `None` otherwise.
    fn as_some<T>(self, some: T) -> (r: Option<T>)
        ensures
            r == (if self.truth() { Some(some) } else { None::<T> }),
    ;

    /// If this value is `true`, returns `Some(some())`; `None` otherwise.
    ///
    /// `some` is called only when this value is `true`: it need not be
    /// callable otherwise.
    fn as_some_from<T, F>(self, some: F) -> (r: Option<T>) where F: FnOnce() -> T
        requires
            self.truth() ==> some.requires(()),
        ensures
            r is Some <==> self.truth(),
            r matches Some(v) ==> some.ensures((), v),
    ;

    /// If this value is `true`, returns `opt`; `None` otherwise.
    ///
    /// When this value is `false`, `opt` is dropped whatever it holds.
    fn and_option<T>(self, opt: Option<T>) -> (r: Option<T>)
        ensures
            r == (if self.truth() { opt } else { None::<T> }),
    ;

    /// If this value is `true`, returns `opt()`; `None` otherwise.
    ///
    /// `opt` is called only when this value is `true`: it need not be
    /// callable otherwise.
    fn and_option_from<T, F>(self, opt: F) -> (r: Option<T>) where F: FnOnce() -> Option<T>
        requires
            self.truth() ==> opt.requires(()),
        ensures
            self.truth() ==> opt.ensures((), r),
            !self.truth() ==> r is None,
    ;

    /// If this value is `true`, returns `Ok(ok)`; `Err(err)` otherwise.
    fn as_result<T, E>(self, ok: T, err: E) -> (r: Result<T, E>)
        ensures
            r == (if self.truth() { Ok::<T, E>(ok) } else { Err::<T, E>(err) }),
    ;

    /// If this value is `true`, returns `Ok(ok())`; `Err(err())` otherwise.
    ///
    /// Exactly one of the two closures is called: `ok` when this value is
    /// `true`, `err` when it is `false`. The other need not be callable.
    fn as_result_from<T, E, F, G>(self, ok: F, err: G) -> (r: Result<T, E>) where
        F: FnOnce() -> T,
        G: FnOnce() -> E,
        requires
            self.truth() ==> ok.requires(()),
            !self.truth() ==> err.requires(()),
        ensures
            r is Ok <==> self.truth(),
            r matches Ok(v) ==> ok.ensures((), v),
            r matches Err(e) ==> err.ensures((), e),
    ;

    /// Asserts that this value is `true`, and otherwise does nothing.
    ///
    /// Calling it on `false` is a fatal error carrying `msg`; here that call
    /// is ruled out by the precondition, so a verified caller never makes it.
    fn expect(self, msg: &str)
        requires
            self.truth(),
    ;
}

impl Boolinator for bool {
    open spec fn truth(self) -> bool {
        self
    }

    fn as_option(self) -> (r: Option<()>)
        ensures
            r == (if self { Some(()) } else { None::<()> }),
    {
        if self {
            Some(())
        } else {
            None
        }
    }

    fn as_some<T>(self, some: T) -> (r: Option<T>)
        ensures
            r == (if self { Some(some) } else { None::<T> }),
    {
        if self {
            Some(some)
        } else {
            None
        }
    }

    fn as_some_from<T, F>(self, some: F) -> (r: Option<T>) where F: FnOnce() -> T
        ensures
            r is Some <==> self,
            r matches Some(v) ==> some.ensures((), v),
    {
        if self {
            Some(some())
        } else {
            None
        }
    }

    fn and_option<T>(self, opt: Option<T>) -> (r: Option<T>)
        ensures
            r == (if self { opt } else { None::<T> }),
    {
        if self {
            opt
        } else {
            None
        }
    }

    fn and_option_from<T, F>(self, opt: F) -> (r: Option<T>) where F: FnOnce() -> Option<T>
        ensures
            self ==> opt.ensures((), r),
            !self ==> r is None,
    {
        if self {
            opt()
        } else {
            None
        }
    }

    fn as_result<T, E>(self, ok: T, err: E) -> (r: Result<T, E>)
        ensures
            r == (if self { Ok::<T, E>(ok) } else { Err::<T, E>(err) }),
    {
        if self {
            Ok(ok)
        } else {
            Err(err)
        }
    }

    fn as_result_from<T, E, F, G>(self, ok: F, err: G) -> (r: Result<T, E>) where
        F: FnOnce() -> T,
        G: FnOnce() -> E,
        ensures
            r is Ok <==> self,
            r matches Ok(v) ==> ok.ensures((), v),
            r matches Err(e) ==> err.ensures((), e),
    {
        if self {
            Ok(ok())
        } else {
            Err(err())
        }
    }

    fn expect(self, msg: &str) {
    }
}

} // verus!
