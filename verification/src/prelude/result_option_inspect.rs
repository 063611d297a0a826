//! Looking at the content of a `Result` or an `Option` in the middle of a call
//! chain, without consuming or changing it.
use vstd::prelude::*;

verus! {

/// Runs a closure on the success or on the error value of a `Result`, and
/// hands the `Result` back unchanged.
pub trait ResultInspector<T, E>: Sized {
    /// The `Result` that this value holds or refers to.
    spec fn inspected(&self) -> Result<T, E>;

    /// Calls `inspector_function` on the success value, if there is one.
    fn inspect<F: FnOnce(&T)>(self, inspector_function: F) -> (r: Self)
        requires
            self.inspected() is Ok ==> call_requires(inspector_function, (&self.inspected()->Ok_0,)),
        ensures
            r == self,
            self.inspected() is Ok ==> call_ensures(inspector_function, (&self.inspected()->Ok_0,), ()),
    ;

    /// Calls `inspector_function` on the error value, if there is one.
    fn inspect_err<F: FnOnce(&E)>(self, inspector_function: F) -> (r: Self)
        requires
            self.inspected() is Err ==> call_requires(inspector_function, (&self.inspected()->Err_0,)),
        ensures
            r == self,
            self.inspected() is Err ==> call_ensures(inspector_function, (&self.inspected()->Err_0,), ()),
    ;
}

impl<T, E> ResultInspector<T, E> for Result<T, E> {
    open spec fn inspected(&self) -> Result<T, E> {
        *self
    }

    fn inspect<F: FnOnce(&T)>(self, inspector_function: F) -> (r: Self) {
        match &self {
            Ok(value) => inspector_function(value),
            Err(_) => (),
        }
        self
    }

    fn inspect_err<F: FnOnce(&E)>(self, inspector_function: F) -> (r: Self) {
        match &self {
            Ok(_) => (),
            Err(e) => inspector_function(e),
        }
        self
    }
}

impl<'a, T, E> ResultInspector<T, E> for &'a Result<T, E> {
    open spec fn inspected(&self) -> Result<T, E> {
        **self
    }

    fn inspect<F: FnOnce(&T)>(self, inspector_function: F) -> (r: Self) {
        match self {
            Ok(value) => inspector_function(value),
            Err(_) => (),
        }
        self
    }

    fn inspect_err<F: FnOnce(&E)>(self, inspector_function: F) -> (r: Self) {
        match self {
            Ok(_) => (),
            Err(e) => inspector_function(e),
        }
        self
    }
}

/// Runs a closure on the value of an `Option`, or when it is empty, and hands
/// the `Option` back unchanged.
pub trait OptionInspector<T>: Sized {
    /// The `Option` that this value holds or refers to.
    spec fn inspected(&self) -> Option<T>;

    /// Calls `inspector_function` on the value, if there is one.
    fn inspect<F: FnOnce(&T)>(self, inspector_function: F) -> (r: Self)
        requires
            self.inspected() is Some ==> call_requires(inspector_function, (&self.inspected()->0,)),
        ensures
            r == self,
            self.inspected() is Some ==> call_ensures(inspector_function, (&self.inspected()->0,), ()),
    ;

    /// Calls `inspector_function` when there is no value.
    fn inspect_none<F: FnOnce()>(self, inspector_function: F) -> (r: Self)
        requires
            self.inspected() is None ==> call_requires(inspector_function, ()),
        ensures
            r == self,
            self.inspected() is None ==> call_ensures(inspector_function, (), ()),
    ;
}

impl<T> OptionInspector<T> for Option<T> {
    open spec fn inspected(&self) -> Option<T> {
        *self
    }

    fn inspect<F: FnOnce(&T)>(self, inspector_function: F) -> (r: Self) {
        match &self {
            Some(value) => inspector_function(value),
            None => (),
        }
        self
    }

    fn inspect_none<F: FnOnce()>(self, inspector_function: F) -> (r: Self) {
        match &self {
            Some(_) => (),
            None => inspector_function(),
        }
        self
    }
}

impl<'a, T> OptionInspector<T> for &'a Option<T> {
    open spec fn inspected(&self) -> Option<T> {
        **self
    }

    fn inspect<F: FnOnce(&T)>(self, inspector_function: F) -> (r: Self) {
        match self {
            Some(value) => inspector_function(value),
            None => (),
        }
        self
    }

    fn inspect_none<F: FnOnce()>(self, inspector_function: F) -> (r: Self) {
        match self {
            Some(_) => (),
            None => inspector_function(),
        }
        self
    }
}

} // verus!
