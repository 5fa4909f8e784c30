//! The CSS-keyword-aware value slot a style property wraps its concrete
//! value in.

use vstd::prelude::*;

verus! {

/// A property value: exactly one of the CSS-wide keyword states, or an
/// exact concrete value.
#[derive(Debug, Copy, Clone, PartialEq, Eq, Hash, PartialOrd, Ord)]
pub enum Value<T> {
    Auto,
    NoValue,
    Initial,
    Inherit,
    Exact(T),
}

impl<T> Value<T> {
    /// Transforms a `Value<T>` into a `Value<U>` by applying a mapping
    /// function to the exact payload, passing the keyword states through
    /// unchanged.
    pub fn map_property<U, F: Fn(T) -> U>(self, map_fn: F) -> (r: Value<U>)
        requires
            forall|t: T| self == Value::Exact(t) ==> call_requires(map_fn, (t,)),
        ensures
            match self {
                Value::Exact(t) => r matches Value::Exact(u) && call_ensures(map_fn, (t,), u),
                Value::Auto => r is Auto,
                Value::NoValue => r is NoValue,
                Value::Initial => r is Initial,
                Value::Inherit => r is Inherit,
            },
    {
        match self {
            Value::Exact(c) => Value::Exact(map_fn(c)),
            Value::Auto => Value::Auto,
            Value::NoValue => Value::NoValue,
            Value::Initial => Value::Initial,
            Value::Inherit => Value::Inherit,
        }
    }

    /// The exact payload, by reference, if there is one.
    pub fn as_property(&self) -> (r: Option<&T>)
        ensures
            match self {
                Value::Exact(c) => r matches Some(p) && p == c,
                _ => r is None,
            },
    {
        match self {
            Value::Exact(c) => Some(c),
            _ => None,
        }
    }

    /// The exact payload, if there is one.
    pub fn to_property(self) -> (r: Option<T>)
        ensures
            match self {
                Value::Exact(c) => r == Some(c),
                _ => r is None,
            },
    {
        match self {
            Value::Exact(c) => Some(c),
            _ => None,
        }
    }

    pub fn is_auto(&self) -> (r: bool)
        ensures
            r == (self is Auto),
    {
        match self {
            Value::Auto => true,
            _ => false,
        }
    }

    pub fn is_none(&self) -> (r: bool)
        ensures
            r == (self is NoValue),
    {
        match self {
            Value::NoValue => true,
            _ => false,
        }
    }

    pub fn is_initial(&self) -> (r: bool)
        ensures
            r == (self is Initial),
    {
        match self {
            Value::Initial => true,
            _ => false,
        }
    }

    pub fn is_inherit(&self) -> (r: bool)
        ensures
            r == (self is Inherit),
    {
        match self {
            Value::Inherit => true,
            _ => false,
        }
    }
}

impl<T: Default> Value<T> {
    /// Resolves the slot to a concrete value where one is owed now:
    /// `Auto` and `Initial` resolve to the payload type's default, `Exact`
    /// to its payload, while `None` and `Inherit` stay absent, deferring
    /// to an external cascade or inheritance step.
    pub fn to_property_or_default(self) -> (r: Option<T>)
        ensures
            match self {
                Value::Auto | Value::Initial => r matches Some(d) && call_ensures(
                    T::default,
                    (),
                    d,
                ),
                Value::Exact(c) => r == Some(c),
                Value::NoValue | Value::Inherit => r is None,
            },
    {
        match self {
            Value::Auto | Value::Initial => Some(T::default()),
            Value::Exact(c) => Some(c),
            Value::NoValue | Value::Inherit => None,
        }
    }
}

impl<T: Default> Default for Value<T> {
    /// Default construction yields `Exact` of the payload type's default,
    /// not `Initial`: no unresolved-keyword pass is implied by construction.
    fn default() -> (r: Self)
        ensures
            r matches Value::Exact(d) && call_ensures(T::default, (), d),
    {
        Value::Exact(T::default())
    }
}

impl<T> From<T> for Value<T> {
    /// Wraps a concrete value as `Exact`.
    fn from(c: T) -> (r: Self) {
        Value::Exact(c)
    }
}

impl<T> vstd::std_specs::convert::FromSpecImpl<T> for Value<T> {
    open spec fn obeys_from_spec() -> bool {
        true
    }

    open spec fn from_spec(c: T) -> Self {
        Value::Exact(c)
    }
}

} // verus!
