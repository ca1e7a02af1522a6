//! The tri-state per-field instruction: keep a field, overwrite it with a
//! value, or remove it outright.

use vstd::prelude::*;

verus! {

/// What to do with one named field of the record.
#[derive(Debug, Clone, PartialEq, Eq)]
pub enum TagAction<T> {
    /// Overwrite the field with the given value, similar to `Option::Some(T)`.
    Change(T),
    /// Change nothing, similar to `Option::None`.
    Keep,
    /// Remove the field.
    Remove,
}

impl<T> TagAction<T> {
    /// Applies `f` to the payload of `Change` while leaving `Keep` and
    /// `Remove` untouched: the variant is always preserved.
    pub fn map<U, F: FnOnce(T) -> U>(self, f: F) -> (r: TagAction<U>)
        requires
            self matches TagAction::Change(v) ==> call_requires(f, (v,)),
        ensures
            self is Keep ==> r is Keep,
            self is Remove ==> r is Remove,
            self matches TagAction::Change(v) ==> (r matches TagAction::Change(u)
                && call_ensures(f, (v,), u)),
    {
        match self {
            TagAction::Change(v) => TagAction::Change(f(v)),
            TagAction::Keep => TagAction::Keep,
            TagAction::Remove => TagAction::Remove,
        }
    }
}

impl<T> Default for TagAction<T> {
    /// The default action changes nothing.
    fn default() -> (r: Self)
        ensures
            r is Keep,
    {
        TagAction::Keep
    }
}

impl<T> From<Option<T>> for TagAction<T> {
    /// An absent value keeps the field; a present value overwrites it.
    fn from(opt: Option<T>) -> (r: Self) {
        match opt {
            Option::None => TagAction::Keep,
            Option::Some(value) => TagAction::Change(value),
        }
    }
}

impl<T> vstd::std_specs::convert::FromSpecImpl<Option<T>> for TagAction<T> {
    open spec fn obeys_from_spec() -> bool {
        true
    }

    open spec fn from_spec(opt: Option<T>) -> Self {
        match opt {
            Option::None => TagAction::Keep,
            Option::Some(value) => TagAction::Change(value),
        }
    }
}

impl<T> From<TagAction<T>> for Option<T> {
    /// Forgets the Keep/Remove distinction: only a `Change` carries a value.
    fn from(action: TagAction<T>) -> (r: Self) {
        match action {
            TagAction::Change(value) => Option::Some(value),
            TagAction::Keep => Option::None,
            TagAction::Remove => Option::None,
        }
    }
}

impl<T> vstd::std_specs::convert::FromSpecImpl<TagAction<T>> for Option<T> {
    open spec fn obeys_from_spec() -> bool {
        true
    }

    open spec fn from_spec(action: TagAction<T>) -> Self {
        match action {
            TagAction::Change(value) => Option::Some(value),
            TagAction::Keep => Option::None,
            TagAction::Remove => Option::None,
        }
    }
}

} // verus!
