//! A value that is set once, early, and read many times afterwards.

use vstd::prelude::*;

verus! {

/// A slot that takes its value from the first `init` and keeps it: later
/// calls of `init` leave it unchanged. Reading it before it holds a value
/// is ruled out by the contract of `get`.
pub struct UnwrapOnceLock<T> {
    slot: Option<T>,
}

/// The content of a slot after `init(val)`, given its content before:
/// the first value given wins.
pub open spec fn after_init<T>(before: Option<T>, val: T) -> Option<T> {
    match before {
        Some(v) => Some(v),
        None => Some(val),
    }
}

impl<T> UnwrapOnceLock<T> {
    /// What the slot holds, if anything.
    pub closed spec fn value(&self) -> Option<T> {
        self.slot
    }

    /// An empty slot.
    pub fn new() -> (l: UnwrapOnceLock<T>)
        ensures
            l.value() is None,
    {
        UnwrapOnceLock { slot: None }
    }

    /// Stores `val` if the slot is still empty; otherwise `val` is dropped
    /// and the slot keeps its value.
    pub fn init(&mut self, val: T)
        ensures
            final(self).value() == after_init(old(self).value(), val),
    {
        if self.slot.is_none() {
            self.slot = Some(val);
        }
    }

    /// Whether the slot holds a value.
    pub fn is_initialized(&self) -> (b: bool)
        ensures
            b == self.value() is Some,
    {
        self.slot.is_some()
    }

    /// The value of a slot that has been initialized.
    pub fn get(&self) -> (v: &T)
        requires
            self.value() is Some,
        ensures
            *v == self.value()->0,
    {
        self.slot.as_ref().unwrap()
    }

    /// The value of the slot, or `None` while it is empty.
    pub fn try_get(&self) -> (v: Option<&T>)
        ensures
            match self.value() {
                Some(x) => v == Some(&x),
                None => v is None,
            },
    {
        self.slot.as_ref()
    }
}

/// The first `init` decides the value: a second `init` changes nothing.
pub proof fn lemma_first_init_wins<T>(before: Option<T>, a: T, b: T)
    ensures
        after_init(after_init(before, a), b) == after_init(before, a),
        after_init(after_init(None, a), b) == Some(a),
{
}

/// After `init(val)` the slot holds a value, and it is `val` exactly when
/// the slot was empty before.
pub proof fn lemma_init_then_get<T>(before: Option<T>, val: T)
    ensures
        after_init(before, val) is Some,
        before is None ==> after_init(before, val) == Some(val),
        before is Some ==> after_init(before, val) == before,
{
}

} // verus!
