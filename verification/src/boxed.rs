//! Heap-indirection storage strategy: the payload lives behind its own
//! allocation, owned exclusively by the cell.
//!
//! Because the payload's address is independent of the cell's, the cell value
//! itself may be relocated freely — moved between bindings, pushed into a
//! container — without disturbing what is observed through [`Aliasable::get`].
//! The allocation is released exactly once, when the cell is dropped, after
//! the payload's own destruction logic has run.

use vstd::prelude::*;

verus! {

/// An aliasable value stored behind a single exclusively-owned allocation.
pub struct Aliasable<T>(Box<T>);

impl<T> View for Aliasable<T> {
    type V = T;

    closed spec fn view(&self) -> T {
        *self.0
    }
}

impl<T> Aliasable<T> {
    /// Create a new `Aliasable`, moving `data` into a fresh allocation.
    pub fn new(data: T) -> (r: Self)
        ensures
            r@ == data,
    {
        Aliasable(Box::new(data))
    }

    /// Get a shared reference to the value behind the cell's allocation.
    pub fn get(&self) -> (r: &T)
        ensures
            *r == self@,
    {
        &*self.0
    }

    /// An opaque, payload-independent label for diagnostics. It never touches
    /// the payload and exposes no address.
    pub fn debug_label(&self) -> (r: String)
        ensures
            r@ == "Aliasable"@,
    {
        String::from_str("Aliasable")
    }
}

impl<T: core::default::Default> core::default::Default for Aliasable<T> {
    /// Construct a cell wrapping the payload type's default value.
    fn default() -> (r: Self)
        ensures
            T::default.ensures((), r@),
    {
        Aliasable::new(T::default())
    }
}

/// Law: relocating the cell — moving it to a new place by value — does not
/// change the value observed through it.
pub fn relocate<T>(c: Aliasable<T>) -> (r: Aliasable<T>)
    ensures
        r@ == c@,
{
    c
}

} // verus!
