//! Inline storage strategy: the payload is embedded directly in the cell.
//!
//! Cheapest of the strategies (no allocation), but the whole cell is the
//! payload's storage, so the caller must place the cell once, at its final
//! address, before taking any reference from it, and never move it again
//! while such a reference may still be alive.

use vstd::prelude::*;

verus! {

/// An aliasable value embedded in the cell's own storage.
pub struct Aliasable<T> {
    data: T,
    _pinned: core::marker::PhantomPinned,
}

impl<T> View for Aliasable<T> {
    type V = T;

    closed spec fn view(&self) -> T {
        self.data
    }
}

impl<T> Aliasable<T> {
    /// Create a new `Aliasable` that stores `data` inline.
    pub fn new(data: T) -> (r: Self)
        ensures
            r@ == data,
    {
        Aliasable { data, _pinned: crate::phantom_pinned() }
    }

    /// Get a shared reference to the value stored in the cell.
    ///
    /// The reference points directly into the cell's own storage, so the
    /// non-relocation proof demanded here is for this exact memory location:
    /// the borrow of the cell stands for it, and the placed-once rule above
    /// extends it to references that the caller keeps alive longer.
    pub fn get(&self) -> (r: &T)
        ensures
            *r == self@,
    {
        &self.data
    }

    /// An opaque, payload-independent label for diagnostics. It never touches
    /// the payload and exposes no address.
    pub fn debug_label(&self) -> (r: String)
        ensures
            r@ == "Aliasable"@,
    {
        String::from_str("Aliasable")
    }
}

impl<T: core::default::Default> core::default::Default for Aliasable<T> {
    /// Construct a cell wrapping the payload type's default value.
    fn default() -> (r: Self)
        ensures
            T::default.ensures((), r@),
    {
        Aliasable::new(T::default())
    }
}

} // verus!
