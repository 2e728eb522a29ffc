//! Aliasable cells: wrapper types for payloads that are observed through
//! more than one path at once, as happens inside self-referential structures.
//!
//! An ordinary exclusive reference promises the compiler that nobody else can
//! see the referenced memory. A structure that stores a value *and* keeps a
//! reference to that same value breaks this promise, and the optimizer may
//! then fold away reads that should have observed an aliased write. The types
//! here mark one slot of a structure as aliasable: the slot hands out shared
//! references only, never an exclusive one, and the payload may be mutated
//! through an alias only via an interior-mutability container that the caller
//! supplies as the payload itself.
//!
//! Two storage strategies are offered:
//!
//! - [`boxed::Aliasable`] keeps the payload behind its own heap allocation,
//!   so the cell value may be relocated freely while the payload stays put.
//! - [`inline::Aliasable`] embeds the payload in the cell itself; the caller
//!   must place the cell once and never move it again while references
//!   derived from it are alive.
//!
//! The crate-root [`Aliasable`] is the general-purpose inline cell with a
//! consuming unwrap; it carries a [`core::marker::PhantomPinned`] marker so
//! that the enclosing structure can be pinned and thereby excluded from the
//! compiler's no-alias inference.
//!
//! Known boundary: when a cell is itself stored by value behind another
//! single-owner container that the compiler also treats as non-aliased (for
//! example a plain heap box around the cell), that outer layer can still be
//! optimized under the exclusive-access assumption. The cells make no claim
//! against that outer layer; callers must pass such containers by reference.

use vstd::prelude::*;

pub mod boxed;
pub mod inline;

verus! {

#[verifier::external_type_specification]
#[verifier::external_body]
pub struct ExPhantomPinned(core::marker::PhantomPinned);

/// Relies on `core::marker::PhantomPinned`: a zero-sized marker type with no
/// runtime behaviour whose only effect is to remove the containing type from
/// `Unpin`, so that pinned containers of the cell keep their pin guarantee.
#[verifier::external_body]
pub(crate) fn phantom_pinned() -> core::marker::PhantomPinned {
    core::marker::PhantomPinned
}

/// An unboxed aliasable value.
///
/// The payload is stored inline, so the cell must not be relocated between
/// the first call to [`Aliasable::get`] and the moment the last reference
/// obtained from it goes away. Consuming the cell with
/// [`Aliasable::into_inner`] is sound once no such reference is left.
pub struct Aliasable<T> {
    val: T,
    _pinned: core::marker::PhantomPinned,
}

impl<T> View for Aliasable<T> {
    type V = T;

    closed spec fn view(&self) -> T {
        self.val
    }
}

impl<T> Aliasable<T> {
    /// Create a new `Aliasable` that stores `val`.
    pub fn new(val: T) -> (r: Self)
        ensures
            r@ == val,
    {
        Aliasable { val, _pinned: phantom_pinned() }
    }

    /// Get a shared reference to the value inside the `Aliasable`.
    ///
    /// The borrow of the cell is the non-relocation proof: for as long as the
    /// returned reference is alive, the cell cannot be moved or consumed.
    /// No exclusive reference to the payload is ever handed out, because the
    /// payload may be aliased; to mutate it, make the payload itself an
    /// interior-mutability container.
    pub fn get(&self) -> (r: &T)
        ensures
            *r == self@,
    {
        &self.val
    }

    /// Consume the `Aliasable`, returning its inner value.
    pub fn into_inner(self) -> (r: T)
        ensures
            r == self@,
    {
        self.val
    }

    /// An opaque, payload-independent label for diagnostics. It never touches
    /// the payload and exposes no address.
    pub fn debug_label(&self) -> (r: String)
        ensures
            r@ == "Aliasable"@,
    {
        String::from_str("Aliasable")
    }
}

impl<T: core::default::Default> core::default::Default for Aliasable<T> {
    /// Construct a cell wrapping the payload type's default value.
    fn default() -> (r: Self)
        ensures
            T::default.ensures((), r@),
    {
        Aliasable::new(T::default())
    }
}

/// Law: wrapping a value and then consuming the wrapper returns that value
/// unchanged, for every payload.
pub fn round_trip<T>(v: T) -> (r: T)
    ensures
        r == v,
{
    Aliasable::new(v).into_inner()
}

} // verus!
