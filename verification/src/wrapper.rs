//! The wrapper core: a container whose structural relations pass through to
//! the plaintext while its human-readable rendering never does.

use vstd::prelude::*;
use vstd::std_specs::cmp::{PartialEqSpec, PartialOrdSpec};

verus! {

/// A container for one sensitive value of type `T` (the plaintext).
///
/// The wrapper adds no state of its own and never changes the plaintext.
/// Equality and ordering delegate to `T`, so two wrapped values compare
/// exactly as their plaintexts do, while [`Secret::redacted`] — the basis of
/// every human-readable rendering — ignores the plaintext entirely.
#[derive(Clone, Copy, Hash, Ord)]
pub struct Secret<T>(T);

impl<T> Secret<T> {
    /// The plaintext held by the wrapper, as a mathematical value.
    pub closed spec fn spec_inner(self) -> T {
        self.0
    }

    /// The wrapper that holds `v`, as a mathematical value.
    pub closed spec fn spec_new(v: T) -> Secret<T> {
        Secret(v)
    }

    /// Consumes the wrapper and returns ownership of the plaintext.
    pub fn inner(self) -> (r: T)
        ensures
            r == self.spec_inner(),
    {
        self.0
    }

    /// Borrows the plaintext without consuming the wrapper.
    ///
    /// This is the sanctioned leak surface: any code holding the returned
    /// reference can read the plaintext, bypassing redaction. It exists for
    /// ergonomic field access and is a deliberate part of the contract.
    pub fn expose(&self) -> (r: &T)
        ensures
            *r == self.spec_inner(),
    {
        &self.0
    }

    /// Mutably borrows the plaintext without consuming the wrapper.
    ///
    /// Like [`Secret::expose`], this is a sanctioned leak surface; it also
    /// allows updating the plaintext in place.
    pub fn expose_mut(&mut self) -> (r: &mut T)
        ensures
            *r == old(self).spec_inner(),
            final(self).spec_inner() == *final(r),
    {
        &mut self.0
    }

    /// The fixed placeholder text that every human-readable rendering of a
    /// wrapper produces in place of the plaintext.
    ///
    /// The result never depends on the wrapped value or on `T`: the contract
    /// mentions neither.
    pub fn redacted(&self) -> (r: String)
        ensures
            r@ == spec_hidden(),
    {
        String::from_str("<hidden>")
    }
}

/// The characters of the placeholder literal that redaction produces.
pub open spec fn spec_hidden() -> Seq<char> {
    "<hidden>"@
}

impl<T> From<T> for Secret<T> {
    /// Wraps `v`; ownership of the plaintext moves into the wrapper.
    fn from(v: T) -> (r: Secret<T>)
        ensures
            r.spec_inner() == v,
    {
        Secret(v)
    }
}

impl<T> vstd::std_specs::convert::FromSpecImpl<T> for Secret<T> {
    open spec fn obeys_from_spec() -> bool {
        true
    }

    open spec fn from_spec(v: T) -> Secret<T> {
        Secret::spec_new(v)
    }
}

impl<T: PartialEq> PartialEq for Secret<T> {
    /// Two wrappers are equal exactly when their plaintexts are equal under
    /// `T`'s own equality; the comparison prints nothing.
    fn eq(&self, other: &Secret<T>) -> (r: bool) {
        self.0.eq(&other.0)
    }
}

impl<T: PartialEq> vstd::std_specs::cmp::PartialEqSpecImpl for Secret<T> {
    open spec fn obeys_eq_spec() -> bool {
        T::obeys_eq_spec()
    }

    open spec fn eq_spec(&self, other: &Secret<T>) -> bool {
        self.spec_inner().eq_spec(&other.spec_inner())
    }
}

impl<T: Eq> Eq for Secret<T> {
}

impl<T: PartialOrd> PartialOrd for Secret<T> {
    /// Wrappers order exactly as their plaintexts do under `T`'s own order.
    fn partial_cmp(&self, other: &Secret<T>) -> (r: Option<core::cmp::Ordering>) {
        self.0.partial_cmp(&other.0)
    }
}

impl<T: PartialOrd> vstd::std_specs::cmp::PartialOrdSpecImpl for Secret<T> {
    open spec fn obeys_partial_cmp_spec() -> bool {
        T::obeys_partial_cmp_spec()
    }

    open spec fn partial_cmp_spec(&self, other: &Secret<T>) -> Option<core::cmp::Ordering> {
        self.spec_inner().partial_cmp_spec(&other.spec_inner())
    }
}

impl<T: Default> Default for Secret<T> {
    /// The default wrapper holds `T`'s own default value.
    fn default() -> (r: Secret<T>)
        ensures
            call_ensures(T::default, (), r.spec_inner()),
    {
        Secret(T::default())
    }
}

/// Wrapping a value and unwrapping it again yields that value: the wrapper is
/// a pure pass-through container.
pub proof fn lemma_round_trip<T>(v: T)
    ensures
        Secret::spec_new(v).spec_inner() == v,
{
}

/// Equality delegation: two wrapped values are equal under the wrapper's
/// equality exactly when the plaintexts are equal under `T`'s own equality.
pub proof fn lemma_eq_delegation<T: PartialEq>(a: T, b: T)
    ensures
        Secret::spec_new(a).eq_spec(&Secret::spec_new(b)) == a.eq_spec(&b),
{
}

/// Order delegation: two wrapped values compare under the wrapper's order
/// exactly as the plaintexts compare under `T`'s own order.
pub proof fn lemma_ord_delegation<T: PartialOrd>(a: T, b: T)
    ensures
        Secret::spec_new(a).partial_cmp_spec(&Secret::spec_new(b)) == a.partial_cmp_spec(&b),
{
}

} // verus!
