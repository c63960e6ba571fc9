//! Opaque identity keys for chats, messages and providers.
//!
//! An identity key is an immutable, lexically comparable string generated
//! at creation time. It is the primary key in the durable store and the
//! lookup key in every cache of this crate.

use vstd::prelude::*;

verus! {

/// An opaque unique identifier.
#[derive(Debug)]
pub struct UniqueId(String);

impl View for UniqueId {
    type V = Seq<char>;

    closed spec fn view(&self) -> Seq<char> {
        self.0@
    }
}

impl Clone for UniqueId {
    fn clone(&self) -> (r: Self)
        ensures
            r@ == self@,
    {
        UniqueId(self.0.clone())
    }
}

impl PartialEq for UniqueId {
    fn eq(&self, other: &Self) -> (r: bool) {
        self.0 == other.0
    }
}

impl vstd::std_specs::cmp::PartialEqSpecImpl for UniqueId {
    open spec fn obeys_eq_spec() -> bool {
        true
    }

    open spec fn eq_spec(&self, other: &Self) -> bool {
        self@ == other@
    }
}

impl Eq for UniqueId {}

impl UniqueId {
    /// Wraps an existing identifier, as read back from the durable store.
    pub fn from_string(string: String) -> (r: Self)
        ensures
            r@ == string@,
    {
        UniqueId(string)
    }

    /// Generates a fresh random identifier.
    pub fn new() -> (r: Self) {
        UniqueId(fresh_id_string())
    }

    /// The identifier as a string slice, for handing to the durable store.
    pub fn as_str(&self) -> (r: &str)
        ensures
            r@ == self@,
    {
        self.0.as_str()
    }
}

/// Relies on nanoid::format with the crate's default alphabet and rng:
/// returns a freshly generated random identifier string. The result is
/// random, so nothing is assumed about its contents.
#[verifier::external_body]
fn fresh_id_string() -> (r: String) {
    nanoid::format(nanoid::rngs::default, &nanoid::alphabet::SAFE, 21)
}

} // verus!
