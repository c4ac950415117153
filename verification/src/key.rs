//! The opaque handle under which the store keeps an interface.

use vstd::prelude::*;
use vstd::std_specs::cmp::PartialEqSpecImpl;

verus! {

/// `slotmap::DefaultKey`, the versioned key that a slot map hands out. Its
/// contents stay hidden: a key is only carried around and compared.
#[verifier::external_type_specification]
#[verifier::external_body]
pub struct ExDefaultKey(slotmap::DefaultKey);

/// Whether `slotmap::Key::is_null` holds of the key inside `k`.
pub uninterp spec fn key_is_null(k: IfKey) -> bool;

/// Handle of one interface: assigned when the interface is first stored,
/// unchanged by renames and field updates.
#[derive(Clone, Copy, Debug, Eq, Hash)]
pub struct IfKey {
    raw: slotmap::DefaultKey,
}

/// `slotmap::DefaultKey`'s `==`. The crate derives it over the key's index and
/// version, which are all that a key holds, so two keys compare equal exactly
/// when they are the same value.
#[verifier::external_body]
fn key_eq(a: &IfKey, b: &IfKey) -> (r: bool)
    ensures
        r == (*a == *b),
{
    a.raw == b.raw
}

/// `slotmap::Key::null` for `DefaultKey`: a key for which `is_null` holds.
#[verifier::external_body]
fn key_null() -> (k: IfKey)
    ensures
        key_is_null(k),
{
    IfKey { raw: slotmap::Key::null() }
}

/// `slotmap::Key::is_null` for `DefaultKey`.
#[verifier::external_body]
fn key_nullness(k: &IfKey) -> (r: bool)
    ensures
        r == key_is_null(*k),
{
    slotmap::Key::is_null(&k.raw)
}

impl PartialEq for IfKey {
    fn eq(&self, other: &Self) -> (r: bool) {
        key_eq(self, other)
    }
}

impl PartialEqSpecImpl for IfKey {
    open spec fn obeys_eq_spec() -> bool {
        true
    }

    open spec fn eq_spec(&self, other: &Self) -> bool {
        *self == *other
    }
}

impl IfKey {
    /// Wraps a key that the arena handed out.
    pub(crate) fn from_raw(raw: slotmap::DefaultKey) -> (k: IfKey)
        ensures
            k.raw() == raw,
    {
        IfKey { raw }
    }

    /// The arena's key behind this handle.
    pub(crate) fn to_raw(&self) -> (raw: slotmap::DefaultKey)
        ensures
            raw == self.raw(),
    {
        self.raw
    }

    /// The arena's key behind this handle, in contracts.
    pub closed spec fn raw(&self) -> slotmap::DefaultKey {
        self.raw
    }

    /// The null handle: the placeholder that an interface carries before the
    /// store has given it a handle of its own.
    pub fn null() -> (k: IfKey)
        ensures
            key_is_null(k),
    {
        key_null()
    }

    /// Whether this is the null handle.
    pub fn is_null(&self) -> (r: bool)
        ensures
            r == key_is_null(*self),
    {
        key_nullness(self)
    }
}

} // verus!
