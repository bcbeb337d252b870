//! Total, bijective mapping between the wire vocabulary and the storage
//! vocabulary for post visibility. Applied on write and on read, so a
//! visibility value round-trips exactly.

use vstd::prelude::*;

verus! {

/// Visibility as it appears on the wire (request and response bodies).
#[derive(Clone, Copy, Debug, PartialEq, Eq, Structural)]
pub enum Visibility {
    Public,
    Home,
    Followers,
    DirectMessage,
}

/// Visibility as it is stored with the post row.
#[derive(Clone, Copy, Debug, PartialEq, Eq, Structural)]
pub enum StoredVisibility {
    Public,
    Home,
    Followers,
    DirectMessage,
}

/// Wire value to storage value, the mapping used at creation.
pub fn visibility_to_stored(v: Visibility) -> (r: StoredVisibility)
    ensures
        r == spec_to_stored(v),
{
    match v {
        Visibility::Public => StoredVisibility::Public,
        Visibility::Home => StoredVisibility::Home,
        Visibility::Followers => StoredVisibility::Followers,
        Visibility::DirectMessage => StoredVisibility::DirectMessage,
    }
}

/// Storage value back to wire value, the mapping used on read.
pub fn visibility_to_wire(s: StoredVisibility) -> (r: Visibility)
    ensures
        r == spec_to_wire(s),
{
    match s {
        StoredVisibility::Public => Visibility::Public,
        StoredVisibility::Home => Visibility::Home,
        StoredVisibility::Followers => Visibility::Followers,
        StoredVisibility::DirectMessage => Visibility::DirectMessage,
    }
}

pub open spec fn spec_to_stored(v: Visibility) -> StoredVisibility {
    match v {
        Visibility::Public => StoredVisibility::Public,
        Visibility::Home => StoredVisibility::Home,
        Visibility::Followers => StoredVisibility::Followers,
        Visibility::DirectMessage => StoredVisibility::DirectMessage,
    }
}

pub open spec fn spec_to_wire(s: StoredVisibility) -> Visibility {
    match s {
        StoredVisibility::Public => Visibility::Public,
        StoredVisibility::Home => Visibility::Home,
        StoredVisibility::Followers => Visibility::Followers,
        StoredVisibility::DirectMessage => Visibility::DirectMessage,
    }
}

/// The two mappings are mutually inverse: every wire value survives the
/// trip through storage unchanged, and every storage value survives the
/// trip through the wire unchanged.
pub proof fn lemma_visibility_round_trip(v: Visibility, s: StoredVisibility)
    ensures
        spec_to_wire(spec_to_stored(v)) == v,
        spec_to_stored(spec_to_wire(s)) == s,
{
}

} // verus!
