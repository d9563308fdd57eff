//! The set of entities that a detonation pass collects, kept in the engine's
//! own hash set (deterministically hashed), reached through trusted items.

use bevy::platform::collections::HashSet;
use bevy::platform::hash::FixedHasher;
use vstd::prelude::*;

verus! {

/// The engine's hash set, opaque to Verus.
#[verifier::external_type_specification]
#[verifier::external_body]
#[verifier::reject_recursive_types(T)]
#[verifier::reject_recursive_types(S)]
pub struct ExEngineHashSet<T, S>(HashSet<T, S>);

/// The engine's fixed hash builder, opaque to Verus.
#[verifier::external_type_specification]
#[verifier::external_body]
pub struct ExEngineFixedHasher(FixedHasher);

/// The entity identifiers that an engine hash set holds.
pub uninterp spec fn entity_set_contents(s: HashSet<u64>) -> Set<u64>;

/// Calls `bevy_platform::collections::HashSet::new`: the set it returns holds
/// nothing.
#[verifier::external_body]
pub(crate) fn entity_set_new() -> (s: HashSet<u64>)
    ensures
        entity_set_contents(s) == Set::<u64>::empty(),
{
    HashSet::new()
}

/// Calls `bevy_platform::collections::HashSet::insert`: afterwards the set
/// holds what it held and `e`; the result says whether `e` was new to it.
#[verifier::external_body]
pub(crate) fn entity_set_insert(s: &mut HashSet<u64>, e: u64) -> (added: bool)
    ensures
        entity_set_contents(*final(s)) == entity_set_contents(*old(s)).insert(e),
        added == !entity_set_contents(*old(s)).contains(e),
{
    s.insert(e)
}

/// Calls `bevy_platform::collections::HashSet::iter` and copies out what it
/// visits: every element of the set exactly once, in an order that the
/// contract leaves open.
#[verifier::external_body]
pub(crate) fn entity_set_elements(s: &HashSet<u64>) -> (v: Vec<u64>)
    ensures
        v@.to_set() == entity_set_contents(*s),
        v@.no_duplicates(),
{
    s.iter().copied().collect()
}

} // verus!
