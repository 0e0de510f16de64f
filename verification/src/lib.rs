//! Unwrapping of single-key maps.
//!
//! Some formats wrap a value in a map with one key, as in `{"item": [..]}`,
//! where the consumer wants only what stands under the key. This library takes
//! such a map, discards the key and hands the value on to whatever builds the
//! typed result from it.

use vstd::prelude::*;

pub mod error;
pub mod laws;
pub mod node;

use crate::error::{empty_map_message, outcome, Error, ErrorView};
use crate::node::Node;

verus! {

/// What unwrapping makes of one pull: the value of the entry, the fixed
/// failure where there was no entry, and the pull's own error untouched.
pub open spec fn unwrapped<K, V, E>(pulled: Result<Option<(K, V)>, E>) -> Result<V, ErrorView<E>> {
    match pulled {
        Ok(Some(entry)) => Ok(entry.1),
        Ok(None) => Err(ErrorView::Custom(empty_map_message())),
        Err(e) => Err(ErrorView::Value(e)),
    }
}

/// Whether `r` is a result that building from `value` with `build` may give:
/// what `build` returns on it, with an error of `build` inside `Value`.
pub open spec fn builds_to<V, E, F: FnOnce(&Node) -> Result<V, E>>(
    value: Node,
    build: F,
    r: Result<V, Error<E>>,
) -> bool {
    match r {
        Ok(v) => build.ensures((&value,), Ok(v)),
        Err(Error::Value(e)) => build.ensures((&value,), Err(e)),
        Err(_) => false,
    }
}

/// The failure of a node that wraps no value: the fixed message for a map
/// without entries, the shape that was found for a node that is no map.
pub open spec fn refusal<E>(node: Node) -> ErrorView<E> {
    if node is Object {
        ErrorView::Custom(empty_map_message())
    } else {
        ErrorView::InvalidType(node.kind())
    }
}

/// Whether `r` is a result that unwrapping `node` with the builder `build` may
/// give. A map with an entry gives what building from its first value gives.
/// Any other node gives its own failure, and `build` has no say.
pub open spec fn unwraps_to<V, E, F: FnOnce(&Node) -> Result<V, E>>(
    node: Node,
    build: F,
    r: Result<V, Error<E>>,
) -> bool {
    match node.wrapped() {
        Some(value) => builds_to(value, build, r),
        None => outcome(r) == Err::<V, ErrorView<E>>(refusal(node)),
    }
}

/// Decides on what one pull gave. The key of the entry is dropped unread.
pub fn unwrap_entry<K, V, E>(pulled: Result<Option<(K, V)>, E>) -> (r: Result<V, Error<E>>)
    ensures
        outcome(r) == unwrapped(pulled),
{
    match pulled {
        Ok(Some(entry)) => Ok(entry.1),
        Ok(None) => Err(Error::empty_map()),
        Err(e) => Err(Error::Value(e)),
    }
}

/// Pulls the first entry of `entries`, building its value with `build`.
/// Without entries `build` is not called.
pub fn next_entry<'a, V, E, F: FnOnce(&Node) -> Result<V, E>>(
    entries: &'a Vec<(String, Node)>,
    build: F,
) -> (r: Result<Option<(&'a String, V)>, E>)
    requires
        entries@.len() > 0 ==> build.requires((&entries@[0].1,)),
    ensures
        entries@.len() == 0 ==> r == Ok::<Option<(&'a String, V)>, E>(None),
        entries@.len() > 0 ==> match r {
            Ok(Some(entry)) => *entry.0 == entries@[0].0 && build.ensures(
                (&entries@[0].1,),
                Ok(entry.1),
            ),
            Ok(None) => false,
            Err(e) => build.ensures((&entries@[0].1,), Err(e)),
        },
{
    if entries.len() == 0 {
        return Ok(None);
    }
    let first = &entries[0];
    match build(&first.1) {
        Ok(value) => Ok(Some((&first.0, value))),
        Err(e) => Err(e),
    }
}

/// Unwraps the entries of a map: pulls one entry and decides on it. Entries
/// after the first are never looked at.
pub fn visit_map<V, E, F: FnOnce(&Node) -> Result<V, E>>(
    entries: &Vec<(String, Node)>,
    build: F,
) -> (r: Result<V, Error<E>>)
    requires
        entries@.len() > 0 ==> build.requires((&entries@[0].1,)),
    ensures
        entries@.len() == 0 ==> outcome(r) == Err::<V, ErrorView<E>>(
            ErrorView::Custom(empty_map_message()),
        ),
        entries@.len() > 0 ==> builds_to(entries@[0].1, build, r),
{
    unwrap_entry(next_entry(entries, build))
}

/// Takes a map for the value under its first key and builds the typed value
/// from that with `build`. The key is discarded and further entries are
/// ignored. An empty map fails with the message "No single key value in map",
/// a node that is no map with `InvalidType`, and an error of `build` comes
/// back inside `Value`.
pub fn deserialize<V, E, F: FnOnce(&Node) -> Result<V, E>>(node: &Node, build: F) -> (r: Result<
    V,
    Error<E>,
>)
    requires
        node.wrapped() matches Some(value) ==> build.requires((&value,)),
    ensures
        unwraps_to(*node, build, r),
{
    match node {
        Node::Object(entries) => visit_map(entries, build),
        _ => Err(Error::InvalidType(node.kind())),
    }
}

} // verus!
