//! What holds of unwrapping for every node and every builder.

use vstd::prelude::*;
use crate::error::{empty_map_message, outcome, Error, ErrorView};
use crate::node::Node;
use crate::{unwrapped, unwraps_to};

verus! {

/// A map with exactly one entry, whose value builds to `x` and to nothing
/// else, unwraps to `Ok(x)`, whatever the key is.
pub proof fn single_entry_round_trip<V, E, F: FnOnce(&Node) -> Result<V, E>>(
    node: Node,
    build: F,
    x: V,
    r: Result<V, Error<E>>,
)
    requires
        node is Object,
        node.entries().len() == 1,
        forall|b: Result<V, E>| #[trigger]
            build.ensures((&node.entries()[0].1,), b) ==> b == Ok::<V, E>(x),
        unwraps_to(node, build, r),
    ensures
        r == Ok::<V, Error<E>>(x),
{
}

/// Two maps of one entry each with the same value unwrap to the same
/// results, whatever their keys are.
pub proof fn key_irrelevance<V, E, F: FnOnce(&Node) -> Result<V, E>>(
    a: Node,
    b: Node,
    build: F,
    r: Result<V, Error<E>>,
)
    requires
        a is Object,
        b is Object,
        a.entries().len() == 1,
        b.entries().len() == 1,
        a.entries()[0].1 == b.entries()[0].1,
    ensures
        unwraps_to(a, build, r) == unwraps_to(b, build, r),
{
}

/// A map of two or more entries unwraps to the same results as the map of
/// its first entry alone: what follows the first entry has no effect.
pub proof fn first_entry_wins<V, E, F: FnOnce(&Node) -> Result<V, E>>(
    many: Node,
    alone: Node,
    build: F,
    r: Result<V, Error<E>>,
)
    requires
        many is Object,
        alone is Object,
        many.entries().len() >= 2,
        alone.entries() == many.entries().take(1),
    ensures
        unwraps_to(many, build, r) == unwraps_to(alone, build, r),
{
}

/// A map without entries unwraps to the failure with the fixed message, and
/// to nothing else: never to a value.
pub proof fn empty_map_fails<V, E, F: FnOnce(&Node) -> Result<V, E>>(
    node: Node,
    build: F,
    r: Result<V, Error<E>>,
)
    requires
        node is Object,
        node.entries().len() == 0,
    ensures
        unwraps_to(node, build, r) <==> outcome(r) == Err::<V, ErrorView<E>>(
            ErrorView::Custom(empty_map_message()),
        ),
{
}

/// A node that is no map unwraps to the failure that names its shape, and to
/// nothing else: not to the failure of the empty map.
pub proof fn non_map_fails<V, E, F: FnOnce(&Node) -> Result<V, E>>(
    node: Node,
    build: F,
    r: Result<V, Error<E>>,
)
    requires
        !(node is Object),
    ensures
        unwraps_to(node, build, r) <==> outcome(r) == Err::<V, ErrorView<E>>(
            ErrorView::InvalidType(node.kind()),
        ),
        unwraps_to(node, build, r) ==> !(outcome(r) matches Err(ErrorView::Custom(_))),
{
}

/// Unwrapping adds no choice of its own: where the builder can give only one
/// result on the first value, a node unwraps to only one result.
pub proof fn unwrapping_is_deterministic<V, E, F: FnOnce(&Node) -> Result<V, E>>(
    node: Node,
    build: F,
    r1: Result<V, Error<E>>,
    r2: Result<V, Error<E>>,
)
    requires
        node.wrapped() matches Some(value) ==> forall|b1: Result<V, E>, b2: Result<V, E>|
            #[trigger] build.ensures((&value,), b1) && #[trigger] build.ensures((&value,), b2)
                ==> b1 == b2,
        unwraps_to(node, build, r1),
        unwraps_to(node, build, r2),
    ensures
        outcome(r1) == outcome(r2),
{
}

/// What is made of a pull is never a mismatch of shape: a pull comes from a
/// map already.
pub proof fn pull_is_never_a_mismatch<K, V, E>(pulled: Result<Option<(K, V)>, E>)
    ensures
        !(unwrapped(pulled) matches Err(ErrorView::InvalidType(_))),
{
}

/// The key of a pulled entry has no part in what is made of the pull.
pub proof fn pulled_key_irrelevance<K, V, E>(k1: K, k2: K, value: V)
    ensures
        unwrapped(Ok::<Option<(K, V)>, E>(Some((k1, value)))) == unwrapped(
            Ok::<Option<(K, V)>, E>(Some((k2, value))),
        ),
        unwrapped(Ok::<Option<(K, V)>, E>(Some((k1, value)))) == Ok::<V, ErrorView<E>>(value),
{
}

} // verus!
