//! The ways in which unwrapping fails.

use vstd::prelude::*;
use crate::node::Kind;

verus! {

/// Why no value came out. `E` is the error of whatever builds the typed value.
#[derive(Debug, PartialEq, Eq)]
pub enum Error<E> {
    /// The node is no map; holds the shape that was found instead.
    InvalidType(Kind),
    /// A failure of meaning rather than of shape, with its message.
    Custom(String),
    /// Building the value failed; holds the builder's error as it came.
    Value(E),
}

/// An `Error` with its message as a sequence of characters.
pub enum ErrorView<E> {
    InvalidType(Kind),
    Custom(Seq<char>),
    Value(E),
}

impl<E> View for Error<E> {
    type V = ErrorView<E>;

    open spec fn view(&self) -> ErrorView<E> {
        match *self {
            Error::InvalidType(kind) => ErrorView::InvalidType(kind),
            Error::Custom(message) => ErrorView::Custom(message@),
            Error::Value(inner) => ErrorView::Value(inner),
        }
    }
}

/// The message of the failure on a map without entries.
pub open spec fn empty_map_message() -> Seq<char> {
    "No single key value in map"@
}

/// A result with its error taken by its view.
pub open spec fn outcome<V, E>(r: Result<V, Error<E>>) -> Result<V, ErrorView<E>> {
    match r {
        Ok(value) => Ok(value),
        Err(e) => Err(e@),
    }
}

impl<E> Error<E> {
    /// The failure on a map without entries.
    pub fn empty_map() -> (e: Self)
        ensures
            e@ == ErrorView::<E>::Custom(empty_map_message()),
    {
        Error::Custom("No single key value in map".to_owned())
    }
}

} // verus!
