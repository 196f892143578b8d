//! What holds of encoding and decoding taken together.

use vstd::prelude::*;
use crate::decode::{decoded, DecodeError};
use crate::encode::encoded;
use crate::shape::{lemma_tags_differ, Shape, Value};
use crate::term::TermView;

verus! {

/// Decoding undoes encoding: a value that is encoded and then read against
/// its own shape comes back unchanged, so encoding it once more gives the
/// same term.
pub proof fn lemma_round_trip(value: Value)
    ensures
        decoded(encoded(value), value.shape()) == Ok::<Value, DecodeError>(value),
        encoded(decoded(encoded(value), value.shape())->Ok_0) == encoded(value),
{
}

/// No shape is read as another: a term that carries the tag of one shape
/// fails with a shape mismatch wherever a vector or matrix of a different
/// shape is expected, whatever else the term holds.
pub proof fn lemma_no_coercion(term: TermView, carried: Shape, expected: Shape)
    requires
        carried.tag() is Some,
        term is Tuple,
        term.items().len() > 0,
        term.items()[0] == TermView::Atom(carried.tag()->Some_0),
        expected != carried,
        expected != Shape::Scalar,
    ensures
        decoded(term, expected) == Err::<Value, DecodeError>(DecodeError::ShapeMismatch),
{
    lemma_tags_differ(carried, expected);
}

} // verus!
