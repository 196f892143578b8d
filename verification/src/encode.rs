//! From values to terms.
//!
//! Encoding never fails. A vector becomes the tuple of its tag and its
//! components in the order x, y, z, w; a matrix becomes the tuple of its tag
//! and its rows, each encoded as a vector; a scalar travels bare.

use vstd::prelude::*;
use crate::matrices::{Matrix2, Matrix3, Matrix4};
use crate::shape::{Shape, Value};
use crate::term::{items_view, term_view, Scalar, Term, TermView};
use crate::vectors::{Vector1, Vector2, Vector3, Vector4};

verus! {

/// The tuple that starts with the tag of `shape` and goes on with `items`.
pub open spec fn tagged(shape: Shape, items: Seq<TermView>) -> TermView {
    TermView::Tuple(seq![TermView::Atom(shape.tag()->Some_0)] + items)
}

/// The term of a scalar: the bare number.
pub open spec fn scalar_term(x: Scalar) -> TermView {
    TermView::Number(x)
}

/// The term of a [`Vector1`].
pub open spec fn vector1_term(v: Vector1) -> TermView {
    tagged(Shape::Vector1, seq![scalar_term(v.x)])
}

/// The term of a [`Vector2`].
pub open spec fn vector2_term(v: Vector2) -> TermView {
    tagged(Shape::Vector2, seq![scalar_term(v.x), scalar_term(v.y)])
}

/// The term of a [`Vector3`].
pub open spec fn vector3_term(v: Vector3) -> TermView {
    tagged(Shape::Vector3, seq![scalar_term(v.x), scalar_term(v.y), scalar_term(v.z)])
}

/// The term of a [`Vector4`].
pub open spec fn vector4_term(v: Vector4) -> TermView {
    tagged(
        Shape::Vector4,
        seq![scalar_term(v.x), scalar_term(v.y), scalar_term(v.z), scalar_term(v.w)],
    )
}

/// The term of a [`Matrix2`].
pub open spec fn matrix2_term(m: Matrix2) -> TermView {
    tagged(Shape::Matrix2, seq![vector2_term(m.x), vector2_term(m.y)])
}

/// The term of a [`Matrix3`].
pub open spec fn matrix3_term(m: Matrix3) -> TermView {
    tagged(Shape::Matrix3, seq![vector3_term(m.x), vector3_term(m.y), vector3_term(m.z)])
}

/// The term of a [`Matrix4`].
pub open spec fn matrix4_term(m: Matrix4) -> TermView {
    tagged(
        Shape::Matrix4,
        seq![vector4_term(m.x), vector4_term(m.y), vector4_term(m.z), vector4_term(m.w)],
    )
}

/// The term of a value of any shape.
pub open spec fn encoded(value: Value) -> TermView {
    match value {
        Value::Scalar(x) => scalar_term(x),
        Value::Vector1(v) => vector1_term(v),
        Value::Vector2(v) => vector2_term(v),
        Value::Vector3(v) => vector3_term(v),
        Value::Vector4(v) => vector4_term(v),
        Value::Matrix2(m) => matrix2_term(m),
        Value::Matrix3(m) => matrix3_term(m),
        Value::Matrix4(m) => matrix4_term(m),
    }
}

/// A tuple is worth the values of its items.
proof fn lemma_tuple_view(items: Vec<Term>, expected: Seq<TermView>)
    requires
        items@.len() == expected.len(),
        forall|i: int| 0 <= i < expected.len() ==> term_view(#[trigger] items@[i]) == expected[i],
    ensures
        term_view(Term::Tuple(items)) == TermView::Tuple(expected),
{
    assert(items_view(items@) =~= expected);
}

/// The term that is the name `name`.
fn atom(name: &str) -> (term: Term)
    ensures
        term@ == TermView::Atom(name@),
{
    Term::Atom(name.to_owned())
}

/// Encodes a scalar.
pub fn encode_scalar(scalar: Scalar) -> (term: Term)
    ensures
        term@ == scalar_term(scalar),
{
    Term::Number(scalar)
}

/// Encodes a vector of one component.
pub fn encode_vector1(vector: Vector1) -> (term: Term)
    ensures
        term@ == vector1_term(vector),
{
    let mut items: Vec<Term> = Vec::new();
    items.push(atom("vector1"));
    items.push(encode_scalar(vector.x));
    proof {
        lemma_tuple_view(items, vector1_term(vector).items());
    }
    Term::Tuple(items)
}

/// Encodes a vector of two components.
pub fn encode_vector2(vector: Vector2) -> (term: Term)
    ensures
        term@ == vector2_term(vector),
{
    let mut items: Vec<Term> = Vec::new();
    items.push(atom("vector2"));
    items.push(encode_scalar(vector.x));
    items.push(encode_scalar(vector.y));
    proof {
        lemma_tuple_view(items, vector2_term(vector).items());
    }
    Term::Tuple(items)
}

/// Encodes a vector of three components.
pub fn encode_vector3(vector: Vector3) -> (term: Term)
    ensures
        term@ == vector3_term(vector),
{
    let mut items: Vec<Term> = Vec::new();
    items.push(atom("vector3"));
    items.push(encode_scalar(vector.x));
    items.push(encode_scalar(vector.y));
    items.push(encode_scalar(vector.z));
    proof {
        lemma_tuple_view(items, vector3_term(vector).items());
    }
    Term::Tuple(items)
}

/// Encodes a vector of four components.
pub fn encode_vector4(vector: Vector4) -> (term: Term)
    ensures
        term@ == vector4_term(vector),
{
    let mut items: Vec<Term> = Vec::new();
    items.push(atom("vector4"));
    items.push(encode_scalar(vector.x));
    items.push(encode_scalar(vector.y));
    items.push(encode_scalar(vector.z));
    items.push(encode_scalar(vector.w));
    proof {
        lemma_tuple_view(items, vector4_term(vector).items());
    }
    Term::Tuple(items)
}

/// Encodes a matrix of two rows.
pub fn encode_matrix2(matrix: Matrix2) -> (term: Term)
    ensures
        term@ == matrix2_term(matrix),
{
    let mut items: Vec<Term> = Vec::new();
    items.push(atom("matrix2"));
    items.push(encode_vector2(matrix.x));
    items.push(encode_vector2(matrix.y));
    proof {
        lemma_tuple_view(items, matrix2_term(matrix).items());
    }
    Term::Tuple(items)
}

/// Encodes a matrix of three rows.
pub fn encode_matrix3(matrix: Matrix3) -> (term: Term)
    ensures
        term@ == matrix3_term(matrix),
{
    let mut items: Vec<Term> = Vec::new();
    items.push(atom("matrix3"));
    items.push(encode_vector3(matrix.x));
    items.push(encode_vector3(matrix.y));
    items.push(encode_vector3(matrix.z));
    proof {
        lemma_tuple_view(items, matrix3_term(matrix).items());
    }
    Term::Tuple(items)
}

/// Encodes a matrix of four rows.
pub fn encode_matrix4(matrix: Matrix4) -> (term: Term)
    ensures
        term@ == matrix4_term(matrix),
{
    let mut items: Vec<Term> = Vec::new();
    items.push(atom("matrix4"));
    items.push(encode_vector4(matrix.x));
    items.push(encode_vector4(matrix.y));
    items.push(encode_vector4(matrix.z));
    items.push(encode_vector4(matrix.w));
    proof {
        lemma_tuple_view(items, matrix4_term(matrix).items());
    }
    Term::Tuple(items)
}

/// Encodes a value of any shape.
pub fn encode(value: Value) -> (term: Term)
    ensures
        term@ == encoded(value),
{
    match value {
        Value::Scalar(x) => encode_scalar(x),
        Value::Vector1(v) => encode_vector1(v),
        Value::Vector2(v) => encode_vector2(v),
        Value::Vector3(v) => encode_vector3(v),
        Value::Vector4(v) => encode_vector4(v),
        Value::Matrix2(m) => encode_matrix2(m),
        Value::Matrix3(m) => encode_matrix3(m),
        Value::Matrix4(m) => encode_matrix4(m),
    }
}

} // verus!
