//! From terms to values.
//!
//! A term is read against the shape that the caller expects at its place.
//! The tag and the number of items are checked first; then the components
//! are read in order. Nothing is coerced: a term of one shape is never read
//! as another.

use vstd::prelude::*;
use crate::matrices::{Matrix2, Matrix3, Matrix4};
use crate::shape::{Shape, Value};
use crate::term::{items_view, term_view, Scalar, Term, TermView};
use crate::text::same_text;
use crate::vectors::{Vector1, Vector2, Vector3, Vector4};

verus! {

/// Why a term could not be read as the shape that was asked for.
#[derive(Clone, Copy, Debug, PartialEq, Eq, Structural)]
pub enum DecodeError {
    /// The tag or the number of items is not that of the shape.
    ShapeMismatch,
    /// A component that has to be a number is something else.
    TypeMismatch,
}

/// Whether `term` is a tuple of the tag of `shape` and `count` more items.
pub open spec fn has_shape(term: TermView, shape: Shape, count: nat) -> bool {
    shape.tag() is Some && term.is_tagged(shape.tag()->Some_0, count)
}

/// The scalar that a term holds: a number is one, nothing else is.
pub open spec fn scalar_of(term: TermView) -> Result<Scalar, DecodeError> {
    match term {
        TermView::Number(x) => Ok(x),
        _ => Err(DecodeError::TypeMismatch),
    }
}

/// The [`Vector1`] that a term holds.
pub open spec fn vector1_of(term: TermView) -> Result<Vector1, DecodeError> {
    let items = term.items();
    if !has_shape(term, Shape::Vector1, 1) {
        Err(DecodeError::ShapeMismatch)
    } else if scalar_of(items[1]) is Err {
        Err(DecodeError::TypeMismatch)
    } else {
        Ok(Vector1 { x: scalar_of(items[1])->Ok_0 })
    }
}

/// The [`Vector2`] that a term holds.
pub open spec fn vector2_of(term: TermView) -> Result<Vector2, DecodeError> {
    let items = term.items();
    if !has_shape(term, Shape::Vector2, 2) {
        Err(DecodeError::ShapeMismatch)
    } else if scalar_of(items[1]) is Err || scalar_of(items[2]) is Err {
        Err(DecodeError::TypeMismatch)
    } else {
        Ok(Vector2 { x: scalar_of(items[1])->Ok_0, y: scalar_of(items[2])->Ok_0 })
    }
}

/// The [`Vector3`] that a term holds.
pub open spec fn vector3_of(term: TermView) -> Result<Vector3, DecodeError> {
    let items = term.items();
    if !has_shape(term, Shape::Vector3, 3) {
        Err(DecodeError::ShapeMismatch)
    } else if scalar_of(items[1]) is Err || scalar_of(items[2]) is Err || scalar_of(items[3])
        is Err {
        Err(DecodeError::TypeMismatch)
    } else {
        Ok(
            Vector3 {
                x: scalar_of(items[1])->Ok_0,
                y: scalar_of(items[2])->Ok_0,
                z: scalar_of(items[3])->Ok_0,
            },
        )
    }
}

/// The [`Vector4`] that a term holds.
pub open spec fn vector4_of(term: TermView) -> Result<Vector4, DecodeError> {
    let items = term.items();
    if !has_shape(term, Shape::Vector4, 4) {
        Err(DecodeError::ShapeMismatch)
    } else if scalar_of(items[1]) is Err || scalar_of(items[2]) is Err || scalar_of(items[3])
        is Err || scalar_of(items[4]) is Err {
        Err(DecodeError::TypeMismatch)
    } else {
        Ok(
            Vector4 {
                x: scalar_of(items[1])->Ok_0,
                y: scalar_of(items[2])->Ok_0,
                z: scalar_of(items[3])->Ok_0,
                w: scalar_of(items[4])->Ok_0,
            },
        )
    }
}

/// The [`Matrix2`] that a term holds. Where a row cannot be read, the first
/// such row gives the error.
pub open spec fn matrix2_of(term: TermView) -> Result<Matrix2, DecodeError> {
    let x = vector2_of(term.items()[1]);
    let y = vector2_of(term.items()[2]);
    if !has_shape(term, Shape::Matrix2, 2) {
        Err(DecodeError::ShapeMismatch)
    } else if x is Err {
        Err(x->Err_0)
    } else if y is Err {
        Err(y->Err_0)
    } else {
        Ok(Matrix2 { x: x->Ok_0, y: y->Ok_0 })
    }
}

/// The [`Matrix3`] that a term holds. Where a row cannot be read, the first
/// such row gives the error.
pub open spec fn matrix3_of(term: TermView) -> Result<Matrix3, DecodeError> {
    let x = vector3_of(term.items()[1]);
    let y = vector3_of(term.items()[2]);
    let z = vector3_of(term.items()[3]);
    if !has_shape(term, Shape::Matrix3, 3) {
        Err(DecodeError::ShapeMismatch)
    } else if x is Err {
        Err(x->Err_0)
    } else if y is Err {
        Err(y->Err_0)
    } else if z is Err {
        Err(z->Err_0)
    } else {
        Ok(Matrix3 { x: x->Ok_0, y: y->Ok_0, z: z->Ok_0 })
    }
}

/// The [`Matrix4`] that a term holds. Where a row cannot be read, the first
/// such row gives the error.
pub open spec fn matrix4_of(term: TermView) -> Result<Matrix4, DecodeError> {
    let x = vector4_of(term.items()[1]);
    let y = vector4_of(term.items()[2]);
    let z = vector4_of(term.items()[3]);
    let w = vector4_of(term.items()[4]);
    if !has_shape(term, Shape::Matrix4, 4) {
        Err(DecodeError::ShapeMismatch)
    } else if x is Err {
        Err(x->Err_0)
    } else if y is Err {
        Err(y->Err_0)
    } else if z is Err {
        Err(z->Err_0)
    } else if w is Err {
        Err(w->Err_0)
    } else {
        Ok(Matrix4 { x: x->Ok_0, y: y->Ok_0, z: z->Ok_0, w: w->Ok_0 })
    }
}

/// The value of shape `shape` that a term holds.
pub open spec fn decoded(term: TermView, shape: Shape) -> Result<Value, DecodeError> {
    match shape {
        Shape::Scalar => match scalar_of(term) {
            Ok(x) => Ok(Value::Scalar(x)),
            Err(e) => Err(e),
        },
        Shape::Vector1 => match vector1_of(term) {
            Ok(v) => Ok(Value::Vector1(v)),
            Err(e) => Err(e),
        },
        Shape::Vector2 => match vector2_of(term) {
            Ok(v) => Ok(Value::Vector2(v)),
            Err(e) => Err(e),
        },
        Shape::Vector3 => match vector3_of(term) {
            Ok(v) => Ok(Value::Vector3(v)),
            Err(e) => Err(e),
        },
        Shape::Vector4 => match vector4_of(term) {
            Ok(v) => Ok(Value::Vector4(v)),
            Err(e) => Err(e),
        },
        Shape::Matrix2 => match matrix2_of(term) {
            Ok(m) => Ok(Value::Matrix2(m)),
            Err(e) => Err(e),
        },
        Shape::Matrix3 => match matrix3_of(term) {
            Ok(m) => Ok(Value::Matrix3(m)),
            Err(e) => Err(e),
        },
        Shape::Matrix4 => match matrix4_of(term) {
            Ok(m) => Ok(Value::Matrix4(m)),
            Err(e) => Err(e),
        },
    }
}

/// Looks at the outside of a term: whether it is a tuple of `count + 1`
/// items whose first is the name `tag`. If so, hands out the items.
fn tagged_items<'a>(term: &'a Term, tag: &str, count: usize) -> (found: Option<&'a Vec<Term>>)
    requires
        count < usize::MAX,
    ensures
        found is Some == term@.is_tagged(tag@, count as nat),
        found is Some ==> found->Some_0@.len() == count + 1 && items_view(found->Some_0@)
            == term@.items(),
{
    match term {
        Term::Tuple(items) => {
            if items.len() != count + 1 {
                return None;
            }
            assert(term@.items()[0] == term_view(items@[0]));
            match &items[0] {
                Term::Atom(name) => {
                    if same_text(name.as_str(), tag) {
                        Some(items)
                    } else {
                        None
                    }
                },
                _ => None,
            }
        },
        _ => None,
    }
}

/// Reads a scalar.
pub fn decode_scalar(arg: &Term) -> (result: Result<Scalar, DecodeError>)
    ensures
        result == scalar_of(arg@),
{
    match arg {
        Term::Number(x) => Ok(*x),
        _ => Err(DecodeError::TypeMismatch),
    }
}

/// Reads a vector of one component.
pub fn decode_vector1(arg: &Term) -> (result: Result<Vector1, DecodeError>)
    ensures
        result == vector1_of(arg@),
{
    let items = match tagged_items(arg, "vector1", 1) {
        Some(items) => items,
        None => { return Err(DecodeError::ShapeMismatch); },
    };
    let x = decode_scalar(&items[1])?;
    Ok(Vector1 { x })
}

/// Reads a vector of two components.
pub fn decode_vector2(arg: &Term) -> (result: Result<Vector2, DecodeError>)
    ensures
        result == vector2_of(arg@),
{
    let items = match tagged_items(arg, "vector2", 2) {
        Some(items) => items,
        None => { return Err(DecodeError::ShapeMismatch); },
    };
    let x = decode_scalar(&items[1])?;
    let y = decode_scalar(&items[2])?;
    Ok(Vector2 { x, y })
}

/// Reads a vector of three components.
pub fn decode_vector3(arg: &Term) -> (result: Result<Vector3, DecodeError>)
    ensures
        result == vector3_of(arg@),
{
    let items = match tagged_items(arg, "vector3", 3) {
        Some(items) => items,
        None => { return Err(DecodeError::ShapeMismatch); },
    };
    let x = decode_scalar(&items[1])?;
    let y = decode_scalar(&items[2])?;
    let z = decode_scalar(&items[3])?;
    Ok(Vector3 { x, y, z })
}

/// Reads a vector of four components.
pub fn decode_vector4(arg: &Term) -> (result: Result<Vector4, DecodeError>)
    ensures
        result == vector4_of(arg@),
{
    let items = match tagged_items(arg, "vector4", 4) {
        Some(items) => items,
        None => { return Err(DecodeError::ShapeMismatch); },
    };
    let x = decode_scalar(&items[1])?;
    let y = decode_scalar(&items[2])?;
    let z = decode_scalar(&items[3])?;
    let w = decode_scalar(&items[4])?;
    Ok(Vector4 { x, y, z, w })
}

/// Reads a matrix of two rows.
pub fn decode_matrix2(arg: &Term) -> (result: Result<Matrix2, DecodeError>)
    ensures
        result == matrix2_of(arg@),
{
    let items = match tagged_items(arg, "matrix2", 2) {
        Some(items) => items,
        None => { return Err(DecodeError::ShapeMismatch); },
    };
    let x = decode_vector2(&items[1])?;
    let y = decode_vector2(&items[2])?;
    Ok(Matrix2 { x, y })
}

/// Reads a matrix of three rows.
pub fn decode_matrix3(arg: &Term) -> (result: Result<Matrix3, DecodeError>)
    ensures
        result == matrix3_of(arg@),
{
    let items = match tagged_items(arg, "matrix3", 3) {
        Some(items) => items,
        None => { return Err(DecodeError::ShapeMismatch); },
    };
    let x = decode_vector3(&items[1])?;
    let y = decode_vector3(&items[2])?;
    let z = decode_vector3(&items[3])?;
    Ok(Matrix3 { x, y, z })
}

/// Reads a matrix of four rows.
pub fn decode_matrix4(arg: &Term) -> (result: Result<Matrix4, DecodeError>)
    ensures
        result == matrix4_of(arg@),
{
    let items = match tagged_items(arg, "matrix4", 4) {
        Some(items) => items,
        None => { return Err(DecodeError::ShapeMismatch); },
    };
    let x = decode_vector4(&items[1])?;
    let y = decode_vector4(&items[2])?;
    let z = decode_vector4(&items[3])?;
    let w = decode_vector4(&items[4])?;
    Ok(Matrix4 { x, y, z, w })
}

/// Reads a value of the shape that is expected at the term's place.
pub fn decode(arg: &Term, shape: Shape) -> (result: Result<Value, DecodeError>)
    ensures
        result == decoded(arg@, shape),
{
    match shape {
        Shape::Scalar => match decode_scalar(arg) {
            Ok(x) => Ok(Value::Scalar(x)),
            Err(e) => Err(e),
        },
        Shape::Vector1 => match decode_vector1(arg) {
            Ok(v) => Ok(Value::Vector1(v)),
            Err(e) => Err(e),
        },
        Shape::Vector2 => match decode_vector2(arg) {
            Ok(v) => Ok(Value::Vector2(v)),
            Err(e) => Err(e),
        },
        Shape::Vector3 => match decode_vector3(arg) {
            Ok(v) => Ok(Value::Vector3(v)),
            Err(e) => Err(e),
        },
        Shape::Vector4 => match decode_vector4(arg) {
            Ok(v) => Ok(Value::Vector4(v)),
            Err(e) => Err(e),
        },
        Shape::Matrix2 => match decode_matrix2(arg) {
            Ok(m) => Ok(Value::Matrix2(m)),
            Err(e) => Err(e),
        },
        Shape::Matrix3 => match decode_matrix3(arg) {
            Ok(m) => Ok(Value::Matrix3(m)),
            Err(e) => Err(e),
        },
        Shape::Matrix4 => match decode_matrix4(arg) {
            Ok(m) => Ok(Value::Matrix4(m)),
            Err(e) => Err(e),
        },
    }
}

} // verus!
