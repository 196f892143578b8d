//! The closed set of shapes a value can have, and the values themselves.

use vstd::prelude::*;
use crate::matrices::{Matrix2, Matrix3, Matrix4};
use crate::term::Scalar;
use crate::text::same_text;
use crate::vectors::{Vector1, Vector2, Vector3, Vector4};

verus! {

/// What kind of value stands at some place of a call.
#[derive(Clone, Copy, Debug, PartialEq, Eq, Structural)]
pub enum Shape {
    Scalar,
    Vector1,
    Vector2,
    Vector3,
    Vector4,
    Matrix2,
    Matrix3,
    Matrix4,
}

/// A value of any of the shapes.
#[derive(Clone, Copy, Debug, PartialEq, Eq, Structural)]
pub enum Value {
    Scalar(Scalar),
    Vector1(Vector1),
    Vector2(Vector2),
    Vector3(Vector3),
    Vector4(Vector4),
    Matrix2(Matrix2),
    Matrix3(Matrix3),
    Matrix4(Matrix4),
}

impl Shape {
    /// The name under which values of this shape travel. A scalar travels
    /// bare and has none.
    pub open spec fn tag(self) -> Option<Seq<char>> {
        match self {
            Shape::Scalar => None,
            Shape::Vector1 => Some("vector1"@),
            Shape::Vector2 => Some("vector2"@),
            Shape::Vector3 => Some("vector3"@),
            Shape::Vector4 => Some("vector4"@),
            Shape::Matrix2 => Some("matrix2"@),
            Shape::Matrix3 => Some("matrix3"@),
            Shape::Matrix4 => Some("matrix4"@),
        }
    }

    /// The shape that travels under the name `tag`, if there is one.
    pub fn from_tag(tag: &str) -> (found: Option<Shape>)
        ensures
            match found {
                Some(shape) => shape.tag() == Some(tag@),
                None => forall|shape: Shape| shape.tag() != Some(tag@),
            },
    {
        if same_text(tag, "vector1") {
            Some(Shape::Vector1)
        } else if same_text(tag, "vector2") {
            Some(Shape::Vector2)
        } else if same_text(tag, "vector3") {
            Some(Shape::Vector3)
        } else if same_text(tag, "vector4") {
            Some(Shape::Vector4)
        } else if same_text(tag, "matrix2") {
            Some(Shape::Matrix2)
        } else if same_text(tag, "matrix3") {
            Some(Shape::Matrix3)
        } else if same_text(tag, "matrix4") {
            Some(Shape::Matrix4)
        } else {
            None
        }
    }
}

impl Value {
    /// The shape of this value.
    pub open spec fn shape_of(self) -> Shape {
        match self {
            Value::Scalar(_) => Shape::Scalar,
            Value::Vector1(_) => Shape::Vector1,
            Value::Vector2(_) => Shape::Vector2,
            Value::Vector3(_) => Shape::Vector3,
            Value::Vector4(_) => Shape::Vector4,
            Value::Matrix2(_) => Shape::Matrix2,
            Value::Matrix3(_) => Shape::Matrix3,
            Value::Matrix4(_) => Shape::Matrix4,
        }
    }

    /// The shape of this value.
    #[verifier::when_used_as_spec(shape_of)]
    pub fn shape(self) -> (shape: Shape)
        ensures
            shape == self.shape_of(),
    {
        match self {
            Value::Scalar(_) => Shape::Scalar,
            Value::Vector1(_) => Shape::Vector1,
            Value::Vector2(_) => Shape::Vector2,
            Value::Vector3(_) => Shape::Vector3,
            Value::Vector4(_) => Shape::Vector4,
            Value::Matrix2(_) => Shape::Matrix2,
            Value::Matrix3(_) => Shape::Matrix3,
            Value::Matrix4(_) => Shape::Matrix4,
        }
    }
}

/// The tags of two different shapes are different names.
pub proof fn lemma_tags_differ(a: Shape, b: Shape)
    requires
        a != b,
        a.tag() is Some,
        b.tag() is Some,
    ensures
        a.tag() != b.tag(),
{
    reveal_strlit("vector1");
    reveal_strlit("vector2");
    reveal_strlit("vector3");
    reveal_strlit("vector4");
    reveal_strlit("matrix2");
    reveal_strlit("matrix3");
    reveal_strlit("matrix4");
    let s = a.tag()->Some_0;
    let t = b.tag()->Some_0;
    assert(s.len() == 7 && t.len() == 7);
    assert(s[0] != t[0] || s[6] != t[6]);
}

} // verus!
