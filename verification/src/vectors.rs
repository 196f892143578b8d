//! Vectors of one to four components.

use vstd::prelude::*;
use crate::term::Scalar;

verus! {

/// A vector of one component.
#[derive(Clone, Copy, Debug, PartialEq, Eq, Structural)]
pub struct Vector1 {
    pub x: Scalar,
}

/// A vector of two components.
#[derive(Clone, Copy, Debug, PartialEq, Eq, Structural)]
pub struct Vector2 {
    pub x: Scalar,
    pub y: Scalar,
}

/// A vector of three components.
#[derive(Clone, Copy, Debug, PartialEq, Eq, Structural)]
pub struct Vector3 {
    pub x: Scalar,
    pub y: Scalar,
    pub z: Scalar,
}

/// A vector of four components.
#[derive(Clone, Copy, Debug, PartialEq, Eq, Structural)]
pub struct Vector4 {
    pub x: Scalar,
    pub y: Scalar,
    pub z: Scalar,
    pub w: Scalar,
}

} // verus!
