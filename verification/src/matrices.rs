//! Square matrices of two to four rows, stored row by row.

use vstd::prelude::*;
use crate::vectors::{Vector2, Vector3, Vector4};

verus! {

/// Two rows of two components.
#[derive(Clone, Copy, Debug, PartialEq, Eq, Structural)]
pub struct Matrix2 {
    pub x: Vector2,
    pub y: Vector2,
}

/// Three rows of three components.
#[derive(Clone, Copy, Debug, PartialEq, Eq, Structural)]
pub struct Matrix3 {
    pub x: Vector3,
    pub y: Vector3,
    pub z: Vector3,
}

/// Four rows of four components.
#[derive(Clone, Copy, Debug, PartialEq, Eq, Structural)]
pub struct Matrix4 {
    pub x: Vector4,
    pub y: Vector4,
    pub z: Vector4,
    pub w: Vector4,
}

} // verus!
