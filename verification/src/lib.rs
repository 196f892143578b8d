//! Vectors and square matrices of small fixed dimension on their way across
//! a call boundary: the tagged terms they travel as, the reading and writing
//! of those terms, and the table of operations that a host may call.
//!
//! The numbers themselves are carried as bit patterns. Calculating with them
//! is left to the caller, who is handed a [`dispatch::Request`] once every
//! argument of a call has been read.

pub mod decode;
pub mod dispatch;
pub mod encode;
pub mod laws;
pub mod matrices;
pub mod shape;
pub mod term;
pub mod text;
pub mod vectors;

pub use decode::{
    decode, decode_matrix2, decode_matrix3, decode_matrix4, decode_scalar, decode_vector1,
    decode_vector2, decode_vector3, decode_vector4, DecodeError,
};
pub use dispatch::{
    begin, call, lookup, prepare, respond, CallError, Operation, Operator, Reply, Request,
};
pub use encode::{
    encode, encode_matrix2, encode_matrix3, encode_matrix4, encode_scalar, encode_vector1,
    encode_vector2, encode_vector3, encode_vector4,
};
pub use matrices::{Matrix2, Matrix3, Matrix4};
pub use shape::{Shape, Value};
pub use term::{Scalar, Term};
pub use vectors::{Vector1, Vector2, Vector3, Vector4};
