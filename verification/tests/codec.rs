use kinemat_matrix::{
    decode, decode_matrix2, decode_matrix3, decode_matrix4, decode_scalar, decode_vector1,
    decode_vector2, decode_vector3, decode_vector4, encode, encode_matrix2, encode_matrix3,
    encode_matrix4, encode_scalar, encode_vector1, encode_vector2, encode_vector3,
    encode_vector4, DecodeError, Matrix2, Matrix3, Matrix4, Scalar, Shape, Term, Value, Vector1,
    Vector2, Vector3, Vector4,
};

fn num(x: f64) -> Scalar {
    Scalar { bits: x.to_bits() }
}

fn number(x: f64) -> Term {
    Term::Number(num(x))
}

fn atom(name: &str) -> Term {
    Term::Atom(name.to_string())
}

fn tagged(tag: &str, rest: Vec<Term>) -> Term {
    let mut items = vec![atom(tag)];
    items.extend(rest);
    Term::Tuple(items)
}

fn v2(x: f64, y: f64) -> Vector2 {
    Vector2 { x: num(x), y: num(y) }
}

fn v3(x: f64, y: f64, z: f64) -> Vector3 {
    Vector3 { x: num(x), y: num(y), z: num(z) }
}

fn v4(x: f64, y: f64, z: f64, w: f64) -> Vector4 {
    Vector4 { x: num(x), y: num(y), z: num(z), w: num(w) }
}

fn v2_term(x: f64, y: f64) -> Term {
    tagged("vector2", vec![number(x), number(y)])
}

fn v3_term(x: f64, y: f64, z: f64) -> Term {
    tagged("vector3", vec![number(x), number(y), number(z)])
}

fn v4_term(x: f64, y: f64, z: f64, w: f64) -> Term {
    tagged("vector4", vec![number(x), number(y), number(z), number(w)])
}

#[test]
fn scalar_is_encoded_bare() {
    assert_eq!(encode_scalar(num(2.5)), Term::Number(Scalar { bits: 0x4004_0000_0000_0000 }));
}

#[test]
fn vector1_is_encoded_as_tag_and_x() {
    let term = encode_vector1(Vector1 { x: num(1.5) });
    assert_eq!(term, Term::Tuple(vec![atom("vector1"), number(1.5)]));
}

#[test]
fn vector2_is_encoded_in_component_order() {
    assert_eq!(
        encode_vector2(v2(1.0, 2.0)),
        Term::Tuple(vec![atom("vector2"), number(1.0), number(2.0)])
    );
}

#[test]
fn vector3_is_encoded_in_component_order() {
    assert_eq!(
        encode_vector3(v3(1.0, 2.0, 3.0)),
        Term::Tuple(vec![atom("vector3"), number(1.0), number(2.0), number(3.0)])
    );
}

#[test]
fn vector4_is_encoded_in_component_order() {
    assert_eq!(
        encode_vector4(v4(1.0, 2.0, 3.0, 4.0)),
        Term::Tuple(vec![atom("vector4"), number(1.0), number(2.0), number(3.0), number(4.0)])
    );
}

#[test]
fn matrix2_is_encoded_row_by_row() {
    let m = Matrix2 { x: v2(1.0, 2.0), y: v2(3.0, 4.0) };
    assert_eq!(
        encode_matrix2(m),
        Term::Tuple(vec![atom("matrix2"), v2_term(1.0, 2.0), v2_term(3.0, 4.0)])
    );
}

#[test]
fn matrix3_is_encoded_row_by_row() {
    let m = Matrix3 { x: v3(1.0, 2.0, 3.0), y: v3(4.0, 5.0, 6.0), z: v3(7.0, 8.0, 9.0) };
    assert_eq!(
        encode_matrix3(m),
        Term::Tuple(vec![
            atom("matrix3"),
            v3_term(1.0, 2.0, 3.0),
            v3_term(4.0, 5.0, 6.0),
            v3_term(7.0, 8.0, 9.0),
        ])
    );
}

#[test]
fn matrix4_is_encoded_row_by_row() {
    let m = Matrix4 {
        x: v4(1.0, 2.0, 3.0, 4.0),
        y: v4(5.0, 6.0, 7.0, 8.0),
        z: v4(9.0, 10.0, 11.0, 12.0),
        w: v4(13.0, 14.0, 15.0, 16.0),
    };
    assert_eq!(
        encode_matrix4(m),
        Term::Tuple(vec![
            atom("matrix4"),
            v4_term(1.0, 2.0, 3.0, 4.0),
            v4_term(5.0, 6.0, 7.0, 8.0),
            v4_term(9.0, 10.0, 11.0, 12.0),
            v4_term(13.0, 14.0, 15.0, 16.0),
        ])
    );
}

#[test]
fn encode_goes_by_the_shape_of_the_value() {
    assert_eq!(encode(Value::Scalar(num(7.0))), number(7.0));
    assert_eq!(encode(Value::Vector1(Vector1 { x: num(7.0) })), tagged("vector1", vec![number(7.0)]));
    assert_eq!(encode(Value::Vector2(v2(1.0, 2.0))), v2_term(1.0, 2.0));
    assert_eq!(encode(Value::Vector3(v3(1.0, 2.0, 3.0))), v3_term(1.0, 2.0, 3.0));
    assert_eq!(encode(Value::Vector4(v4(1.0, 2.0, 3.0, 4.0))), v4_term(1.0, 2.0, 3.0, 4.0));
    let m = Matrix2 { x: v2(1.0, 2.0), y: v2(3.0, 4.0) };
    assert_eq!(encode(Value::Matrix2(m)), encode_matrix2(m));
}

#[test]
fn scalar_is_decoded_from_a_number_only() {
    assert_eq!(decode_scalar(&number(3.25)), Ok(num(3.25)));
    assert_eq!(decode_scalar(&atom("three")), Err(DecodeError::TypeMismatch));
    assert_eq!(decode_scalar(&v2_term(1.0, 2.0)), Err(DecodeError::TypeMismatch));
    assert_eq!(decode_scalar(&Term::Opaque), Err(DecodeError::TypeMismatch));
}

#[test]
fn vector1_is_decoded() {
    assert_eq!(decode_vector1(&tagged("vector1", vec![number(9.0)])), Ok(Vector1 { x: num(9.0) }));
}

#[test]
fn vector2_is_decoded() {
    assert_eq!(decode_vector2(&v2_term(5.0, 7.0)), Ok(v2(5.0, 7.0)));
}

#[test]
fn vector3_is_decoded() {
    assert_eq!(decode_vector3(&v3_term(1.0, -2.0, 3.0)), Ok(v3(1.0, -2.0, 3.0)));
}

#[test]
fn vector4_is_decoded() {
    assert_eq!(decode_vector4(&v4_term(1.0, 2.0, 3.0, 4.0)), Ok(v4(1.0, 2.0, 3.0, 4.0)));
}

#[test]
fn matrix2_is_decoded() {
    let term = tagged("matrix2", vec![v2_term(1.0, 2.0), v2_term(3.0, 4.0)]);
    assert_eq!(decode_matrix2(&term), Ok(Matrix2 { x: v2(1.0, 2.0), y: v2(3.0, 4.0) }));
}

#[test]
fn matrix3_is_decoded() {
    let term = tagged(
        "matrix3",
        vec![v3_term(1.0, 2.0, 3.0), v3_term(4.0, 5.0, 6.0), v3_term(7.0, 8.0, 9.0)],
    );
    assert_eq!(
        decode_matrix3(&term),
        Ok(Matrix3 { x: v3(1.0, 2.0, 3.0), y: v3(4.0, 5.0, 6.0), z: v3(7.0, 8.0, 9.0) })
    );
}

#[test]
fn matrix4_is_decoded() {
    let term = tagged(
        "matrix4",
        vec![
            v4_term(1.0, 2.0, 3.0, 4.0),
            v4_term(5.0, 6.0, 7.0, 8.0),
            v4_term(9.0, 10.0, 11.0, 12.0),
            v4_term(13.0, 14.0, 15.0, 16.0),
        ],
    );
    assert_eq!(
        decode_matrix4(&term),
        Ok(Matrix4 {
            x: v4(1.0, 2.0, 3.0, 4.0),
            y: v4(5.0, 6.0, 7.0, 8.0),
            z: v4(9.0, 10.0, 11.0, 12.0),
            w: v4(13.0, 14.0, 15.0, 16.0),
        })
    );
}

#[test]
fn vector3_term_is_no_vector2() {
    assert_eq!(decode_vector2(&v3_term(1.0, 2.0, 3.0)), Err(DecodeError::ShapeMismatch));
    assert_eq!(decode(&v3_term(1.0, 2.0, 3.0), Shape::Vector2), Err(DecodeError::ShapeMismatch));
}

#[test]
fn vector2_term_is_no_vector3() {
    assert_eq!(decode_vector3(&v2_term(1.0, 2.0)), Err(DecodeError::ShapeMismatch));
}

#[test]
fn wrong_tag_is_a_shape_mismatch() {
    let term = tagged("vector3", vec![number(1.0), number(2.0)]);
    assert_eq!(decode_vector2(&term), Err(DecodeError::ShapeMismatch));
    let term = tagged("Vector2", vec![number(1.0), number(2.0)]);
    assert_eq!(decode_vector2(&term), Err(DecodeError::ShapeMismatch));
    let term = tagged("vector", vec![number(1.0), number(2.0)]);
    assert_eq!(decode_vector2(&term), Err(DecodeError::ShapeMismatch));
    let term = tagged("matrix2", vec![number(1.0), number(2.0)]);
    assert_eq!(decode_vector2(&term), Err(DecodeError::ShapeMismatch));
}

#[test]
fn wrong_count_is_a_shape_mismatch() {
    let short = tagged("vector2", vec![number(1.0)]);
    assert_eq!(decode_vector2(&short), Err(DecodeError::ShapeMismatch));
    let long = tagged("vector2", vec![number(1.0), number(2.0), number(3.0)]);
    assert_eq!(decode_vector2(&long), Err(DecodeError::ShapeMismatch));
    let bare = tagged("vector1", vec![]);
    assert_eq!(decode_vector1(&bare), Err(DecodeError::ShapeMismatch));
    let long = tagged("vector4", vec![number(1.0); 5]);
    assert_eq!(decode_vector4(&long), Err(DecodeError::ShapeMismatch));
}

#[test]
fn what_is_no_tagged_tuple_is_a_shape_mismatch() {
    assert_eq!(decode_vector1(&number(1.0)), Err(DecodeError::ShapeMismatch));
    assert_eq!(decode_vector2(&atom("vector2")), Err(DecodeError::ShapeMismatch));
    assert_eq!(decode_vector3(&Term::Opaque), Err(DecodeError::ShapeMismatch));
    assert_eq!(decode_vector4(&Term::Tuple(vec![])), Err(DecodeError::ShapeMismatch));
    let untagged = Term::Tuple(vec![number(0.0), number(1.0), number(2.0)]);
    assert_eq!(decode_vector2(&untagged), Err(DecodeError::ShapeMismatch));
    assert_eq!(decode_matrix2(&Term::Opaque), Err(DecodeError::ShapeMismatch));
    assert_eq!(decode_matrix3(&number(1.0)), Err(DecodeError::ShapeMismatch));
    assert_eq!(decode_matrix4(&Term::Tuple(vec![])), Err(DecodeError::ShapeMismatch));
}

#[test]
fn component_that_is_no_number_is_a_type_mismatch() {
    let term = tagged("vector1", vec![atom("x")]);
    assert_eq!(decode_vector1(&term), Err(DecodeError::TypeMismatch));
    let term = tagged("vector2", vec![number(1.0), atom("y")]);
    assert_eq!(decode_vector2(&term), Err(DecodeError::TypeMismatch));
    let term = tagged("vector3", vec![number(1.0), Term::Opaque, number(3.0)]);
    assert_eq!(decode_vector3(&term), Err(DecodeError::TypeMismatch));
    let term = tagged("vector4", vec![number(1.0), number(2.0), number(3.0), v2_term(1.0, 2.0)]);
    assert_eq!(decode_vector4(&term), Err(DecodeError::TypeMismatch));
}

#[test]
fn shape_is_checked_before_the_components() {
    let term = tagged("vector2", vec![atom("x"), number(2.0), number(3.0)]);
    assert_eq!(decode_vector2(&term), Err(DecodeError::ShapeMismatch));
    let term = tagged("vector3", vec![atom("x"), atom("y")]);
    assert_eq!(decode_vector2(&term), Err(DecodeError::ShapeMismatch));
}

#[test]
fn matrix_with_a_row_of_another_shape_is_a_shape_mismatch() {
    let term = tagged("matrix2", vec![v2_term(1.0, 2.0), v3_term(3.0, 4.0, 5.0)]);
    assert_eq!(decode_matrix2(&term), Err(DecodeError::ShapeMismatch));
    let term = tagged("matrix2", vec![number(1.0), number(2.0)]);
    assert_eq!(decode_matrix2(&term), Err(DecodeError::ShapeMismatch));
    let term = tagged(
        "matrix3",
        vec![v3_term(1.0, 2.0, 3.0), v3_term(4.0, 5.0, 6.0), v4_term(7.0, 8.0, 9.0, 10.0)],
    );
    assert_eq!(decode_matrix3(&term), Err(DecodeError::ShapeMismatch));
}

#[test]
fn matrix_with_too_few_or_too_many_rows_is_a_shape_mismatch() {
    let term = tagged("matrix2", vec![v2_term(1.0, 2.0)]);
    assert_eq!(decode_matrix2(&term), Err(DecodeError::ShapeMismatch));
    let term = tagged("matrix2", vec![v2_term(1.0, 2.0), v2_term(3.0, 4.0), v2_term(5.0, 6.0)]);
    assert_eq!(decode_matrix2(&term), Err(DecodeError::ShapeMismatch));
    let term = tagged("matrix3", vec![v2_term(1.0, 2.0), v2_term(3.0, 4.0)]);
    assert_eq!(decode_matrix2(&term), Err(DecodeError::ShapeMismatch));
}

#[test]
fn matrix_with_a_component_that_is_no_number_is_a_type_mismatch() {
    let bad_row = tagged("vector2", vec![number(3.0), atom("four")]);
    let term = tagged("matrix2", vec![v2_term(1.0, 2.0), bad_row]);
    assert_eq!(decode_matrix2(&term), Err(DecodeError::TypeMismatch));
}

#[test]
fn first_row_that_fails_gives_the_error() {
    let typed_wrong = tagged("vector2", vec![number(1.0), atom("two")]);
    let term = tagged("matrix2", vec![typed_wrong, v3_term(3.0, 4.0, 5.0)]);
    assert_eq!(decode_matrix2(&term), Err(DecodeError::TypeMismatch));
    let typed_wrong = tagged("vector2", vec![number(1.0), atom("two")]);
    let term = tagged("matrix2", vec![v3_term(3.0, 4.0, 5.0), typed_wrong]);
    assert_eq!(decode_matrix2(&term), Err(DecodeError::ShapeMismatch));
    let typed_wrong = tagged("vector4", vec![number(1.0), atom("two"), number(3.0), number(4.0)]);
    let term = tagged(
        "matrix4",
        vec![
            v4_term(1.0, 2.0, 3.0, 4.0),
            v4_term(1.0, 2.0, 3.0, 4.0),
            typed_wrong,
            v2_term(0.0, 0.0),
        ],
    );
    assert_eq!(decode_matrix4(&term), Err(DecodeError::TypeMismatch));
}

#[test]
fn decode_goes_by_the_expected_shape() {
    assert_eq!(decode(&number(4.0), Shape::Scalar), Ok(Value::Scalar(num(4.0))));
    assert_eq!(decode(&v2_term(1.0, 2.0), Shape::Scalar), Err(DecodeError::TypeMismatch));
    assert_eq!(decode(&number(4.0), Shape::Vector1), Err(DecodeError::ShapeMismatch));
    assert_eq!(
        decode(&tagged("vector1", vec![number(4.0)]), Shape::Vector1),
        Ok(Value::Vector1(Vector1 { x: num(4.0) }))
    );
    assert_eq!(decode(&v2_term(1.0, 2.0), Shape::Vector2), Ok(Value::Vector2(v2(1.0, 2.0))));
    assert_eq!(
        decode(&v3_term(1.0, 2.0, 3.0), Shape::Vector3),
        Ok(Value::Vector3(v3(1.0, 2.0, 3.0)))
    );
    assert_eq!(
        decode(&v4_term(1.0, 2.0, 3.0, 4.0), Shape::Vector4),
        Ok(Value::Vector4(v4(1.0, 2.0, 3.0, 4.0)))
    );
    let m = Matrix3 { x: v3(1.0, 2.0, 3.0), y: v3(4.0, 5.0, 6.0), z: v3(7.0, 8.0, 9.0) };
    assert_eq!(decode(&encode_matrix3(m), Shape::Matrix3), Ok(Value::Matrix3(m)));
    assert_eq!(decode(&encode_matrix3(m), Shape::Matrix4), Err(DecodeError::ShapeMismatch));
    assert_eq!(decode(&encode_matrix3(m), Shape::Vector3), Err(DecodeError::ShapeMismatch));
}

#[test]
fn every_shape_survives_the_round_trip() {
    let values = vec![
        Value::Scalar(num(-0.5)),
        Value::Vector1(Vector1 { x: num(1.0) }),
        Value::Vector2(v2(1.0, -2.0)),
        Value::Vector3(v3(1.0, 2.0e300, 3.0e-300)),
        Value::Vector4(v4(1.0, 2.0, 3.0, 4.0)),
        Value::Matrix2(Matrix2 { x: v2(1.0, 2.0), y: v2(3.0, 4.0) }),
        Value::Matrix3(Matrix3 { x: v3(1.0, 2.0, 3.0), y: v3(4.0, 5.0, 6.0), z: v3(7.0, 8.0, 9.0) }),
        Value::Matrix4(Matrix4 {
            x: v4(1.0, 2.0, 3.0, 4.0),
            y: v4(5.0, 6.0, 7.0, 8.0),
            z: v4(9.0, 10.0, 11.0, 12.0),
            w: v4(13.0, 14.0, 15.0, 16.0),
        }),
    ];
    for value in values {
        let term = encode(value);
        let back = decode(&term, value.shape());
        assert_eq!(back, Ok(value));
        assert_eq!(encode(back.unwrap()), term);
    }
}

#[test]
fn values_that_are_no_finite_numbers_pass_through_unchanged() {
    let nan = Scalar { bits: 0x7ff8_0000_0000_beef };
    let v = Vector4 {
        x: nan,
        y: num(f64::INFINITY),
        z: num(f64::NEG_INFINITY),
        w: num(-0.0),
    };
    let back = decode_vector4(&encode_vector4(v)).unwrap();
    assert_eq!(back.x.bits, 0x7ff8_0000_0000_beef);
    assert_eq!(back.y.bits, 0x7ff0_0000_0000_0000);
    assert_eq!(back.z.bits, 0xfff0_0000_0000_0000);
    assert_eq!(back.w.bits, 0x8000_0000_0000_0000);
    assert!(f64::from_bits(back.x.bits).is_nan());
}

#[test]
fn value_knows_its_shape() {
    assert_eq!(Value::Scalar(num(1.0)).shape(), Shape::Scalar);
    assert_eq!(Value::Vector2(v2(1.0, 2.0)).shape(), Shape::Vector2);
    assert_eq!(
        Value::Matrix2(Matrix2 { x: v2(1.0, 2.0), y: v2(3.0, 4.0) }).shape(),
        Shape::Matrix2
    );
}

#[test]
fn shape_is_found_by_its_tag() {
    assert_eq!(Shape::from_tag("vector1"), Some(Shape::Vector1));
    assert_eq!(Shape::from_tag("vector2"), Some(Shape::Vector2));
    assert_eq!(Shape::from_tag("vector3"), Some(Shape::Vector3));
    assert_eq!(Shape::from_tag("vector4"), Some(Shape::Vector4));
    assert_eq!(Shape::from_tag("matrix2"), Some(Shape::Matrix2));
    assert_eq!(Shape::from_tag("matrix3"), Some(Shape::Matrix3));
    assert_eq!(Shape::from_tag("matrix4"), Some(Shape::Matrix4));
    assert_eq!(Shape::from_tag("matrix1"), None);
    assert_eq!(Shape::from_tag("vector5"), None);
    assert_eq!(Shape::from_tag("scalar"), None);
    assert_eq!(Shape::from_tag(""), None);
    assert_eq!(Shape::from_tag("vector22"), None);
}

#[test]
fn copy_of_a_term_is_the_same_term() {
    let m = Matrix2 { x: v2(1.0, 2.0), y: v2(3.0, 4.0) };
    let term = encode_matrix2(m);
    let copy = term.clone();
    assert_eq!(copy, term);
    assert_eq!(decode_matrix2(&copy), Ok(m));
    assert_eq!(Term::Opaque.clone(), Term::Opaque);
    assert_eq!(atom("vector1").clone(), atom("vector1"));
}
