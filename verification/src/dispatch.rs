//! The fixed table of operations and the handling of one call.
//!
//! An operation is named by the tag of the shape it works on, an underscore
//! and the name of its operator, and takes two arguments. A call names an
//! operation and brings its arguments as terms; they are all read before
//! anything is calculated.

use vstd::prelude::*;
use crate::decode::{decode, decoded, DecodeError};
use crate::encode::{encode, encoded};
use crate::shape::{lemma_tags_differ, Shape, Value};
use crate::term::{items_view, Term, TermView};
use crate::text::{joined, lemma_joined_parts, same_text, split_name};

verus! {

/// What an operation does with its arguments.
#[derive(Clone, Copy, Debug, PartialEq, Eq, Structural)]
pub enum Operator {
    /// The sum of two values of one shape, component by component.
    Add,
    /// The difference of two values of one shape, component by component.
    Sub,
    /// Every component multiplied by a scalar.
    Mul,
    /// Every component divided by a scalar.
    Div,
    /// The remainder of every component by a scalar.
    Mod,
    /// The perpendicular dot product of two vectors of two components.
    PerpDot,
    /// The cross product of two vectors of three components.
    Cross,
}

/// One entry of the table: an operator on a shape.
#[derive(Clone, Copy, Debug, PartialEq, Eq, Structural)]
pub struct Operation {
    pub shape: Shape,
    pub operator: Operator,
}

impl Operator {
    /// The operator's part of an operation's name.
    pub open spec fn name(self) -> Seq<char> {
        match self {
            Operator::Add => "add"@,
            Operator::Sub => "sub"@,
            Operator::Mul => "mul"@,
            Operator::Div => "div"@,
            Operator::Mod => "mod"@,
            Operator::PerpDot => "perp_dot"@,
            Operator::Cross => "cross"@,
        }
    }

    /// The operator that goes by the name `name`, if there is one.
    pub fn from_name(name: &str) -> (found: Option<Operator>)
        ensures
            match found {
                Some(operator) => operator.name() == name@,
                None => forall|operator: Operator| operator.name() != name@,
            },
    {
        if same_text(name, "add") {
            Some(Operator::Add)
        } else if same_text(name, "sub") {
            Some(Operator::Sub)
        } else if same_text(name, "mul") {
            Some(Operator::Mul)
        } else if same_text(name, "div") {
            Some(Operator::Div)
        } else if same_text(name, "mod") {
            Some(Operator::Mod)
        } else if same_text(name, "perp_dot") {
            Some(Operator::PerpDot)
        } else if same_text(name, "cross") {
            Some(Operator::Cross)
        } else {
            None
        }
    }
}

impl Operation {
    /// Whether the table holds this operation. The five componentwise
    /// operators stand for every vector and matrix shape, the perpendicular
    /// dot product for `Vector2` alone and the cross product for `Vector3`
    /// alone.
    pub open spec fn is_registered(self) -> bool {
        &&& self.shape != Shape::Scalar
        &&& self.operator == Operator::PerpDot ==> self.shape == Shape::Vector2
        &&& self.operator == Operator::Cross ==> self.shape == Shape::Vector3
    }

    /// The name under which the host calls this operation.
    pub open spec fn name(self) -> Seq<char> {
        joined(self.shape.tag()->Some_0, self.operator.name())
    }

    /// How many arguments the operation takes.
    pub open spec fn arity(self) -> nat {
        2
    }

    /// Whether a call of `name` with `arity` arguments is a call of this
    /// operation.
    pub open spec fn answers(self, name: Seq<char>, arity: nat) -> bool {
        self.is_registered() && self.name() == name && self.arity() == arity
    }

    /// Whether the table holds this operation.
    pub fn registered(self) -> (yes: bool)
        ensures
            yes == self.is_registered(),
    {
        match self.shape {
            Shape::Scalar => false,
            Shape::Vector2 => !matches!(self.operator, Operator::Cross),
            Shape::Vector3 => !matches!(self.operator, Operator::PerpDot),
            _ => !matches!(self.operator, Operator::PerpDot | Operator::Cross),
        }
    }
}

/// Why a call was turned down.
#[derive(Clone, Copy, Debug, PartialEq, Eq, Structural)]
pub enum CallError {
    /// The table holds no operation of that name with that many arguments.
    UnknownOperation,
    /// The argument at `position`, counted from 0, could not be read.
    Argument { position: usize, reason: DecodeError },
}

/// The operation that a call of `name` with `arity` arguments means, if the
/// table holds one.
pub open spec fn resolve(name: Seq<char>, arity: nat) -> Option<Operation> {
    if exists|operation: Operation| operation.answers(name, arity) {
        Some(choose|operation: Operation| operation.answers(name, arity))
    } else {
        None
    }
}

/// No tag holds an underscore.
proof fn lemma_tag_plain(shape: Shape)
    requires
        shape.tag() is Some,
    ensures
        !shape.tag()->Some_0.contains('_'),
{
    reveal_strlit("vector1");
    reveal_strlit("vector2");
    reveal_strlit("vector3");
    reveal_strlit("vector4");
    reveal_strlit("matrix2");
    reveal_strlit("matrix3");
    reveal_strlit("matrix4");
    let tag = shape.tag()->Some_0;
    assert(tag.len() == 7);
    assert forall|i: int| 0 <= i < tag.len() implies tag[i] != '_' by {
        assert(i == 0 || i == 1 || i == 2 || i == 3 || i == 4 || i == 5 || i == 6);
    }
}

/// Different operators go by different names.
proof fn lemma_operator_names_differ(a: Operator, b: Operator)
    requires
        a != b,
    ensures
        a.name() != b.name(),
{
    reveal_strlit("add");
    reveal_strlit("sub");
    reveal_strlit("mul");
    reveal_strlit("div");
    reveal_strlit("mod");
    reveal_strlit("perp_dot");
    reveal_strlit("cross");
    let s = a.name();
    let t = b.name();
    assert(s.len() != t.len() || s[0] != t[0] || s[1] != t[1]);
}

/// An operation's name shows its shape and its operator.
proof fn lemma_name_parts(operation: Operation, head: Seq<char>, tail: Seq<char>)
    requires
        operation.shape.tag() is Some,
        operation.name() == joined(head, tail),
        !head.contains('_'),
    ensures
        operation.shape.tag() == Some(head),
        operation.operator.name() == tail,
{
    lemma_tag_plain(operation.shape);
    lemma_joined_parts(operation.shape.tag()->Some_0, operation.operator.name(), head, tail);
}

/// Every name of the table belongs to one operation: two registered
/// operations of the same name are the same operation.
pub proof fn lemma_names_identify(a: Operation, b: Operation)
    requires
        a.is_registered(),
        b.is_registered(),
        a.name() == b.name(),
    ensures
        a == b,
{
    lemma_tag_plain(b.shape);
    lemma_name_parts(a, b.shape.tag()->Some_0, b.operator.name());
    if a.shape != b.shape {
        lemma_tags_differ(a.shape, b.shape);
    }
    if a.operator != b.operator {
        lemma_operator_names_differ(a.operator, b.operator);
    }
}

/// A call that an operation answers resolves to that operation.
pub proof fn lemma_resolve(operation: Operation, name: Seq<char>, arity: nat)
    requires
        operation.answers(name, arity),
    ensures
        resolve(name, arity) == Some(operation),
{
    lemma_names_identify(resolve(name, arity)->Some_0, operation);
}

/// Finds the operation that the host means by `name` with `arity`
/// arguments.
pub fn lookup(name: &str, arity: usize) -> (found: Result<Operation, CallError>)
    ensures
        found == match resolve(name@, arity as nat) {
            Some(operation) => Ok::<Operation, CallError>(operation),
            None => Err(CallError::UnknownOperation),
        },
{
    if arity != 2 {
        return Err(CallError::UnknownOperation);
    }
    let (head, tail) = match split_name(name) {
        Some(parts) => parts,
        None => {
            proof {
                assert forall|operation: Operation| !operation.answers(name@, 2) by {
                    if operation.answers(name@, 2) {
                        let tag = operation.shape.tag()->Some_0;
                        assert(operation.name()[tag.len() as int] == '_');
                    }
                }
            }
            return Err(CallError::UnknownOperation);
        },
    };
    proof {
        assert forall|operation: Operation| operation.answers(name@, 2) implies operation.shape.tag()
            == Some(head@) && operation.operator.name() == tail@ by {
            lemma_name_parts(operation, head@, tail@);
        }
    }
    let shape = match Shape::from_tag(head) {
        Some(shape) => shape,
        None => { return Err(CallError::UnknownOperation); },
    };
    let operator = match Operator::from_name(tail) {
        Some(operator) => operator,
        None => { return Err(CallError::UnknownOperation); },
    };
    let operation = Operation { shape, operator };
    if operation.registered() {
        proof {
            lemma_resolve(operation, name@, 2);
        }
        Ok(operation)
    } else {
        proof {
            assert forall|other: Operation| !other.answers(name@, 2) by {
                if other.answers(name@, 2) {
                    if other.shape != shape {
                        lemma_tags_differ(other.shape, shape);
                    }
                    if other.operator != operator {
                        lemma_operator_names_differ(other.operator, operator);
                    }
                }
            }
        }
        Err(CallError::UnknownOperation)
    }
}

impl Operation {
    /// The shape expected of the first argument: the operation's own.
    pub open spec fn lhs_shape(self) -> Shape {
        self.shape
    }

    /// The shape expected of the second argument: a scalar where every
    /// component is multiplied, divided or reduced by it, else the
    /// operation's own shape.
    pub open spec fn rhs_shape(self) -> Shape {
        match self.operator {
            Operator::Mul | Operator::Div | Operator::Mod => Shape::Scalar,
            _ => self.shape,
        }
    }

    /// The shape of the result: a scalar for the perpendicular dot product,
    /// else the operation's own shape.
    pub open spec fn result_shape(self) -> Shape {
        match self.operator {
            Operator::PerpDot => Shape::Scalar,
            _ => self.shape,
        }
    }

    /// The shape expected of the second argument.
    pub fn second_shape(self) -> (shape: Shape)
        ensures
            shape == self.rhs_shape(),
    {
        match self.operator {
            Operator::Mul | Operator::Div | Operator::Mod => Shape::Scalar,
            _ => self.shape,
        }
    }

    /// The shape of the result.
    pub fn output_shape(self) -> (shape: Shape)
        ensures
            shape == self.result_shape(),
    {
        match self.operator {
            Operator::PerpDot => Shape::Scalar,
            _ => self.shape,
        }
    }
}

/// A call whose arguments have all been read: what is left is to calculate.
#[derive(Clone, Copy, Debug, PartialEq, Eq, Structural)]
pub struct Request {
    pub operation: Operation,
    pub lhs: Value,
    pub rhs: Value,
}

impl Request {
    /// The operation is one of the table and both arguments have the shapes
    /// that it expects.
    pub open spec fn is_well_formed(self) -> bool {
        &&& self.operation.is_registered()
        &&& self.lhs.shape() == self.operation.lhs_shape()
        &&& self.rhs.shape() == self.operation.rhs_shape()
    }
}

/// What reading the two arguments of `operation` comes to. The arguments
/// are read in order, and the first that cannot be read gives the error.
pub open spec fn prepared(operation: Operation, lhs: TermView, rhs: TermView) -> Result<
    Request,
    CallError,
> {
    match decoded(lhs, operation.lhs_shape()) {
        Err(reason) => Err(CallError::Argument { position: 0, reason }),
        Ok(left) => match decoded(rhs, operation.rhs_shape()) {
            Err(reason) => Err(CallError::Argument { position: 1, reason }),
            Ok(right) => Ok(Request { operation, lhs: left, rhs: right }),
        },
    }
}

/// What a call of `name` with the arguments `args` comes to before
/// anything is calculated.
pub open spec fn begun(name: Seq<char>, args: Seq<TermView>) -> Result<Request, CallError> {
    match resolve(name, args.len()) {
        None => Err(CallError::UnknownOperation),
        Some(operation) => prepared(operation, args[0], args[1]),
    }
}

/// A value that was read against a shape has that shape.
pub proof fn lemma_decoded_shape(term: TermView, shape: Shape)
    requires
        decoded(term, shape) is Ok,
    ensures
        decoded(term, shape)->Ok_0.shape() == shape,
{
}

/// Reads the two arguments of an operation.
pub fn prepare(operation: Operation, lhs: &Term, rhs: &Term) -> (result: Result<
    Request,
    CallError,
>)
    ensures
        result == prepared(operation, lhs@, rhs@),
        result is Ok && operation.is_registered() ==> result->Ok_0.is_well_formed(),
{
    let left = match decode(lhs, operation.shape) {
        Ok(value) => value,
        Err(reason) => { return Err(CallError::Argument { position: 0, reason }); },
    };
    let right = match decode(rhs, operation.second_shape()) {
        Ok(value) => value,
        Err(reason) => { return Err(CallError::Argument { position: 1, reason }); },
    };
    proof {
        lemma_decoded_shape(lhs@, operation.lhs_shape());
        lemma_decoded_shape(rhs@, operation.rhs_shape());
    }
    Ok(Request { operation, lhs: left, rhs: right })
}

/// Takes a call up to the point where the calculation starts: finds the
/// operation and reads every argument. Nothing has been calculated when
/// this fails.
pub fn begin(name: &str, args: &Vec<Term>) -> (result: Result<Request, CallError>)
    ensures
        result == begun(name@, items_view(args@)),
        result is Ok ==> result->Ok_0.is_well_formed(),
{
    let operation = lookup(name, args.len())?;
    prepare(operation, &args[0], &args[1])
}

/// What goes back to the host.
#[derive(Debug, PartialEq, Eq)]
pub enum Reply {
    /// The call went through: the encoded result.
    Success(Term),
    /// The call was turned down, and why.
    Failure(CallError),
}

/// Wraps the outcome of a call: a result is encoded and marked as a
/// success, an error is marked as a failure.
pub fn respond(outcome: Result<Value, CallError>) -> (reply: Reply)
    ensures
        match outcome {
            Ok(value) => reply is Success && reply->Success_0@ == encoded(value),
            Err(error) => reply is Failure && reply->Failure_0 == error,
        },
{
    match outcome {
        Ok(value) => Reply::Success(encode(value)),
        Err(error) => Reply::Failure(error),
    }
}

/// Handles one call from end to end. The operation is found and both
/// arguments are read; only then `compute` is run, once, on the request;
/// what it returns is encoded and handed back as a success. Where the
/// operation is unknown or an argument cannot be read, `compute` is not run
/// and the reply is that failure.
pub fn call<F: FnOnce(Request) -> Value>(name: &str, args: &Vec<Term>, compute: F) -> (reply:
    Reply)
    requires
        forall|request: Request| request.is_well_formed() ==> compute.requires((request,)),
    ensures
        match begun(name@, items_view(args@)) {
            Ok(request) => reply is Success && exists|value: Value|
                compute.ensures((request,), value) && reply->Success_0@ == encoded(value),
            Err(error) => reply is Failure && reply->Failure_0 == error,
        },
{
    match begin(name, args) {
        Ok(request) => {
            let value = compute(request);
            respond(Ok(value))
        },
        Err(error) => respond(Err(error)),
    }
}

} // verus!
