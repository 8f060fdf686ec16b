//! Elaborated expressions, as far as constant evaluation reads them.

use crate::bignum::BinaryBitwiseOp;
use crate::token::Span;
use crate::ty::Type;
use crate::value::ValueData;
use vstd::prelude::*;

verus! {

/// The casts that constant evaluation lets through unchanged.
#[derive(Clone, Copy, Debug, PartialEq, Eq, Structural)]
pub enum CastKind {
    ValueDomain,
    VectorToAtom,
    AtomToVector,
    Sign,
    Truncate,
    ZeroExtend,
    SignExtend,
}

/// The bitwise operations on one operand.
#[derive(Clone, Copy, Debug, PartialEq, Eq, Structural)]
pub enum UnaryBitwiseOp {
    Not,
}

/// The arithmetic operations on one operand.
#[derive(Clone, Copy, Debug, PartialEq, Eq, Structural)]
pub enum IntUnaryArithOp {
    Neg,
}

/// The arithmetic operations on two operands.
#[derive(Clone, Copy, Debug, PartialEq, Eq, Structural)]
pub enum IntBinaryArithOp {
    Add,
    Sub,
    Mul,
    Div,
    Mod,
    Pow,
}

/// The comparisons.
#[derive(Clone, Copy, Debug, PartialEq, Eq, Structural)]
pub enum IntCompOp {
    Eq,
    Neq,
    Lt,
    Leq,
    Gt,
    Geq,
}

/// The directions of a shift.
#[derive(Clone, Copy, Debug, PartialEq, Eq, Structural)]
pub enum ShiftOp {
    Left,
    Right,
}

/// An expression that yields a value: its type, where it stands, and what
/// it computes.
#[derive(Debug)]
pub struct Rvalue {
    pub ty: Type,
    pub span: Span,
    pub kind: RvalueKind,
}

/// What an expression computes.
#[derive(Debug)]
#[allow(inconsistent_fields)]
pub enum RvalueKind {
    /// A constant.
    Const(ValueData),
    /// A cast of a value.
    Cast(CastKind, Box<Rvalue>),
    /// The truth of a value as one bit.
    CastToBool(Box<Rvalue>),
    /// An array of the given elements.
    ConstructArray(Vec<Rvalue>),
    /// A struct of the given fields.
    ConstructStruct(Vec<Rvalue>),
    /// A bitwise operation on one operand.
    UnaryBitwise { op: UnaryBitwiseOp, arg: Box<Rvalue> },
    /// A bitwise operation on two operands.
    BinaryBitwise { op: BinaryBitwiseOp, lhs: Box<Rvalue>, rhs: Box<Rvalue> },
    /// An arithmetic operation on one operand.
    IntUnaryArith { op: IntUnaryArithOp, arg: Box<Rvalue> },
    /// An arithmetic operation on two operands.
    IntBinaryArith { op: IntBinaryArithOp, lhs: Box<Rvalue>, rhs: Box<Rvalue> },
    /// A comparison.
    IntComp { op: IntCompOp, lhs: Box<Rvalue>, rhs: Box<Rvalue> },
    /// The operands side by side, the first one in the highest bits.
    Concat(Vec<Rvalue>),
    /// One operand a number of times side by side.
    Repeat(usize, Box<Rvalue>),
    /// A shift.
    Shift { op: ShiftOp, arith: bool, value: Box<Rvalue>, amount: Box<Rvalue> },
    /// A reduction of all bits of the operand to one bit.
    Reduction { op: BinaryBitwiseOp, arg: Box<Rvalue> },
    /// A choice between two values.
    Ternary { cond: Box<Rvalue>, true_value: Box<Rvalue>, false_value: Box<Rvalue> },
    /// A field of a struct or an element of an array.
    Member { value: Box<Rvalue>, field: usize },
    /// A variable.
    Var,
    /// A port.
    Port,
    /// An assignment.
    Assignment,
    /// A slice of a value.
    Index,
    /// An expression that failed to elaborate.
    Error,
}

} // verus!
