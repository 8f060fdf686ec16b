//! The declarations of the syntax tree that the front end hands on.

use crate::token::Span;
use vstd::prelude::*;

verus! {

/// An interned name: the index of its text in the name table.
#[derive(Clone, Copy, Debug, PartialEq, Eq, Hash, Structural)]
pub struct Name(pub u32);

/// A module declaration.
pub struct ModDecl {
    pub span: Span,
    pub lifetime: Lifetime,
    pub name: Name,
    pub name_span: Span,
    pub ports: Vec<Port>,
}

/// An interface declaration.
pub struct IntfDecl {
    pub span: Span,
    pub lifetime: Lifetime,
    pub name: Name,
    pub name_span: Span,
    pub ports: Vec<Port>,
}

/// Lifetime specifier for variables, tasks, and functions. Defaults to
/// static.
#[derive(Debug, Clone, PartialEq, Eq)]
pub enum Lifetime {
    Static,
    Automatic,
}

/// A type as it is written in the source.
#[derive(Debug, Clone, PartialEq, Eq)]
pub struct Type {
    pub span: Span,
    pub data: TypeData,
    pub sign: TypeSign,
    pub dims: Vec<TypeDim>,
}

/// What a written type names.
#[derive(Debug, Clone, Copy, PartialEq, Eq)]
pub enum TypeData {
    ImplicitType,
    NamedType(Name),
    BitType,
    LogicType,
    RegType,
    ByteType,
    ShortIntType,
    IntType,
    LongIntType,
    TimeType,
}

/// The signedness that a written type asks for.
#[derive(Debug, Clone, Copy, PartialEq, Eq)]
pub enum TypeSign {
    NoSign,
    Signed,
    Unsigned,
}

/// A dimension of a written type.
#[derive(Debug, Clone, PartialEq, Eq)]
pub enum TypeDim {
    Expr,
    Range,
    Queue,
    Unsized,
    Associative,
}

/// A port of a module or an interface.
#[derive(Debug, Clone, PartialEq, Eq)]
pub struct Port {
    pub span: Span,
    pub name: Name,
    pub name_span: Span,
    pub kind: PortKind,
    pub ty: Type,
    pub dir: PortDir,
    pub dims: Vec<TypeDim>,
}

/// Whether a port is a net or a variable.
#[derive(Debug, Clone, Copy, PartialEq, Eq)]
pub enum PortKind {
    NetPort,
    VarPort,
}

/// The direction of a port.
#[derive(Debug, Clone, Copy, PartialEq, Eq)]
pub enum PortDir {
    Input,
    Output,
    Inout,
    Ref,
}

/// A parameter port.
#[derive(Debug, PartialEq, Eq)]
pub struct ParamPort {
    pub span: Span,
    pub name: Name,
    pub name_span: Span,
    pub ty: Type,
    pub dims: Vec<TypeDim>,
    pub init: (),
}

} // verus!
