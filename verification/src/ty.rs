//! The types that constant values have.

use crate::macros::copy_text;
use vstd::prelude::*;

verus! {

/// A type, as far as constant evaluation reads it.
#[derive(Debug, PartialEq, Eq, Hash)]
pub enum TypeKind {
    /// The type of an expression that failed to elaborate.
    Error,
    /// The `void` type.
    Void,
    /// The `time` type.
    Time,
    /// A single bit.
    Bit,
    /// An integer atom of the given width.
    Int(usize),
    /// A vector of the given number of bits.
    BitVector(usize),
    /// A single bit that is no vector.
    BitScalar,
    /// Another type under a name.
    Named(Vec<char>, Box<TypeKind>),
    /// A struct with fields of the given types.
    Struct(Vec<TypeKind>),
    /// A packed array of the given length and element type.
    PackedArray(usize, Box<TypeKind>),
}

/// A type.
pub type Type = TypeKind;

/// The mathematical value of a type.
pub enum TypeModel {
    Error,
    Void,
    Time,
    Bit,
    Int(usize),
    BitVector(usize),
    BitScalar,
    Named(Seq<char>, Box<TypeModel>),
    Struct(Seq<TypeModel>),
    PackedArray(usize, Box<TypeModel>),
}

/// The type behind any names.
pub open spec fn resolved(t: TypeModel) -> TypeModel
    decreases t,
{
    match t {
        TypeModel::Named(_, inner) => resolved(*inner),
        _ => t,
    }
}

/// The width in bits of an integer type, and nothing for any other type.
pub open spec fn int_width(t: TypeModel) -> Option<usize> {
    match resolved(t) {
        TypeModel::Bit => Some(1usize),
        TypeModel::BitScalar => Some(1usize),
        TypeModel::Int(w) => Some(w),
        TypeModel::BitVector(w) => Some(w),
        _ => None,
    }
}

/// The views of a list of types.
pub open spec fn type_models(ts: Seq<TypeKind>) -> Seq<TypeModel>
    decreases ts,
{
    Seq::new(
        ts.len(),
        |i: int|
            if 0 <= i < ts.len() {
                ts[i].model()
            } else {
                TypeModel::Error
            },
    )
}

impl TypeKind {
    /// The mathematical value of this type.
    pub open spec fn model(&self) -> TypeModel
        decreases self,
    {
        match self {
            TypeKind::Error => TypeModel::Error,
            TypeKind::Void => TypeModel::Void,
            TypeKind::Time => TypeModel::Time,
            TypeKind::Bit => TypeModel::Bit,
            TypeKind::Int(w) => TypeModel::Int(*w),
            TypeKind::BitVector(w) => TypeModel::BitVector(*w),
            TypeKind::BitScalar => TypeModel::BitScalar,
            TypeKind::Named(name, inner) => TypeModel::Named(name@, Box::new(inner.model())),
            TypeKind::Struct(fields) => TypeModel::Struct(type_models(fields@)),
            TypeKind::PackedArray(n, elem) => TypeModel::PackedArray(*n, Box::new(elem.model())),
        }
    }

    /// A copy of this type.
    #[verifier::loop_isolation(false)]
    pub fn duplicate(&self) -> (r: TypeKind)
        ensures
            r@ == self@,
        decreases self,
    {
        match self {
            TypeKind::Error => TypeKind::Error,
            TypeKind::Void => TypeKind::Void,
            TypeKind::Time => TypeKind::Time,
            TypeKind::Bit => TypeKind::Bit,
            TypeKind::Int(w) => TypeKind::Int(*w),
            TypeKind::BitVector(w) => TypeKind::BitVector(*w),
            TypeKind::BitScalar => TypeKind::BitScalar,
            TypeKind::Named(name, inner) => TypeKind::Named(
                copy_text(name),
                Box::new(inner.duplicate()),
            ),
            TypeKind::Struct(fields) => {
                let mut out: Vec<TypeKind> = Vec::new();
                let mut i: usize = 0;
                while i < fields.len()
                    invariant
                        i <= fields.len(),
                        out@.len() == i,
                        forall|j: int| 0 <= j < i ==> out@[j]@ == fields@[j]@,
                    decreases fields.len() - i,
                {
                    proof {
                        assert(decreases_to!(self => fields@[i as int]));
                    }
                    out.push(fields[i].duplicate());
                    i += 1;
                }
                proof {
                    assert(type_models(out@) =~= type_models(fields@));
                }
                TypeKind::Struct(out)
            },
            TypeKind::PackedArray(n, elem) => TypeKind::PackedArray(
                *n,
                Box::new(elem.duplicate()),
            ),
        }
    }

    /// Whether this is the type of a failed expression.
    pub fn is_error(&self) -> (r: bool)
        ensures
            r == (self@ is Error),
    {
        match self {
            TypeKind::Error => true,
            _ => false,
        }
    }

    /// The type behind any names.
    pub fn resolve_name(&self) -> (r: &TypeKind)
        ensures
            r@ == resolved(self@),
        decreases self,
    {
        match self {
            TypeKind::Named(_, inner) => inner.resolve_name(),
            _ => self,
        }
    }

    /// Whether this is a struct type, under any names.
    pub fn is_struct(&self) -> (r: bool)
        ensures
            r == (resolved(self@) is Struct),
    {
        match self.resolve_name() {
            TypeKind::Struct(_) => true,
            _ => false,
        }
    }

    /// Whether this is an array type, under any names.
    pub fn is_array(&self) -> (r: bool)
        ensures
            r == (resolved(self@) is PackedArray),
    {
        match self.resolve_name() {
            TypeKind::PackedArray(_, _) => true,
            _ => false,
        }
    }

    /// The width in bits of an integer type, and nothing for another type.
    pub fn width(&self) -> (r: Option<usize>)
        ensures
            r == int_width(self@),
    {
        match self.resolve_name() {
            TypeKind::Bit => Some(1),
            TypeKind::BitScalar => Some(1),
            TypeKind::Int(w) => Some(*w),
            TypeKind::BitVector(w) => Some(*w),
            _ => None,
        }
    }
}

impl View for TypeKind {
    type V = TypeModel;

    open spec fn view(&self) -> TypeModel {
        self.model()
    }
}

} // verus!
