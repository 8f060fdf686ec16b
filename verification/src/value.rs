//! Constant values: what they hold, how they are made, and what they mean
//! as conditions.

use crate::bignum::{decimal_text, trunc_rem, BigNum};
use crate::token::text_from_str;
use crate::ty::{int_width, resolved, Type, TypeKind, TypeModel};
use bit_vec::BitVec;
use vstd::arithmetic::power2::pow2;
use vstd::prelude::*;

verus! {

/// The bit vector type of the crate `bit_vec`.
#[verifier::external_type_specification]
#[verifier::external_body]
#[verifier::reject_recursive_types(B)]
pub struct ExBitVec<B>(bit_vec::BitVec<B>);

/// The bits that a bit vector holds, in order.
pub uninterp spec fn bits_of(b: BitVec<u32>) -> Seq<bool>;

/// Calls `BitVec::from_elem`, which gives a vector of `n` bits that all have
/// the given value.
#[verifier::external_body]
fn bits_from_elem(n: usize, bit: bool) -> (r: BitVec<u32>)
    ensures
        bits_of(r) == Seq::new(n as nat, |i: int| bit),
{
    BitVec::from_elem(n, bit)
}

/// Calls `clone` on a `BitVec`, which gives a vector of the same bits.
#[verifier::external_body]
fn bits_clone(b: &BitVec<u32>) -> (r: BitVec<u32>)
    ensures
        bits_of(r) == bits_of(*b),
{
    b.clone()
}

/// A time interval as a fraction.
#[derive(Debug, Clone, PartialEq, Eq, Hash)]
pub struct TimeValue {
    pub numer: BigNum,
    pub denom: BigNum,
}

/// The data of a value: its type and what it holds.
#[derive(Debug, PartialEq, Eq, Hash)]
pub struct ValueData {
    pub ty: Type,
    pub kind: ValueKind,
}

/// The forms that a value can take.
#[derive(Debug, PartialEq, Eq, Hash)]
pub enum ValueKind {
    /// The `void` value.
    Void,
    /// An integer, the bits of it that are x or z, and those that are x.
    Int(BigNum, BitVec, BitVec),
    /// A time interval.
    Time(TimeValue),
    /// A struct or an array: the values of its fields or elements.
    StructOrArray(Vec<ValueData>),
    /// The tombstone of a computation that failed.
    Error,
}

/// The mathematical value of a [`ValueKind`].
pub enum KindModel {
    Void,
    Int(int, Seq<bool>, Seq<bool>),
    Time(int, int),
    Composite(Seq<ValueModel>),
    Error,
}

/// The mathematical value of a [`ValueData`].
pub struct ValueModel {
    pub ty: TypeModel,
    pub kind: KindModel,
}

/// The tombstone of the given type.
pub open spec fn error_value(ty: TypeModel) -> ValueModel {
    ValueModel { ty, kind: KindModel::Error }
}

/// A vector of zero bits.
pub open spec fn zero_bits(n: usize) -> Seq<bool> {
    Seq::new(n as nat, |i: int| false)
}

/// The integer that is stored for a value in a type of the given width: the
/// remainder of the division by two to the width that rounds toward zero.
pub open spec fn truncated(value: int, width: usize) -> int {
    trunc_rem(value, pow2(width as nat) as int)
}

/// The integer value of an integer type that a number gives, without
/// special bits.
pub open spec fn int_value(ty: TypeModel, value: int) -> ValueModel
    recommends
        int_width(ty) is Some,
{
    let w = int_width(ty)->0;
    ValueModel { ty, kind: KindModel::Int(truncated(value, w), zero_bits(w), zero_bits(w)) }
}

/// Whether a value is a tombstone: its type or its kind is an error.
pub open spec fn is_error_value(v: ValueModel) -> bool {
    v.ty is Error || v.kind is Error
}

/// Whether a value counts as false: `void`, a zero integer, a zero time
/// and the tombstone do; a struct or an array does not.
pub open spec fn is_false_value(v: ValueModel) -> bool {
    match v.kind {
        KindModel::Void => true,
        KindModel::Int(n, _, _) => n == 0,
        KindModel::Time(n, _) => n == 0,
        KindModel::Composite(_) => false,
        KindModel::Error => true,
    }
}

/// The views of a list of values.
pub open spec fn value_models(vs: Seq<ValueData>) -> Seq<ValueModel>
    decreases vs,
{
    Seq::new(
        vs.len(),
        |i: int|
            if 0 <= i < vs.len() {
                vs[i].model()
            } else {
                error_value(TypeModel::Error)
            },
    )
}

impl ValueKind {
    /// The mathematical value of this kind.
    pub open spec fn model(&self) -> KindModel
        decreases self,
    {
        match self {
            ValueKind::Void => KindModel::Void,
            ValueKind::Int(n, specials, xbits) => KindModel::Int(
                n@,
                bits_of(*specials),
                bits_of(*xbits),
            ),
            ValueKind::Time(t) => KindModel::Time(t.numer@, t.denom@),
            ValueKind::StructOrArray(vs) => KindModel::Composite(value_models(vs@)),
            ValueKind::Error => KindModel::Error,
        }
    }

    /// Whether this is the tombstone of a failed computation.
    pub fn is_error(&self) -> (r: bool)
        ensures
            r == (self@ is Error),
    {
        match self {
            ValueKind::Error => true,
            _ => false,
        }
    }

    /// A copy of this kind.
    #[verifier::loop_isolation(false)]
    pub fn duplicate(&self) -> (r: ValueKind)
        ensures
            r@ == self@,
        decreases self,
    {
        match self {
            ValueKind::Void => ValueKind::Void,
            ValueKind::Int(n, specials, xbits) => ValueKind::Int(
                n.duplicate(),
                bits_clone(specials),
                bits_clone(xbits),
            ),
            ValueKind::Time(t) => ValueKind::Time(
                TimeValue { numer: t.numer.duplicate(), denom: t.denom.duplicate() },
            ),
            ValueKind::StructOrArray(vs) => {
                let mut out: Vec<ValueData> = Vec::new();
                let mut i: usize = 0;
                while i < vs.len()
                    invariant
                        i <= vs.len(),
                        out@.len() == i,
                        forall|j: int| 0 <= j < i ==> out@[j]@ == vs@[j]@,
                    decreases vs.len() - i,
                {
                    proof {
                        assert(decreases_to!(self => vs@[i as int]));
                    }
                    out.push(vs[i].duplicate());
                    i += 1;
                }
                proof {
                    assert(value_models(out@) =~= value_models(vs@));
                }
                ValueKind::StructOrArray(out)
            },
            ValueKind::Error => ValueKind::Error,
        }
    }
}

impl View for ValueKind {
    type V = KindModel;

    open spec fn view(&self) -> KindModel {
        self.model()
    }
}

impl ValueData {
    /// The mathematical value of this value.
    pub open spec fn model(&self) -> ValueModel
        decreases self,
    {
        ValueModel { ty: self.ty@, kind: self.kind.model() }
    }

    /// Whether this value is the tombstone of a failed computation.
    pub fn is_error(&self) -> (r: bool)
        ensures
            r == is_error_value(self@),
    {
        self.ty.is_error() || self.kind.is_error()
    }

    /// Whether this value counts as true.
    pub fn is_true(&self) -> (r: bool)
        ensures
            r == !is_false_value(self@),
    {
        !self.is_false()
    }

    /// Whether this value counts as false.
    pub fn is_false(&self) -> (r: bool)
        ensures
            r == is_false_value(self@),
    {
        match &self.kind {
            ValueKind::Void => true,
            ValueKind::Int(v, _, _) => v.is_zero(),
            ValueKind::Time(v) => v.numer.is_zero(),
            ValueKind::StructOrArray(_) => false,
            ValueKind::Error => true,
        }
    }

    /// The integer that this value holds, if it is an integer.
    pub fn get_int(&self) -> (r: Option<&BigNum>)
        ensures
            match self@.kind {
                KindModel::Int(n, _, _) => r is Some && r->0@ == n,
                _ => r is None,
            },
    {
        match &self.kind {
            ValueKind::Int(v, _, _) => Some(v),
            _ => None,
        }
    }

    /// A copy of this value.
    pub fn duplicate(&self) -> (r: ValueData)
        ensures
            r@ == self@,
        decreases self,
    {
        ValueData { ty: self.ty.duplicate(), kind: self.kind.duplicate() }
    }
}

impl View for ValueData {
    type V = ValueModel;

    open spec fn view(&self) -> ValueModel {
        self.model()
    }
}

/// A new tombstone of the given type.
pub fn make_error(ty: Type) -> (r: ValueData)
    ensures
        r@ == error_value(ty@),
{
    ValueData { ty, kind: ValueKind::Error }
}

/// A new integer value without special bits. The number is truncated to the
/// width of the type, which must be an integer type.
pub fn make_int(ty: Type, value: BigNum) -> (r: ValueData)
    requires
        int_width(ty@) is Some,
    ensures
        r@ == int_value(ty@, value@),
{
    let w = match ty.width() {
        Some(w) => w,
        None => 0,
    };
    make_int_special(ty, value, bits_from_elem(w, false), bits_from_elem(w, false))
}

/// A new integer value with special bits. The number is truncated to the
/// width of the type, which must be an integer type.
pub fn make_int_special(ty: Type, value: BigNum, special_bits: BitVec, x_bits: BitVec) -> (r:
    ValueData)
    requires
        int_width(ty@) is Some,
    ensures
        r@ == (ValueModel {
            ty: ty@,
            kind: KindModel::Int(
                truncated(value@, int_width(ty@)->0),
                bits_of(special_bits),
                bits_of(x_bits),
            ),
        }),
{
    let w = match ty.width() {
        Some(w) => w,
        None => 0,
    };
    let stored = value.rem_pow2(w);
    ValueData { ty, kind: ValueKind::Int(stored, special_bits, x_bits) }
}

/// A new time value.
pub fn make_time(value: TimeValue) -> (r: ValueData)
    ensures
        r@ == (ValueModel {
            ty: TypeModel::Time,
            kind: KindModel::Time(value.numer@, value.denom@),
        }),
{
    ValueData { ty: TypeKind::Time, kind: ValueKind::Time(value) }
}

/// A new struct value. The type must be a struct type.
pub fn make_struct(ty: Type, fields: Vec<ValueData>) -> (r: ValueData)
    requires
        resolved(ty@) is Struct,
    ensures
        r@ == (ValueModel { ty: ty@, kind: KindModel::Composite(value_models(fields@)) }),
{
    ValueData { ty, kind: ValueKind::StructOrArray(fields) }
}

/// A new array value. The type must be an array type.
pub fn make_array(ty: Type, elements: Vec<ValueData>) -> (r: ValueData)
    requires
        resolved(ty@) is PackedArray,
    ensures
        r@ == (ValueModel { ty: ty@, kind: KindModel::Composite(value_models(elements@)) }),
{
    ValueData { ty, kind: ValueKind::StructOrArray(elements) }
}

/// The first `n` values of a list as text, with a comma and a space
/// between two of them.
pub open spec fn joined_text(items: Seq<ValueModel>, n: nat) -> Seq<char>
    decreases items, n,
{
    if n == 0 || n > items.len() {
        Seq::empty()
    } else if n == 1 {
        kind_text(items[0].kind)
    } else {
        joined_text(items, (n - 1) as nat) + ", "@ + kind_text(items[n - 1].kind)
    }
}

/// What a value holds, as text: `void`; an integer in decimal digits; a
/// time as its numerator, followed by a slash and its denominator unless
/// that is one; a struct or an array as its values in braces; and
/// `<error>` for the tombstone.
pub open spec fn kind_text(k: KindModel) -> Seq<char>
    decreases k,
{
    match k {
        KindModel::Void => "void"@,
        KindModel::Int(n, _, _) => decimal_text(n),
        KindModel::Time(n, d) => if d == 1 {
            decimal_text(n)
        } else {
            decimal_text(n) + "/"@ + decimal_text(d)
        },
        KindModel::Composite(items) => "{ "@ + joined_text(items, items.len()) + " }"@,
        KindModel::Error => "<error>"@,
    }
}

impl ValueKind {
    /// What the value holds, as text.
    #[verifier::loop_isolation(false)]
    pub fn to_text(&self) -> (r: Vec<char>)
        ensures
            r@ == kind_text(self@),
        decreases self,
    {
        match self {
            ValueKind::Void => text_from_str("void"),
            ValueKind::Int(n, _, _) => n.to_text(),
            ValueKind::Time(t) => {
                let mut out = t.numer.to_text();
                if !t.denom.equals(&BigNum::from_usize(1)) {
                    let mut slash = text_from_str("/");
                    let mut denom = t.denom.to_text();
                    out.append(&mut slash);
                    out.append(&mut denom);
                }
                out
            },
            ValueKind::StructOrArray(vs) => {
                let ghost items = value_models(vs@);
                let mut inner: Vec<char> = Vec::new();
                let mut i: usize = 0;
                while i < vs.len()
                    invariant
                        i <= vs.len(),
                        inner@ == joined_text(items, i as nat),
                    decreases vs.len() - i,
                {
                    proof {
                        assert(decreases_to!(self => vs@[i as int]));
                    }
                    let mut piece = vs[i].kind.to_text();
                    if i > 0 {
                        let mut comma = text_from_str(", ");
                        inner.append(&mut comma);
                    }
                    proof {
                        assert(piece@ == kind_text(items[i as int].kind));
                    }
                    inner.append(&mut piece);
                    i += 1;
                }
                let mut out = text_from_str("{ ");
                let mut close = text_from_str(" }");
                out.append(&mut inner);
                out.append(&mut close);
                out
            },
            ValueKind::Error => text_from_str("<error>"),
        }
    }
}

} // verus!
