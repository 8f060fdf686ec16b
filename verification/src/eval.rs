//! Constant folding of elaborated expressions.

use crate::bignum::{
    bitwise, magnitude, ones, trunc_div, trunc_rem, unsigned_le, BigNum, BinaryBitwiseOp,
};
use crate::mir::{
    IntBinaryArithOp, IntCompOp, IntUnaryArithOp, Rvalue, RvalueKind, ShiftOp, UnaryBitwiseOp,
};
use crate::token::Span;
use crate::ty::{int_width, resolved, Type, TypeKind, TypeModel};
use crate::value::{
    error_value, int_value, is_error_value, is_false_value, make_array, make_error, make_int,
    make_struct, make_time, value_models, KindModel, TimeValue, ValueData, ValueKind, ValueModel,
};
use vstd::arithmetic::power2::{lemma2_to64, lemma_pow2_unfold, pow2};
use vstd::prelude::*;

verus! {

/// A power by repeated multiplication.
pub open spec fn power(base: int, exp: nat) -> int
    decreases exp,
{
    if exp == 0 {
        1
    } else {
        power(base, (exp - 1) as nat) * base
    }
}

/// What an arithmetic operation gives. Division and remainder by zero and
/// a power with a negative exponent give nothing.
pub open spec fn arith(op: IntBinaryArithOp, a: int, b: int) -> Option<int> {
    match op {
        IntBinaryArithOp::Add => Some(a + b),
        IntBinaryArithOp::Sub => Some(a - b),
        IntBinaryArithOp::Mul => Some(a * b),
        IntBinaryArithOp::Div => if b == 0 {
            None
        } else {
            Some(trunc_div(a, b))
        },
        IntBinaryArithOp::Mod => if b == 0 {
            None
        } else {
            Some(trunc_rem(a, b))
        },
        IntBinaryArithOp::Pow => if b < 0 {
            None
        } else {
            Some(power(a, b as nat))
        },
    }
}

/// Whether a comparison holds.
pub open spec fn compare(op: IntCompOp, a: int, b: int) -> bool {
    match op {
        IntCompOp::Eq => a == b,
        IntCompOp::Neq => a != b,
        IntCompOp::Lt => a < b,
        IntCompOp::Leq => a <= b,
        IntCompOp::Gt => a > b,
        IntCompOp::Geq => a >= b,
    }
}

/// What a shift gives: the value shifted by the absolute amount, in the
/// other direction for a negative amount, and zero for an amount that no
/// machine integer holds. A shift to the right rounds toward negative
/// infinity.
pub open spec fn shifted(op: ShiftOp, value: int, amount: int) -> int {
    if amount < isize::MIN || amount > isize::MAX {
        0
    } else if (op == ShiftOp::Left) == (amount >= 0) {
        value * pow2(magnitude(amount))
    } else {
        value / (pow2(magnitude(amount)) as int)
    }
}

/// Whether the reduction of all bits of a value of the given width is one:
/// for `And` all bits are set, for `Or` some bit is set, for `Xor` the
/// number of set bits is odd.
pub open spec fn reduced(op: BinaryBitwiseOp, width: usize, a: int) -> bool {
    match op {
        BinaryBitwiseOp::And => a == pow2(width as nat) - 1,
        BinaryBitwiseOp::Or => a != 0,
        BinaryBitwiseOp::Xor => ones(magnitude(a)) % 2 == 1,
    }
}

/// One for true and zero for false.
pub open spec fn flag(b: bool) -> int {
    if b {
        1
    } else {
        0
    }
}

/// The integer that a value holds, if it is an integer.
pub open spec fn int_of(v: ValueModel) -> Option<int> {
    match v.kind {
        KindModel::Int(n, _, _) => Some(n),
        _ => None,
    }
}

/// The integer value of the given type, or nothing if the type is no
/// integer type.
pub open spec fn int_result(ty: TypeModel, value: int) -> Option<ValueModel> {
    if int_width(ty) is Some {
        Some(int_value(ty, value))
    } else {
        None
    }
}

/// Integers side by side: each one takes the bits of its width below all
/// that came before it.
pub open spec fn concat_value(widths: Seq<usize>, vals: Seq<int>) -> int
    decreases vals.len(),
{
    if vals.len() == 0 || widths.len() != vals.len() {
        0
    } else {
        bitwise(
            BinaryBitwiseOp::Or,
            concat_value(widths.drop_last(), vals.drop_last()) * pow2(widths.last() as nat),
            vals.last(),
        )
    }
}

/// One integer of the given width a number of times side by side.
pub open spec fn repeat_value(count: nat, width: usize, v: int) -> int
    decreases count,
{
    if count == 0 {
        0
    } else {
        bitwise(
            BinaryBitwiseOp::Or,
            repeat_value((count - 1) as nat, width, v) * pow2(width as nat),
            v,
        )
    }
}

/// Whether an expression is a tombstone by itself: its type or its kind
/// is an error.
pub open spec fn is_error_rvalue(mir: &Rvalue) -> bool {
    mir.ty@ is Error || mir.kind is Error
}

/// The operands of an expression, in the order in which they are folded.
pub open spec fn operands(mir: &Rvalue) -> Seq<Rvalue> {
    match mir.kind {
        RvalueKind::Cast(_, a) => seq![*a],
        RvalueKind::CastToBool(a) => seq![*a],
        RvalueKind::ConstructArray(vs) => vs@,
        RvalueKind::ConstructStruct(vs) => vs@,
        RvalueKind::UnaryBitwise { arg, .. } => seq![*arg],
        RvalueKind::BinaryBitwise { lhs, rhs, .. } => seq![*lhs, *rhs],
        RvalueKind::IntUnaryArith { arg, .. } => seq![*arg],
        RvalueKind::IntBinaryArith { lhs, rhs, .. } => seq![*lhs, *rhs],
        RvalueKind::IntComp { lhs, rhs, .. } => seq![*lhs, *rhs],
        RvalueKind::Concat(vs) => vs@,
        RvalueKind::Repeat(_, a) => seq![*a],
        RvalueKind::Shift { value, amount, .. } => seq![*value, *amount],
        RvalueKind::Reduction { arg, .. } => seq![*arg],
        RvalueKind::Ternary { cond, true_value, false_value } => seq![
            *cond,
            *true_value,
            *false_value,
        ],
        RvalueKind::Member { value, .. } => seq![*value],
        _ => Seq::empty(),
    }
}

/// The widths of the types of a list of expressions.
pub open spec fn operand_widths(ops: Seq<Rvalue>) -> Seq<Option<usize>> {
    Seq::new(ops.len(), |i: int| int_width(ops[i].ty@))
}

/// What an expression gives once its operands are folded to values that
/// are no tombstones. Nothing is given where the operands do not fit the
/// operation, which elaboration rules out.
pub open spec fn apply(mir: &Rvalue, vals: Seq<ValueModel>) -> Option<ValueModel> {
    let ty = mir.ty@;
    let ints = Seq::new(vals.len(), |i: int| int_of(vals[i]));
    let widths = operand_widths(operands(mir));
    if vals.len() != operands(mir).len() {
        None
    } else {
        match mir.kind {
            RvalueKind::Cast(_, _) => Some(ValueModel { ty, kind: vals[0].kind }),
            RvalueKind::CastToBool(_) => int_result(ty, flag(!is_false_value(vals[0]))),
            RvalueKind::ConstructArray(_) => if resolved(ty) is PackedArray {
                Some(ValueModel { ty, kind: KindModel::Composite(vals) })
            } else {
                None
            },
            RvalueKind::ConstructStruct(_) => if resolved(ty) is Struct {
                Some(ValueModel { ty, kind: KindModel::Composite(vals) })
            } else {
                None
            },
            RvalueKind::UnaryBitwise { op, .. } => if ints[0] is Some && int_width(ty) is Some {
                int_result(ty, pow2(int_width(ty)->0 as nat) - 1 - ints[0]->0)
            } else {
                None
            },
            RvalueKind::BinaryBitwise { op, .. } => if ints[0] is Some && ints[1] is Some {
                int_result(ty, bitwise(op, ints[0]->0, ints[1]->0))
            } else {
                None
            },
            RvalueKind::IntUnaryArith { op, .. } => if ints[0] is Some {
                int_result(ty, -(ints[0]->0))
            } else {
                None
            },
            RvalueKind::IntBinaryArith { op, .. } => if ints[0] is Some && ints[1] is Some && arith(
                op,
                ints[0]->0,
                ints[1]->0,
            ) is Some {
                int_result(ty, arith(op, ints[0]->0, ints[1]->0)->0)
            } else {
                None
            },
            RvalueKind::IntComp { op, .. } => if ints[0] is Some && ints[1] is Some {
                int_result(ty, flag(compare(op, ints[0]->0, ints[1]->0)))
            } else {
                None
            },
            RvalueKind::Concat(_) => if (forall|i: int|
                0 <= i < vals.len() ==> (#[trigger] ints[i]) is Some && widths[i] is Some) {
                int_result(
                    ty,
                    concat_value(
                        Seq::new(vals.len(), |i: int| widths[i]->0),
                        Seq::new(vals.len(), |i: int| ints[i]->0),
                    ),
                )
            } else {
                None
            },
            RvalueKind::Repeat(count, _) => if ints[0] is Some && widths[0] is Some {
                int_result(ty, repeat_value(count as nat, widths[0]->0, ints[0]->0))
            } else {
                None
            },
            RvalueKind::Shift { op, .. } => if ints[0] is Some && ints[1] is Some {
                int_result(ty, shifted(op, ints[0]->0, ints[1]->0))
            } else {
                None
            },
            RvalueKind::Reduction { op, .. } => if ints[0] is Some && widths[0] is Some {
                int_result(ty, flag(reduced(op, widths[0]->0, ints[0]->0)))
            } else {
                None
            },
            RvalueKind::Ternary { .. } => Some(
                if is_false_value(vals[0]) {
                    vals[2]
                } else {
                    vals[1]
                },
            ),
            RvalueKind::Member { field, .. } => match vals[0].kind {
                KindModel::Composite(items) => if field < items.len() {
                    Some(items[field as int])
                } else {
                    None
                },
                _ => None,
            },
            _ => None,
        }
    }
}

/// Whether some value of a list is a tombstone.
pub open spec fn any_error(vals: Seq<ValueModel>) -> bool {
    exists|i: int| 0 <= i < vals.len() && is_error_value(#[trigger] vals[i])
}

/// What an expression gives once its operands are folded: the tombstone of
/// its type if an operand is a tombstone, and the result of its operation
/// otherwise.
pub open spec fn combine(mir: &Rvalue, vals: Seq<ValueModel>) -> Option<ValueModel> {
    if any_error(vals) {
        Some(error_value(mir.ty@))
    } else {
        apply(mir, vals)
    }
}

/// Whether every entry of a list is present.
pub open spec fn all_some(s: Seq<Option<ValueModel>>) -> bool {
    forall|i: int| 0 <= i < s.len() ==> (#[trigger] s[i]) is Some
}

/// The entries of a list whose entries are all present.
pub open spec fn unwrapped(s: Seq<Option<ValueModel>>) -> Seq<ValueModel> {
    Seq::new(s.len(), |i: int| s[i]->0)
}

/// What the operands of an expression fold to, in order.
pub open spec fn child_folds(mir: &Rvalue) -> Seq<Option<ValueModel>>
    decreases mir, 0nat,
{
    match &mir.kind {
        RvalueKind::Cast(_, a) => seq![fold(a)],
        RvalueKind::CastToBool(a) => seq![fold(a)],
        RvalueKind::ConstructArray(vs) => folds(vs@),
        RvalueKind::ConstructStruct(vs) => folds(vs@),
        RvalueKind::UnaryBitwise { arg, .. } => seq![fold(arg)],
        RvalueKind::BinaryBitwise { lhs, rhs, .. } => seq![fold(lhs), fold(rhs)],
        RvalueKind::IntUnaryArith { arg, .. } => seq![fold(arg)],
        RvalueKind::IntBinaryArith { lhs, rhs, .. } => seq![fold(lhs), fold(rhs)],
        RvalueKind::IntComp { lhs, rhs, .. } => seq![fold(lhs), fold(rhs)],
        RvalueKind::Concat(vs) => folds(vs@),
        RvalueKind::Repeat(_, a) => seq![fold(a)],
        RvalueKind::Shift { value, amount, .. } => seq![fold(value), fold(amount)],
        RvalueKind::Reduction { arg, .. } => seq![fold(arg)],
        RvalueKind::Ternary { cond, true_value, false_value } => seq![
            fold(cond),
            fold(true_value),
            fold(false_value),
        ],
        RvalueKind::Member { value, .. } => seq![fold(value)],
        _ => Seq::empty(),
    }
}

/// What each expression of a list folds to.
pub open spec fn folds(vs: Seq<Rvalue>) -> Seq<Option<ValueModel>>
    decreases vs, 0nat,
{
    Seq::new(
        vs.len(),
        |i: int|
            if 0 <= i < vs.len() {
                fold(&vs[i])
            } else {
                None
            },
    )
}

/// The constant value of an expression. Nothing is given for an expression
/// that elaboration rules out: one whose operands do not fit its operation,
/// a division by zero, a power with a negative exponent, a slice.
pub open spec fn fold(mir: &Rvalue) -> Option<ValueModel>
    decreases mir, 1nat,
{
    if is_error_rvalue(mir) {
        Some(error_value(mir.ty@))
    } else {
        match &mir.kind {
            RvalueKind::Const(v) => Some(v@),
            RvalueKind::Var => Some(error_value(mir.ty@)),
            RvalueKind::Port => Some(error_value(mir.ty@)),
            RvalueKind::Assignment => Some(error_value(mir.ty@)),
            RvalueKind::Index => None,
            RvalueKind::Error => Some(error_value(mir.ty@)),
            _ => if all_some(child_folds(mir)) {
                combine(mir, unwrapped(child_folds(mir)))
            } else {
                None
            },
        }
    }
}

/// The view of a value that may be absent.
pub open spec fn option_model(v: Option<ValueData>) -> Option<ValueModel> {
    match v {
        Some(v) => Some(v@),
        None => None,
    }
}

/// The number of ones of a number is that of its low bits plus that of
/// the bits above them.
proof fn lemma_ones_split(x: nat, k: nat, m: nat)
    requires
        x < pow2(k),
    ensures
        ones(x + pow2(k) * m) == ones(x) + ones(m),
    decreases k,
{
    if k == 0 {
        lemma2_to64();
        assert(pow2(0) * m == m) by (nonlinear_arith)
            requires
                pow2(0) == 1,
        ;
    } else {
        lemma_pow2_unfold(k);
        let h = pow2((k - 1) as nat);
        let q = h * m;
        assert(pow2(k) * m == 2 * q) by (nonlinear_arith)
            requires
                pow2(k) == 2 * h,
                q == h * m,
        ;
        let n = x + pow2(k) * m;
        lemma_ones_split(x / 2, (k - 1) as nat, m);
        assert(n / 2 == x / 2 + q);
        assert(n % 2 == x % 2);
    }
}

/// Whether the number of ones in the bytes of a number is odd.
fn odd_ones(bytes: &Vec<u8>) -> (r: bool)
    ensures
        r == (ones(unsigned_le(bytes@)) % 2 == 1),
{
    let mut odd = false;
    let mut i: usize = bytes.len();
    proof {
        assert(bytes@.subrange(i as int, bytes@.len() as int) =~= Seq::<u8>::empty());
    }
    while i > 0
        invariant
            i <= bytes.len(),
            odd == (ones(unsigned_le(bytes@.subrange(i as int, bytes@.len() as int))) % 2 == 1),
        decreases i,
    {
        i -= 1;
        let b = bytes[i];
        proof {
            let rest = bytes@.subrange(i + 1, bytes@.len() as int);
            let here = bytes@.subrange(i as int, bytes@.len() as int);
            assert(here.drop_first() =~= rest);
            assert(here[0] == b);
            lemma2_to64();
            lemma_ones_split(b as nat, 8, unsigned_le(rest));
        }
        odd = odd != (crate::bignum::count_ones(b) % 2 == 1);
    }
    proof {
        assert(bytes@.subrange(0, bytes@.len() as int) =~= bytes@);
    }
    odd
}

/// One for true and zero for false, as an integer of arbitrary size.
fn flag_int(b: bool) -> (r: BigNum)
    ensures
        r@ == flag(b),
{
    if b {
        BigNum::from_usize(1)
    } else {
        BigNum::from_usize(0)
    }
}

/// Folds a bitwise operation on one integer of the given width.
pub fn const_unary_bitwise_int(width: usize, op: UnaryBitwiseOp, arg: &BigNum) -> (r: BigNum)
    ensures
        r@ == pow2(width as nat) - 1 - arg@,
{
    let one = BigNum::from_usize(1);
    match op {
        UnaryBitwiseOp::Not => one.shifted_left(width).minus(&one).minus(arg),
    }
}

/// Folds a bitwise operation on two integers.
pub fn const_binary_bitwise_int(op: BinaryBitwiseOp, lhs: &BigNum, rhs: &BigNum) -> (r: BigNum)
    ensures
        r@ == bitwise(op, lhs@, rhs@),
{
    lhs.bitwise_with(op, rhs)
}

/// Folds an arithmetic operation on one integer.
pub fn const_unary_arith_int(op: IntUnaryArithOp, arg: &BigNum) -> (r: BigNum)
    ensures
        r@ == -arg@,
{
    match op {
        IntUnaryArithOp::Neg => arg.negated(),
    }
}

/// Folds an arithmetic operation on two integers. Nothing is given for a
/// division or a remainder by zero and for a power with a negative
/// exponent.
pub fn const_binary_arith_int(op: IntBinaryArithOp, lhs: &BigNum, rhs: &BigNum) -> (r: Option<
    BigNum,
>)
    ensures
        r is Some <==> arith(op, lhs@, rhs@) is Some,
        r is Some ==> r->0@ == arith(op, lhs@, rhs@)->0,
{
    match op {
        IntBinaryArithOp::Add => Some(lhs.plus(rhs)),
        IntBinaryArithOp::Sub => Some(lhs.minus(rhs)),
        IntBinaryArithOp::Mul => Some(lhs.times(rhs)),
        IntBinaryArithOp::Div => lhs.checked_div(rhs),
        IntBinaryArithOp::Mod => lhs.checked_rem(rhs),
        IntBinaryArithOp::Pow => {
            if rhs.less_than(&BigNum::zero()) {
                return None;
            }
            let one = BigNum::from_usize(1);
            let mut result = BigNum::from_usize(1);
            let mut cnt = rhs.duplicate();
            while !cnt.is_zero()
                invariant
                    one@ == 1,
                    0 <= cnt@ <= rhs@,
                    result@ == power(lhs@, (rhs@ - cnt@) as nat),
                decreases cnt@,
            {
                result = result.times(lhs);
                cnt = cnt.minus(&one);
            }
            Some(result)
        },
    }
}

/// Folds a comparison of two integers to one or zero.
pub fn const_comp_int(op: IntCompOp, lhs: &BigNum, rhs: &BigNum) -> (r: BigNum)
    ensures
        r@ == flag(compare(op, lhs@, rhs@)),
{
    let holds = match op {
        IntCompOp::Eq => lhs.equals(rhs),
        IntCompOp::Neq => !lhs.equals(rhs),
        IntCompOp::Lt => lhs.less_than(rhs),
        IntCompOp::Leq => !rhs.less_than(lhs),
        IntCompOp::Gt => rhs.less_than(lhs),
        IntCompOp::Geq => !lhs.less_than(rhs),
    };
    flag_int(holds)
}

/// Folds a shift of an integer.
pub fn const_shift_int(op: ShiftOp, value: &BigNum, amount: &BigNum) -> (r: BigNum)
    ensures
        r@ == shifted(op, value@, amount@),
{
    match amount.to_isize() {
        None => BigNum::zero(),
        Some(sh) => {
            let by: usize = if sh >= 0 {
                sh as usize
            } else {
                (-(sh + 1)) as usize + 1
            };
            let left = match op {
                ShiftOp::Left => sh >= 0,
                ShiftOp::Right => sh < 0,
            };
            if left {
                value.shifted_left(by)
            } else {
                value.shifted_right(by)
            }
        },
    }
}

/// Folds the reduction of all bits of an integer of the given width to one
/// or zero.
pub fn const_reduction_int(width: usize, op: BinaryBitwiseOp, arg: &BigNum) -> (r: BigNum)
    ensures
        r@ == flag(reduced(op, width, arg@)),
{
    let holds = match op {
        BinaryBitwiseOp::And => {
            let one = BigNum::from_usize(1);
            arg.equals(&one.shifted_left(width).minus(&one))
        },
        BinaryBitwiseOp::Or => !arg.is_zero(),
        BinaryBitwiseOp::Xor => {
            let bytes = arg.magnitude_bytes();
            odd_ones(&bytes)
        },
    };
    flag_int(holds)
}

/// The operands of an expression, in the order in which they are folded.
#[verifier::loop_isolation(false)]
fn operand_refs(mir: &Rvalue) -> (r: Vec<&Rvalue>)
    ensures
        r@.len() == operands(mir).len(),
        r@.len() == child_folds(mir).len(),
        forall|i: int| 0 <= i < r@.len() ==> *(#[trigger] r@[i]) == operands(mir)[i],
        forall|i: int| 0 <= i < r@.len() ==> fold(#[trigger] r@[i]) == child_folds(mir)[i],
        forall|i: int| 0 <= i < r@.len() ==> decreases_to!(mir => #[trigger] r@[i]),
{
    let mut out: Vec<&Rvalue> = Vec::new();
    match &mir.kind {
        RvalueKind::Cast(_, a) => {
            out.push(a);
        },
        RvalueKind::CastToBool(a) => {
            out.push(a);
        },
        RvalueKind::UnaryBitwise { arg, .. } => {
            out.push(arg);
        },
        RvalueKind::BinaryBitwise { lhs, rhs, .. } => {
            out.push(lhs);
            out.push(rhs);
        },
        RvalueKind::IntUnaryArith { arg, .. } => {
            out.push(arg);
        },
        RvalueKind::IntBinaryArith { lhs, rhs, .. } => {
            out.push(lhs);
            out.push(rhs);
        },
        RvalueKind::IntComp { lhs, rhs, .. } => {
            out.push(lhs);
            out.push(rhs);
        },
        RvalueKind::Repeat(_, a) => {
            out.push(a);
        },
        RvalueKind::Shift { value, amount, .. } => {
            out.push(value);
            out.push(amount);
        },
        RvalueKind::Reduction { arg, .. } => {
            out.push(arg);
        },
        RvalueKind::Ternary { cond, true_value, false_value } => {
            out.push(cond);
            out.push(true_value);
            out.push(false_value);
        },
        RvalueKind::Member { value, .. } => {
            out.push(value);
        },
        RvalueKind::ConstructArray(vs) => {
            out = list_refs(vs);
        },
        RvalueKind::ConstructStruct(vs) => {
            out = list_refs(vs);
        },
        RvalueKind::Concat(vs) => {
            out = list_refs(vs);
        },
        _ => {},
    }
    out
}

/// References to the expressions of a list, in order.
fn list_refs(vs: &Vec<Rvalue>) -> (r: Vec<&Rvalue>)
    ensures
        r@.len() == vs@.len(),
        forall|i: int| 0 <= i < r@.len() ==> *(#[trigger] r@[i]) == vs@[i],
{
    let mut out: Vec<&Rvalue> = Vec::new();
    let mut i: usize = 0;
    while i < vs.len()
        invariant
            i <= vs.len(),
            out@.len() == i,
            forall|j: int| 0 <= j < i ==> *(#[trigger] out@[j]) == vs@[j],
        decreases vs.len() - i,
    {
        out.push(&vs[i]);
        i += 1;
    }
    out
}

/// Folds an expression whose operands are folded already. Nothing is given
/// where the operands do not fit the operation.
pub fn const_mir_rvalue_with(mir: &Rvalue, vals: Vec<ValueData>) -> (r: Option<ValueData>)
    ensures
        option_model(r) == combine(mir, value_models(vals@)),
{
    let ghost models = value_models(vals@);
    let mut i: usize = 0;
    while i < vals.len()
        invariant
            i <= vals.len(),
            models == value_models(vals@),
            forall|j: int| 0 <= j < i ==> !is_error_value(#[trigger] models[j]),
        decreases vals.len() - i,
    {
        if vals[i].is_error() {
            proof {
                assert(is_error_value(models[i as int]));
            }
            return Some(make_error(mir.ty.duplicate()));
        }
        i += 1;
    }
    apply_checked(mir, vals)
}

/// The width of the type of an operand.
fn operand_width(mir: &Rvalue, i: usize) -> (r: Option<usize>)
    requires
        i < operands(mir).len(),
    ensures
        r == operand_widths(operands(mir))[i as int],
{
    let ops = operand_refs(mir);
    ops[i].ty.width()
}

/// An integer value of the type of an expression, if that is an integer
/// type.
fn int_result_of(mir: &Rvalue, value: BigNum) -> (r: Option<ValueData>)
    ensures
        option_model(r) == int_result(mir.ty@, value@),
{
    if mir.ty.width().is_some() {
        Some(make_int(mir.ty.duplicate(), value))
    } else {
        None
    }
}

/// Folds operands side by side.
fn concat_ints(mir: &Rvalue, vals: &Vec<ValueData>) -> (r: Option<BigNum>)
    requires
        vals@.len() == operands(mir).len(),
    ensures
        ({
            let models = value_models(vals@);
            let ints = Seq::new(models.len(), |i: int| int_of(models[i]));
            let widths = operand_widths(operands(mir));
            if (forall|i: int|
                0 <= i < models.len() ==> (#[trigger] ints[i]) is Some && widths[i] is Some) {
                r is Some && r->0@ == concat_value(
                    Seq::new(models.len(), |i: int| widths[i]->0),
                    Seq::new(models.len(), |i: int| ints[i]->0),
                )
            } else {
                r is None
            }
        }),
{
    let ghost models = value_models(vals@);
    let ghost ints = Seq::new(models.len(), |i: int| int_of(models[i]));
    let ghost widths = operand_widths(operands(mir));
    let ghost ws = Seq::new(models.len(), |i: int| widths[i]->0);
    let ghost ns = Seq::new(models.len(), |i: int| ints[i]->0);
    let ops = operand_refs(mir);
    let mut acc = BigNum::zero();
    let mut i: usize = 0;
    while i < vals.len()
        invariant
            i <= vals.len(),
            vals@.len() == operands(mir).len(),
            ops@.len() == operands(mir).len(),
            forall|k: int| 0 <= k < ops@.len() ==> *(#[trigger] ops@[k]) == operands(mir)[k],
            models == value_models(vals@),
            ints == Seq::new(models.len(), |i: int| int_of(models[i])),
            widths == operand_widths(operands(mir)),
            ws == Seq::new(models.len(), |i: int| widths[i]->0),
            ns == Seq::new(models.len(), |i: int| ints[i]->0),
            forall|j: int| 0 <= j < i ==> (#[trigger] ints[j]) is Some && widths[j] is Some,
            acc@ == concat_value(ws.subrange(0, i as int), ns.subrange(0, i as int)),
        decreases vals.len() - i,
    {
        let w = match ops[i].ty.width() {
            Some(w) => w,
            None => {
                proof {
                    assert(ints[i as int] is Some ==> widths[i as int] is None);
                }
                return None;
            },
        };
        let n = match vals[i].get_int() {
            Some(n) => n,
            None => {
                proof {
                    assert(ints[i as int] is None);
                }
                return None;
            },
        };
        proof {
            assert(ws.subrange(0, i + 1).drop_last() =~= ws.subrange(0, i as int));
            assert(ns.subrange(0, i + 1).drop_last() =~= ns.subrange(0, i as int));
        }
        acc = acc.shifted_left(w).bitwise_with(BinaryBitwiseOp::Or, n);
        i += 1;
    }
    proof {
        assert(ws.subrange(0, vals@.len() as int) =~= ws);
        assert(ns.subrange(0, vals@.len() as int) =~= ns);
    }
    Some(acc)
}

/// Folds one integer a number of times side by side.
fn repeat_int(count: usize, width: usize, value: &BigNum) -> (r: BigNum)
    ensures
        r@ == repeat_value(count as nat, width, value@),
{
    let mut acc = BigNum::zero();
    let mut i: usize = 0;
    while i < count
        invariant
            i <= count,
            acc@ == repeat_value(i as nat, width, value@),
        decreases count - i,
    {
        acc = acc.shifted_left(width).bitwise_with(BinaryBitwiseOp::Or, value);
        i += 1;
    }
    acc
}

/// Applies the operation of an expression to its folded operands, none of
/// which is a tombstone.
fn apply_checked(mir: &Rvalue, vals: Vec<ValueData>) -> (r: Option<ValueData>)
    ensures
        option_model(r) == apply(mir, value_models(vals@)),
{
    let ops = operand_refs(mir);
    if vals.len() != ops.len() {
        return None;
    }
    match &mir.kind {
        RvalueKind::Cast(_, _) => Some(
            ValueData { ty: mir.ty.duplicate(), kind: vals[0].kind.duplicate() },
        ),
        RvalueKind::CastToBool(_) => int_result_of(mir, flag_int(vals[0].is_true())),
        RvalueKind::ConstructArray(_) => {
            if mir.ty.is_array() {
                Some(make_array(mir.ty.duplicate(), vals))
            } else {
                None
            }
        },
        RvalueKind::ConstructStruct(_) => {
            if mir.ty.is_struct() {
                Some(make_struct(mir.ty.duplicate(), vals))
            } else {
                None
            }
        },
        RvalueKind::UnaryBitwise { op, .. } => {
            match (vals[0].get_int(), mir.ty.width()) {
                (Some(a), Some(w)) => int_result_of(mir, const_unary_bitwise_int(w, *op, a)),
                _ => None,
            }
        },
        RvalueKind::BinaryBitwise { op, .. } => {
            match (vals[0].get_int(), vals[1].get_int()) {
                (Some(a), Some(b)) => int_result_of(mir, const_binary_bitwise_int(*op, a, b)),
                _ => None,
            }
        },
        RvalueKind::IntUnaryArith { op, .. } => {
            match vals[0].get_int() {
                Some(a) => int_result_of(mir, const_unary_arith_int(*op, a)),
                None => None,
            }
        },
        RvalueKind::IntBinaryArith { op, .. } => {
            match (vals[0].get_int(), vals[1].get_int()) {
                (Some(a), Some(b)) => match const_binary_arith_int(*op, a, b) {
                    Some(v) => int_result_of(mir, v),
                    None => None,
                },
                _ => None,
            }
        },
        RvalueKind::IntComp { op, .. } => {
            match (vals[0].get_int(), vals[1].get_int()) {
                (Some(a), Some(b)) => int_result_of(mir, const_comp_int(*op, a, b)),
                _ => None,
            }
        },
        RvalueKind::Concat(_) => {
            match concat_ints(mir, &vals) {
                Some(v) => int_result_of(mir, v),
                None => None,
            }
        },
        RvalueKind::Repeat(count, _) => {
            match (vals[0].get_int(), operand_width(mir, 0)) {
                (Some(a), Some(w)) => int_result_of(mir, repeat_int(*count, w, a)),
                _ => None,
            }
        },
        RvalueKind::Shift { op, .. } => {
            match (vals[0].get_int(), vals[1].get_int()) {
                (Some(a), Some(b)) => int_result_of(mir, const_shift_int(*op, a, b)),
                _ => None,
            }
        },
        RvalueKind::Reduction { op, .. } => {
            match (vals[0].get_int(), operand_width(mir, 0)) {
                (Some(a), Some(w)) => int_result_of(mir, const_reduction_int(w, *op, a)),
                _ => None,
            }
        },
        RvalueKind::Ternary { .. } => {
            if vals[0].is_true() {
                Some(vals[1].duplicate())
            } else {
                Some(vals[2].duplicate())
            }
        },
        RvalueKind::Member { field, .. } => {
            match &vals[0].kind {
                ValueKind::StructOrArray(items) => {
                    if *field < items.len() {
                        Some(items[*field].duplicate())
                    } else {
                        None
                    }
                },
                _ => None,
            }
        },
        _ => None,
    }
}

/// Folds an expression to its constant value. Nothing is given for an
/// expression that elaboration rules out.
#[verifier::loop_isolation(false)]
pub fn const_mir_rvalue_inner(mir: &Rvalue) -> (r: Option<ValueData>)
    ensures
        option_model(r) == fold(mir),
    decreases mir,
{
    if mir.ty.is_error() {
        return Some(make_error(mir.ty.duplicate()));
    }
    match &mir.kind {
        RvalueKind::Const(v) => {
            return Some(v.duplicate());
        },
        RvalueKind::Var => {
            return Some(make_error(mir.ty.duplicate()));
        },
        RvalueKind::Port => {
            return Some(make_error(mir.ty.duplicate()));
        },
        RvalueKind::Assignment => {
            return Some(make_error(mir.ty.duplicate()));
        },
        RvalueKind::Error => {
            return Some(make_error(mir.ty.duplicate()));
        },
        RvalueKind::Index => {
            return None;
        },
        _ => {},
    }
    let ops = operand_refs(mir);
    let ghost folded = child_folds(mir);
    let mut vals: Vec<ValueData> = Vec::new();
    let mut i: usize = 0;
    while i < ops.len()
        invariant
            i <= ops.len(),
            vals@.len() == i,
            forall|j: int| 0 <= j < i ==> Some((#[trigger] vals@[j])@) == folded[j],
        decreases ops.len() - i,
    {
        match const_mir_rvalue_inner(ops[i]) {
            Some(v) => {
                vals.push(v);
            },
            None => {
                proof {
                    assert(folded[i as int] is None);
                }
                return None;
            },
        }
        i += 1;
    }
    proof {
        assert(all_some(folded)) by {
            assert forall|j: int| 0 <= j < folded.len() implies (#[trigger] folded[j]) is Some by {
                assert(Some(vals@[j]@) == folded[j]);
            }
        }
        assert(value_models(vals@) =~= unwrapped(folded)) by {
            assert forall|j: int| 0 <= j < folded.len() implies value_models(vals@)[j]
                == unwrapped(folded)[j] by {
                assert(Some(vals@[j]@) == folded[j]);
            }
        }
    }
    const_mir_rvalue_with(mir, vals)
}

/// The default value of a type: the tombstone for the error type, `void`
/// for `void`, zero for time and for integers, the default of the type
/// behind a name, and for a struct or an array the defaults of its fields
/// or elements.
pub open spec fn default_value(t: TypeModel) -> ValueModel
    decreases t,
{
    match t {
        TypeModel::Error => error_value(TypeModel::Error),
        TypeModel::Void => ValueModel { ty: TypeModel::Void, kind: KindModel::Void },
        TypeModel::Time => ValueModel { ty: TypeModel::Time, kind: KindModel::Time(0, 1) },
        TypeModel::Named(_, inner) => default_value(*inner),
        TypeModel::Struct(fields) => ValueModel {
            ty: t,
            kind: KindModel::Composite(
                Seq::new(
                    fields.len(),
                    |i: int|
                        if 0 <= i < fields.len() {
                            default_value(fields[i])
                        } else {
                            error_value(TypeModel::Error)
                        },
                ),
            ),
        },
        TypeModel::PackedArray(n, elem) => ValueModel {
            ty: t,
            kind: KindModel::Composite(Seq::new(n as nat, |i: int| default_value(*elem))),
        },
        _ => int_value(t, 0),
    }
}

/// The default value of a type.
#[verifier::loop_isolation(false)]
pub fn type_default_value(ty: &Type) -> (r: ValueData)
    ensures
        r@ == default_value(ty@),
    decreases ty,
{
    match ty {
        TypeKind::Error => make_error(TypeKind::Error),
        TypeKind::Void => ValueData { ty: TypeKind::Void, kind: ValueKind::Void },
        TypeKind::Time => make_time(
            TimeValue { numer: BigNum::zero(), denom: BigNum::from_usize(1) },
        ),
        TypeKind::Named(_, inner) => type_default_value(inner),
        TypeKind::Struct(fields) => {
            let mut out: Vec<ValueData> = Vec::new();
            let mut i: usize = 0;
            while i < fields.len()
                invariant
                    i <= fields.len(),
                    out@.len() == i,
                    forall|j: int| 0 <= j < i ==> (#[trigger] out@[j])@ == default_value(fields@[j]@),
                decreases fields.len() - i,
            {
                proof {
                    assert(decreases_to!(ty => fields@[i as int]));
                }
                out.push(type_default_value(&fields[i]));
                i += 1;
            }
            proof {
                assert(ty@ == TypeModel::Struct(crate::ty::type_models(fields@)));
                assert(value_models(out@) =~= default_value(ty@).kind->Composite_0);
            }
            make_struct(ty.duplicate(), out)
        },
        TypeKind::PackedArray(n, elem) => {
            let item = type_default_value(elem);
            let mut out: Vec<ValueData> = Vec::new();
            let mut i: usize = 0;
            while i < *n
                invariant
                    i <= *n,
                    out@.len() == i,
                    forall|j: int| 0 <= j < i ==> (#[trigger] out@[j])@ == item@,
                decreases *n - i,
            {
                out.push(item.duplicate());
                i += 1;
            }
            proof {
                assert(value_models(out@) =~= default_value(ty@).kind->Composite_0);
            }
            make_array(ty.duplicate(), out)
        },
        _ => make_int(ty.duplicate(), BigNum::zero()),
    }
}

/// What a diagnostic of the evaluator says.
#[derive(Clone, Copy, Debug, PartialEq, Eq, Structural)]
pub enum NoteKind {
    /// A warning: a cast is ignored during constant evaluation.
    CastIgnored,
    /// An error: the value is not constant.
    NotConstant,
}

/// A diagnostic of the evaluator: what it says, the span of the expression
/// it is about, and the span of the operand of a cast (for another
/// expression, its own span once more).
#[derive(Clone, Copy, Debug, PartialEq, Eq, Structural)]
pub struct Note {
    pub kind: NoteKind,
    pub span: Span,
    pub related: Span,
}

/// The diagnostics that folding the first `n` expressions of a list emits.
pub open spec fn list_notes(vs: Seq<Rvalue>, n: nat) -> Seq<Note>
    decreases vs, n,
{
    if n == 0 || n > vs.len() {
        Seq::empty()
    } else {
        list_notes(vs, (n - 1) as nat) + notes(&vs[n - 1])
    }
}

/// The diagnostics that folding an expression emits, in order: none for a
/// tombstone; a warning for a cast, before those of its operand; an error
/// for a variable, a port and an assignment; and for every other
/// expression those of its operands, in order.
pub open spec fn notes(mir: &Rvalue) -> Seq<Note>
    decreases mir,
{
    if is_error_rvalue(mir) {
        Seq::empty()
    } else {
        match &mir.kind {
            RvalueKind::Cast(_, a) => seq![
                Note { kind: NoteKind::CastIgnored, span: mir.span, related: a.span },
            ] + notes(a),
            RvalueKind::Var | RvalueKind::Port | RvalueKind::Assignment => seq![
                Note { kind: NoteKind::NotConstant, span: mir.span, related: mir.span },
            ],
            RvalueKind::CastToBool(a) => notes(a),
            RvalueKind::ConstructArray(vs) => list_notes(vs@, vs@.len()),
            RvalueKind::ConstructStruct(vs) => list_notes(vs@, vs@.len()),
            RvalueKind::UnaryBitwise { arg, .. } => notes(arg),
            RvalueKind::BinaryBitwise { lhs, rhs, .. } => notes(lhs) + notes(rhs),
            RvalueKind::IntUnaryArith { arg, .. } => notes(arg),
            RvalueKind::IntBinaryArith { lhs, rhs, .. } => notes(lhs) + notes(rhs),
            RvalueKind::IntComp { lhs, rhs, .. } => notes(lhs) + notes(rhs),
            RvalueKind::Concat(vs) => list_notes(vs@, vs@.len()),
            RvalueKind::Repeat(_, a) => notes(a),
            RvalueKind::Shift { value, amount, .. } => notes(value) + notes(amount),
            RvalueKind::Reduction { arg, .. } => notes(arg),
            RvalueKind::Ternary { cond, true_value, false_value } => notes(cond) + notes(
                true_value,
            ) + notes(false_value),
            RvalueKind::Member { value, .. } => notes(value),
            _ => Seq::empty(),
        }
    }
}

/// Appends the diagnostics that folding the expressions of a list emits.
#[verifier::loop_isolation(false)]
fn list_mir_notes(parent: &Rvalue, vs: &Vec<Rvalue>, out: &mut Vec<Note>)
    requires
        forall|i: int| 0 <= i < vs@.len() ==> decreases_to!(parent => #[trigger] vs@[i]),
    ensures
        final(out)@ == old(out)@ + list_notes(vs@, vs@.len()),
    decreases parent, 0nat,
{
    let ghost before = out@;
    let mut i: usize = 0;
    while i < vs.len()
        invariant
            i <= vs.len(),
            out@ == before + list_notes(vs@, i as nat),
        decreases vs.len() - i,
    {
        const_mir_notes(&vs[i], out);
        proof {
            assert(out@ =~= before + list_notes(vs@, (i + 1) as nat));
        }
        i += 1;
    }
}

/// Appends the diagnostics that folding an expression emits.
pub fn const_mir_notes(mir: &Rvalue, out: &mut Vec<Note>)
    ensures
        final(out)@ == old(out)@ + notes(mir),
    decreases mir, 1nat,
{
    let ghost before = out@;
    if mir.ty.is_error() {
        return ;
    }
    match &mir.kind {
        RvalueKind::Cast(_, a) => {
            out.push(Note { kind: NoteKind::CastIgnored, span: mir.span, related: a.span });
            const_mir_notes(a, out);
        },
        RvalueKind::Var | RvalueKind::Port | RvalueKind::Assignment => {
            out.push(Note { kind: NoteKind::NotConstant, span: mir.span, related: mir.span });
        },
        RvalueKind::CastToBool(a) => {
            const_mir_notes(a, out);
        },
        RvalueKind::ConstructArray(vs) => {
            list_mir_notes(mir, vs, out);
        },
        RvalueKind::ConstructStruct(vs) => {
            list_mir_notes(mir, vs, out);
        },
        RvalueKind::UnaryBitwise { arg, .. } => {
            const_mir_notes(arg, out);
        },
        RvalueKind::BinaryBitwise { lhs, rhs, .. } => {
            const_mir_notes(lhs, out);
            const_mir_notes(rhs, out);
        },
        RvalueKind::IntUnaryArith { arg, .. } => {
            const_mir_notes(arg, out);
        },
        RvalueKind::IntBinaryArith { lhs, rhs, .. } => {
            const_mir_notes(lhs, out);
            const_mir_notes(rhs, out);
        },
        RvalueKind::IntComp { lhs, rhs, .. } => {
            const_mir_notes(lhs, out);
            const_mir_notes(rhs, out);
        },
        RvalueKind::Concat(vs) => {
            list_mir_notes(mir, vs, out);
        },
        RvalueKind::Repeat(_, a) => {
            const_mir_notes(a, out);
        },
        RvalueKind::Shift { value, amount, .. } => {
            const_mir_notes(value, out);
            const_mir_notes(amount, out);
        },
        RvalueKind::Reduction { arg, .. } => {
            const_mir_notes(arg, out);
        },
        RvalueKind::Ternary { cond, true_value, false_value } => {
            const_mir_notes(cond, out);
            const_mir_notes(true_value, out);
            const_mir_notes(false_value, out);
        },
        RvalueKind::Member { value, .. } => {
            const_mir_notes(value, out);
        },
        _ => {},
    }
    proof {
        assert(out@ =~= before + notes(mir));
    }
}

/// Folds an expression that elaboration accepts to its constant value,
/// and appends the diagnostics that this emits.
pub fn const_mir_rvalue(mir: &Rvalue, out: &mut Vec<Note>) -> (r: ValueData)
    requires
        fold(mir) is Some,
    ensures
        r@ == fold(mir)->0,
        final(out)@ == old(out)@ + notes(mir),
{
    const_mir_notes(mir, out);
    match const_mir_rvalue_inner(mir) {
        Some(v) => v,
        None => make_error(mir.ty.duplicate()),
    }
}

/// The value of an enum variant without an explicit value: its position in
/// the enum as an integer of the variant's type. Nothing is given where
/// that type is no integer type.
pub fn enum_variant_value(ty: Type, index: usize) -> (r: Option<ValueData>)
    ensures
        option_model(r) == int_result(ty@, index as int),
{
    if ty.width().is_some() {
        Some(make_int(ty, BigNum::from_usize(index)))
    } else {
        None
    }
}

} // verus!
