use svlog_core::bignum::{BigNum, BinaryBitwiseOp};
use svlog_core::eval::{
    const_mir_notes, enum_variant_value, Note, NoteKind, const_binary_arith_int, const_binary_bitwise_int, const_comp_int, const_mir_rvalue,
    const_mir_rvalue_inner, const_mir_rvalue_with, const_reduction_int, const_shift_int,
    const_unary_arith_int, const_unary_bitwise_int, type_default_value,
};
use svlog_core::hir::{const_node, is_constant, ConstError, ConstStep, HirNode, ParamEnvBinding};
use svlog_core::mir::{
    CastKind, IntBinaryArithOp, IntCompOp, IntUnaryArithOp, Rvalue, RvalueKind, ShiftOp,
    UnaryBitwiseOp,
};
use svlog_core::token::Span;
use svlog_core::ty::TypeKind;
use svlog_core::value::{
    make_array, make_error, make_int, make_int_special, make_struct, make_time, TimeValue,
    ValueData, ValueKind,
};

fn big(v: i64) -> BigNum {
    BigNum::from_i64(v)
}

fn bits(w: usize) -> TypeKind {
    TypeKind::BitVector(w)
}

fn node(ty: TypeKind, kind: RvalueKind) -> Rvalue {
    Rvalue { ty, span: Span::invalid(), kind }
}

fn lit(w: usize, v: i64) -> Box<Rvalue> {
    Box::new(node(bits(w), RvalueKind::Const(make_int(bits(w), big(v)))))
}

fn broken(w: usize) -> Box<Rvalue> {
    Box::new(node(bits(w), RvalueKind::Error))
}

fn stored(v: &ValueData) -> isize {
    v.get_int().unwrap().to_isize().unwrap()
}

fn value_of(mir: &Rvalue) -> ValueData {
    const_mir_rvalue(mir, &mut Vec::new())
}

fn folded(w: usize, kind: RvalueKind) -> isize {
    stored(&value_of(&node(bits(w), kind)))
}

#[test]
fn make_int_truncates_to_the_width() {
    assert_eq!(stored(&make_int(bits(8), big(300))), 44);
    assert_eq!(stored(&make_int(TypeKind::Int(8), big(255))), 255);
    assert_eq!(stored(&make_int(TypeKind::Int(8), big(256))), 0);
    assert_eq!(stored(&make_int(TypeKind::Bit, big(3))), 1);
    assert_eq!(stored(&make_int(TypeKind::BitScalar, big(2))), 0);
    assert_eq!(stored(&make_int(bits(0), big(5))), 0);
}

#[test]
fn make_int_keeps_the_sign_of_a_negative_number() {
    assert_eq!(stored(&make_int(bits(8), big(-1))), -1);
    assert_eq!(stored(&make_int(bits(8), big(-300))), -44);
    assert_eq!(stored(&make_int(bits(8), big(-512))), 0);
}

#[test]
fn make_int_reads_the_width_through_a_name() {
    let named = TypeKind::Named("byte_t".chars().collect(), Box::new(bits(8)));
    assert_eq!(named.width(), Some(8));
    assert_eq!(stored(&make_int(named, big(257))), 1);
    assert_eq!(TypeKind::Void.width(), None);
}

#[test]
fn make_int_has_no_special_bits() {
    let v = make_int(bits(3), big(1));
    match &v.kind {
        ValueKind::Int(_, specials, xbits) => {
            assert_eq!(specials.len(), 3);
            assert_eq!(xbits.len(), 3);
            assert!(specials.none());
            assert!(xbits.none());
        }
        _ => panic!("no integer"),
    }
    let marked = bit_vec::BitVec::from_elem(3, true);
    let v = make_int_special(bits(3), big(9), marked.clone(), bit_vec::BitVec::from_elem(3, false));
    match &v.kind {
        ValueKind::Int(n, specials, _) => {
            assert_eq!(n.to_isize(), Some(1));
            assert_eq!(specials, &marked);
        }
        _ => panic!("no integer"),
    }
}

#[test]
fn values_as_conditions() {
    assert!(make_int(bits(8), big(1)).is_true());
    assert!(make_int(bits(8), big(256)).is_false());
    assert!(make_error(bits(8)).is_false());
    assert!(make_error(bits(8)).is_error());
    assert!(make_int(TypeKind::Error, big(0)).ty.is_error());
    assert!(ValueData { ty: TypeKind::Error, kind: ValueKind::Void }.is_error());
    assert!(!make_int(bits(8), big(1)).is_error());
    assert!(ValueData { ty: TypeKind::Void, kind: ValueKind::Void }.is_false());
    assert!(make_time(TimeValue { numer: big(0), denom: big(1) }).is_false());
    assert!(make_time(TimeValue { numer: big(1), denom: big(2) }).is_true());
    let s = make_struct(TypeKind::Struct(vec![]), vec![]);
    assert!(s.is_true());
    assert!(s.get_int().is_none());
    assert!(ValueKind::Error.is_error());
    assert!(!ValueKind::Void.is_error());
}

#[test]
fn power_by_repeated_multiplication() {
    let kind = RvalueKind::IntBinaryArith {
        op: IntBinaryArithOp::Pow,
        lhs: lit(8, 3),
        rhs: lit(8, 4),
    };
    assert_eq!(folded(8, kind), 81);
    assert_eq!(const_binary_arith_int(IntBinaryArithOp::Pow, &big(7), &big(0)).unwrap(), big(1));
    assert!(const_binary_arith_int(IntBinaryArithOp::Pow, &big(2), &big(-1)).is_none());
}

#[test]
fn arithmetic() {
    let run = |op, a, b| const_binary_arith_int(op, &big(a), &big(b)).map(|v| v.to_isize().unwrap());
    assert_eq!(run(IntBinaryArithOp::Add, 7, -9), Some(-2));
    assert_eq!(run(IntBinaryArithOp::Sub, 7, 9), Some(-2));
    assert_eq!(run(IntBinaryArithOp::Mul, -7, 9), Some(-63));
    assert_eq!(run(IntBinaryArithOp::Div, -7, 2), Some(-3));
    assert_eq!(run(IntBinaryArithOp::Div, 7, -2), Some(-3));
    assert_eq!(run(IntBinaryArithOp::Mod, -7, 2), Some(-1));
    assert_eq!(run(IntBinaryArithOp::Mod, 7, -2), Some(1));
    assert_eq!(run(IntBinaryArithOp::Div, 1, 0), None);
    assert_eq!(run(IntBinaryArithOp::Mod, 1, 0), None);
    assert_eq!(const_unary_arith_int(IntUnaryArithOp::Neg, &big(5)).to_isize(), Some(-5));
}

#[test]
fn sums_wrap_at_the_width() {
    let kind = RvalueKind::IntBinaryArith {
        op: IntBinaryArithOp::Add,
        lhs: lit(8, 200),
        rhs: lit(8, 100),
    };
    assert_eq!(folded(8, kind), 44);
    let kind = RvalueKind::IntUnaryArith { op: IntUnaryArithOp::Neg, arg: lit(8, 5) };
    assert_eq!(folded(8, kind), -5);
}

#[test]
fn bitwise_operations() {
    let run = |op, a, b| const_binary_bitwise_int(op, &big(a), &big(b)).to_isize().unwrap();
    assert_eq!(run(BinaryBitwiseOp::And, 0b1100, 0b1010), 0b1000);
    assert_eq!(run(BinaryBitwiseOp::Or, 0b1100, 0b1010), 0b1110);
    assert_eq!(run(BinaryBitwiseOp::Xor, 0b1100, 0b1010), 0b0110);
    assert_eq!(run(BinaryBitwiseOp::And, -1, 0b1010), 0b1010);
    assert_eq!(run(BinaryBitwiseOp::Or, -4, 1), -3);
    assert_eq!(run(BinaryBitwiseOp::Xor, -1, 1), -2);
    assert_eq!(const_unary_bitwise_int(4, UnaryBitwiseOp::Not, &big(0b1010)).to_isize(), Some(0b0101));
    let kind = RvalueKind::UnaryBitwise { op: UnaryBitwiseOp::Not, arg: lit(8, 1) };
    assert_eq!(folded(8, kind), 254);
    let kind = RvalueKind::BinaryBitwise { op: BinaryBitwiseOp::Xor, lhs: lit(8, 12), rhs: lit(8, 10) };
    assert_eq!(folded(8, kind), 6);
}

#[test]
fn comparisons() {
    let run = |op, a, b| const_comp_int(op, &big(a), &big(b)).to_isize().unwrap();
    assert_eq!(run(IntCompOp::Eq, 3, 3), 1);
    assert_eq!(run(IntCompOp::Eq, 3, 4), 0);
    assert_eq!(run(IntCompOp::Neq, 3, 4), 1);
    assert_eq!(run(IntCompOp::Lt, 3, 4), 1);
    assert_eq!(run(IntCompOp::Lt, 4, 4), 0);
    assert_eq!(run(IntCompOp::Leq, 4, 4), 1);
    assert_eq!(run(IntCompOp::Leq, 5, 4), 0);
    assert_eq!(run(IntCompOp::Gt, 5, 4), 1);
    assert_eq!(run(IntCompOp::Gt, 4, 4), 0);
    assert_eq!(run(IntCompOp::Geq, 4, 4), 1);
    assert_eq!(run(IntCompOp::Geq, -1, 4), 0);
    let kind = RvalueKind::IntComp { op: IntCompOp::Lt, lhs: lit(8, 3), rhs: lit(8, 4) };
    assert_eq!(folded(1, kind), 1);
}

#[test]
fn shifts() {
    let run = |op, v, n| const_shift_int(op, &big(v), &big(n)).to_isize().unwrap();
    assert_eq!(run(ShiftOp::Left, 3, 4), 48);
    assert_eq!(run(ShiftOp::Right, 48, 4), 3);
    assert_eq!(run(ShiftOp::Left, 48, -4), 3);
    assert_eq!(run(ShiftOp::Right, 3, -4), 48);
    assert_eq!(run(ShiftOp::Right, -5, 1), -3);
    assert_eq!(run(ShiftOp::Left, 5, 0), 5);
    let huge = big(1).shifted_left(70);
    assert_eq!(const_shift_int(ShiftOp::Left, &big(1), &huge).to_isize(), Some(0));
    assert_eq!(const_shift_int(ShiftOp::Right, &big(1), &huge.negated()).to_isize(), Some(0));
    let kind = RvalueKind::Shift { op: ShiftOp::Left, arith: false, value: lit(8, 255), amount: lit(8, 4) };
    assert_eq!(folded(8, kind), 240);
}

#[test]
fn reductions() {
    let run = |w, op, v| const_reduction_int(w, op, &big(v)).to_isize().unwrap();
    assert_eq!(run(4, BinaryBitwiseOp::Xor, 0b1011), 1);
    assert_eq!(run(4, BinaryBitwiseOp::Xor, 0b1010), 0);
    assert_eq!(run(16, BinaryBitwiseOp::Xor, 0x0101), 0);
    assert_eq!(run(16, BinaryBitwiseOp::Xor, 0x0103), 1);
    assert_eq!(run(4, BinaryBitwiseOp::Xor, 0), 0);
    assert_eq!(run(4, BinaryBitwiseOp::And, 0b1111), 1);
    assert_eq!(run(4, BinaryBitwiseOp::And, 0b0111), 0);
    assert_eq!(run(4, BinaryBitwiseOp::Or, 0), 0);
    assert_eq!(run(4, BinaryBitwiseOp::Or, 8), 1);
    let kind = RvalueKind::Reduction { op: BinaryBitwiseOp::Xor, arg: lit(4, 0b1011) };
    assert_eq!(folded(1, kind), 1);
    let kind = RvalueKind::Reduction { op: BinaryBitwiseOp::Xor, arg: lit(4, 0b1010) };
    assert_eq!(folded(1, kind), 0);
    let kind = RvalueKind::Reduction { op: BinaryBitwiseOp::And, arg: lit(4, 0b1111) };
    assert_eq!(folded(1, kind), 1);
}

#[test]
fn ternary_chooses_by_the_condition() {
    let choose = |c| RvalueKind::Ternary { cond: c, true_value: lit(8, 1), false_value: lit(8, 0) };
    assert_eq!(folded(8, choose(lit(1, 1))), 1);
    assert_eq!(folded(8, choose(lit(1, 0))), 0);
    let v = value_of(&node(bits(8), choose(broken(1))));
    assert_eq!(v, make_error(bits(8)));
}

#[test]
fn a_tombstone_among_the_operands_is_the_result() {
    let cases = vec![
        RvalueKind::Cast(CastKind::Truncate, broken(8)),
        RvalueKind::CastToBool(broken(8)),
        RvalueKind::UnaryBitwise { op: UnaryBitwiseOp::Not, arg: broken(8) },
        RvalueKind::BinaryBitwise { op: BinaryBitwiseOp::And, lhs: lit(8, 1), rhs: broken(8) },
        RvalueKind::IntUnaryArith { op: IntUnaryArithOp::Neg, arg: broken(8) },
        RvalueKind::IntBinaryArith { op: IntBinaryArithOp::Add, lhs: broken(8), rhs: lit(8, 1) },
        RvalueKind::IntComp { op: IntCompOp::Eq, lhs: lit(8, 1), rhs: broken(8) },
        RvalueKind::Concat(vec![*lit(8, 1), *broken(8)]),
        RvalueKind::Repeat(2, broken(8)),
        RvalueKind::Shift { op: ShiftOp::Left, arith: false, value: lit(8, 1), amount: broken(8) },
        RvalueKind::Reduction { op: BinaryBitwiseOp::Or, arg: broken(8) },
        RvalueKind::Member { value: broken(8), field: 0 },
        RvalueKind::ConstructArray(vec![*broken(8)]),
        RvalueKind::ConstructStruct(vec![*lit(8, 1), *broken(8)]),
        RvalueKind::Var,
        RvalueKind::Port,
        RvalueKind::Assignment,
        RvalueKind::Error,
    ];
    for kind in cases {
        let v = const_mir_rvalue_inner(&node(bits(16), kind)).unwrap();
        assert_eq!(v, make_error(bits(16)));
    }
    let v = value_of(&node(TypeKind::Error, RvalueKind::Const(make_int(bits(8), big(1)))));
    assert_eq!(v, make_error(TypeKind::Error));
}

#[test]
fn casts_keep_the_kind_and_take_the_outer_type() {
    let v = value_of(&node(bits(4), RvalueKind::Cast(CastKind::Truncate, lit(8, 200))));
    assert_eq!(v.ty, bits(4));
    assert_eq!(stored(&v), 200);
    for cast in [
        CastKind::ValueDomain,
        CastKind::VectorToAtom,
        CastKind::AtomToVector,
        CastKind::Sign,
        CastKind::ZeroExtend,
        CastKind::SignExtend,
    ] {
        assert_eq!(folded(16, RvalueKind::Cast(cast, lit(8, 7))), 7);
    }
}

#[test]
fn cast_to_bool() {
    assert_eq!(folded(1, RvalueKind::CastToBool(lit(8, 12))), 1);
    assert_eq!(folded(1, RvalueKind::CastToBool(lit(8, 0))), 0);
    let s = node(TypeKind::Struct(vec![]), RvalueKind::ConstructStruct(vec![]));
    assert_eq!(folded(1, RvalueKind::CastToBool(Box::new(s))), 1);
}

#[test]
fn concat_and_repeat() {
    let kind = RvalueKind::Concat(vec![*lit(4, 0xa), *lit(8, 0xbc), *lit(4, 0xd)]);
    assert_eq!(folded(16, kind), 0xabcd);
    assert_eq!(folded(16, RvalueKind::Concat(vec![])), 0);
    assert_eq!(folded(16, RvalueKind::Repeat(3, lit(4, 0x9))), 0x999);
    assert_eq!(folded(16, RvalueKind::Repeat(0, lit(4, 0x9))), 0);
    assert_eq!(folded(8, RvalueKind::Repeat(3, lit(4, 0x9))), 0x99);
}

#[test]
fn composites_and_members() {
    let pair = TypeKind::Struct(vec![bits(4), bits(2)]);
    let make = || node(TypeKind::Struct(vec![bits(4), bits(2)]), RvalueKind::ConstructStruct(vec![*lit(4, 9), *lit(2, 3)]));
    let v = value_of(&make());
    assert_eq!(v, make_struct(pair, vec![make_int(bits(4), big(9)), make_int(bits(2), big(3))]));
    assert_eq!(folded(2, RvalueKind::Member { value: Box::new(make()), field: 1 }), 3);
    let arr = TypeKind::PackedArray(2, Box::new(bits(4)));
    let v = value_of(&node(
        TypeKind::PackedArray(2, Box::new(bits(4))),
        RvalueKind::ConstructArray(vec![*lit(4, 1), *lit(4, 2)]),
    ));
    assert_eq!(v, make_array(arr, vec![make_int(bits(4), big(1)), make_int(bits(4), big(2))]));
}

#[test]
fn what_elaboration_rules_out_gives_nothing() {
    let none = |ty: TypeKind, kind| const_mir_rvalue_inner(&node(ty, kind)).is_none();
    assert!(none(bits(8), RvalueKind::Index));
    assert!(none(bits(8), RvalueKind::Member { value: lit(8, 1), field: 0 }));
    assert!(none(TypeKind::Void, RvalueKind::CastToBool(lit(8, 1))));
    assert!(none(bits(8), RvalueKind::ConstructArray(vec![*lit(8, 1)])));
    assert!(none(bits(8), RvalueKind::ConstructStruct(vec![*lit(8, 1)])));
    assert!(none(
        bits(8),
        RvalueKind::IntBinaryArith { op: IntBinaryArithOp::Div, lhs: lit(8, 1), rhs: lit(8, 0) }
    ));
    assert!(none(bits(8), RvalueKind::UnaryBitwise { op: UnaryBitwiseOp::Not, arg: Box::new(node(bits(8), RvalueKind::Index)) }));
    let pair = || Box::new(node(TypeKind::Struct(vec![]), RvalueKind::ConstructStruct(vec![])));
    assert!(none(bits(8), RvalueKind::IntUnaryArith { op: IntUnaryArithOp::Neg, arg: pair() }));
    assert!(none(bits(8), RvalueKind::Concat(vec![*pair()])));
    assert!(none(bits(8), RvalueKind::Member { value: pair(), field: 0 }));
}

#[test]
fn operands_that_are_folded_already() {
    let add = node(
        bits(8),
        RvalueKind::IntBinaryArith { op: IntBinaryArithOp::Add, lhs: lit(8, 0), rhs: lit(8, 0) },
    );
    let v = const_mir_rvalue_with(&add, vec![make_int(bits(8), big(2)), make_int(bits(8), big(3))]);
    assert_eq!(stored(&v.unwrap()), 5);
    let v = const_mir_rvalue_with(&add, vec![make_int(bits(8), big(2)), make_error(bits(8))]);
    assert_eq!(v.unwrap(), make_error(bits(8)));
    assert!(const_mir_rvalue_with(&add, vec![make_int(bits(8), big(2))]).is_none());
}

#[test]
fn default_values() {
    let pair = || TypeKind::Struct(vec![bits(4), bits(2)]);
    assert_eq!(
        type_default_value(&pair()),
        make_struct(pair(), vec![make_int(bits(4), big(0)), make_int(bits(2), big(0))])
    );
    assert_eq!(type_default_value(&TypeKind::Error), make_error(TypeKind::Error));
    assert_eq!(
        type_default_value(&TypeKind::Void),
        ValueData { ty: TypeKind::Void, kind: ValueKind::Void }
    );
    let t = type_default_value(&TypeKind::Time);
    assert_eq!(t.ty, TypeKind::Time);
    assert!(t.is_false());
    assert_eq!(type_default_value(&TypeKind::Int(32)), make_int(TypeKind::Int(32), big(0)));
    assert_eq!(type_default_value(&TypeKind::Bit), make_int(TypeKind::Bit, big(0)));
    let named = TypeKind::Named("t".chars().collect(), Box::new(bits(3)));
    assert_eq!(type_default_value(&named), make_int(bits(3), big(0)));
    let arr = || TypeKind::PackedArray(3, Box::new(bits(2)));
    let zero = || make_int(bits(2), big(0));
    assert_eq!(type_default_value(&arr()), make_array(arr(), vec![zero(), zero(), zero()]));
}

#[test]
fn types_under_names() {
    let named = TypeKind::Named("s".chars().collect(), Box::new(TypeKind::Struct(vec![])));
    assert!(named.is_struct());
    assert!(!named.is_array());
    assert!(TypeKind::PackedArray(1, Box::new(TypeKind::Bit)).is_array());
    assert_eq!(named.resolve_name(), &TypeKind::Struct(vec![]));
    assert_eq!(named.duplicate(), named);
}

#[test]
fn big_numbers_go_through_bytes() {
    assert_eq!(BigNum::from_signed_bytes_le(vec![0x2c, 0x01]).to_isize(), Some(300));
    assert_eq!(BigNum::from_signed_bytes_le(vec![0xff]).to_isize(), Some(-1));
    assert_eq!(BigNum::from_signed_bytes_le(vec![]).to_isize(), Some(0));
    assert_eq!(big(-129).to_signed_bytes_le(), vec![0x7f, 0xff]);
    assert_eq!(BigNum::from_usize(258).magnitude_bytes(), vec![2, 1]);
    assert_eq!(big(-258).magnitude_bytes(), vec![2, 1]);
    assert_eq!(big(1).shifted_left(64).to_isize(), None);
    assert_eq!(big(5).rem_pow2(2).to_isize(), Some(1));
    assert!(BigNum::zero().is_zero());
    assert!(big(3).duplicate().equals(&big(3)));
    assert!(big(3).checked_div(&big(0)).is_none());
    assert!(big(3).checked_rem(&big(0)).is_none());
    assert_eq!(svlog_core::bignum::count_ones(0b1011_0001), 4);
}

#[test]
fn constant_values_of_nodes() {
    let known = ParamEnvBinding::Direct(make_int(bits(8), big(7)));
    let moved = ParamEnvBinding::Indirect(11, 2);
    let param = HirNode::ValueParam { default: Some(5) };
    let bare = HirNode::ValueParam { default: None };
    let genvar = HirNode::GenvarDecl { init: None };
    assert!(matches!(const_node(&HirNode::Expr(3), None), ConstStep::Lower(3)));
    assert!(matches!(const_node(&HirNode::Expr(3), Some(&known)), ConstStep::Lower(3)));
    assert!(matches!(const_node(&param, Some(&moved)), ConstStep::Follow(11, 2)));
    match const_node(&param, Some(&known)) {
        ConstStep::Known(v) => assert_eq!(stored(&v), 7),
        _ => panic!("no value"),
    }
    assert!(matches!(const_node(&param, None), ConstStep::Recurse(5)));
    assert!(matches!(const_node(&bare, None), ConstStep::Fail(ConstError::NotAssigned)));
    assert!(matches!(const_node(&genvar, None), ConstStep::Fail(ConstError::NotInitialized)));
    assert!(matches!(const_node(&genvar, Some(&moved)), ConstStep::Follow(11, 2)));
    assert!(matches!(const_node(&HirNode::GenvarDecl { init: Some(4) }, None), ConstStep::Recurse(4)));
    assert!(matches!(const_node(&HirNode::VarDecl, None), ConstStep::Fail(ConstError::NoConstantValue)));
    assert!(matches!(const_node(&HirNode::Other, None), ConstStep::Fail(ConstError::Unimplemented)));
    let variant = HirNode::EnumVariant { value: None, index: 3 };
    assert!(matches!(const_node(&variant, None), ConstStep::EnumIndex(3)));
    assert!(matches!(
        const_node(&HirNode::EnumVariant { value: Some(9), index: 3 }, None),
        ConstStep::Recurse(9)
    ));
}

#[test]
fn nodes_with_a_constant_value() {
    assert!(is_constant(&HirNode::ValueParam { default: None }));
    assert!(is_constant(&HirNode::GenvarDecl { init: None }));
    assert!(is_constant(&HirNode::EnumVariant { value: None, index: 0 }));
    assert!(!is_constant(&HirNode::Expr(0)));
    assert!(!is_constant(&HirNode::VarDecl));
    assert!(!is_constant(&HirNode::Other));
}

#[test]
fn values_as_text() {
    let show = |k: &ValueKind| -> String { k.to_text().iter().collect() };
    assert_eq!(show(&ValueKind::Void), "void");
    assert_eq!(show(&ValueKind::Error), "<error>");
    assert_eq!(show(&make_int(bits(16), big(1204)).kind), "1204");
    assert_eq!(show(&make_int(bits(16), big(0)).kind), "0");
    assert_eq!(show(&make_int(bits(16), big(-37)).kind), "-37");
    assert_eq!(show(&make_time(TimeValue { numer: big(3), denom: big(1) }).kind), "3");
    assert_eq!(show(&make_time(TimeValue { numer: big(-3), denom: big(20) }).kind), "-3/20");
    let pair = make_struct(
        TypeKind::Struct(vec![bits(4), TypeKind::Void]),
        vec![make_int(bits(4), big(9)), ValueData { ty: TypeKind::Void, kind: ValueKind::Void }],
    );
    assert_eq!(show(&pair.kind), "{ 9, void }");
    assert_eq!(show(&make_struct(TypeKind::Struct(vec![]), vec![]).kind), "{  }");
    let nested = make_array(TypeKind::PackedArray(1, Box::new(TypeKind::Struct(vec![]))), vec![pair]);
    assert_eq!(show(&nested.kind), "{ { 9, void } }");
    assert_eq!(big(1).shifted_left(70).to_text().iter().collect::<String>(), "1180591620717411303424");
}

#[test]
fn folding_reports_casts_and_what_is_not_constant() {
    let at = |n: usize| Span { source: 0, begin: n, end: n + 1 };
    let var = Rvalue { ty: bits(8), span: at(3), kind: RvalueKind::Var };
    let inner = Rvalue { ty: bits(8), span: at(2), kind: RvalueKind::Cast(CastKind::Sign, Box::new(var)) };
    let sum = Rvalue {
        ty: bits(8),
        span: at(1),
        kind: RvalueKind::IntBinaryArith { op: IntBinaryArithOp::Add, lhs: lit(8, 1), rhs: Box::new(inner) },
    };
    let port = Rvalue { ty: bits(8), span: at(5), kind: RvalueKind::Port };
    let dead = Rvalue { ty: TypeKind::Error, span: at(6), kind: RvalueKind::Assignment };
    let all = Rvalue { ty: bits(24), span: at(0), kind: RvalueKind::Concat(vec![sum, port, dead]) };
    let mut out = vec![Note { kind: NoteKind::NotConstant, span: at(9), related: at(9) }];
    const_mir_notes(&all, &mut out);
    assert_eq!(
        out,
        vec![
            Note { kind: NoteKind::NotConstant, span: at(9), related: at(9) },
            Note { kind: NoteKind::CastIgnored, span: at(2), related: at(3) },
            Note { kind: NoteKind::NotConstant, span: at(3), related: at(3) },
            Note { kind: NoteKind::NotConstant, span: at(5), related: at(5) },
        ]
    );
    let mut again = Vec::new();
    assert_eq!(const_mir_rvalue(&all, &mut again), make_error(bits(24)));
    assert_eq!(again.len(), 3);
}

#[test]
fn an_enum_variant_has_its_position_as_value() {
    assert_eq!(enum_variant_value(bits(2), 6), Some(make_int(bits(2), big(2))));
    assert_eq!(enum_variant_value(TypeKind::Int(32), 6), Some(make_int(TypeKind::Int(32), big(6))));
    assert_eq!(enum_variant_value(TypeKind::Void, 6), None);
}

#[test]
fn a_copy_keeps_the_special_bits() {
    let mut marked = bit_vec::BitVec::from_elem(4, false);
    marked.set(2, true);
    let v = make_int_special(bits(4), big(5), marked.clone(), bit_vec::BitVec::from_elem(4, true));
    let copy = v.duplicate();
    assert_eq!(copy, v);
    match &copy.kind {
        ValueKind::Int(_, specials, xbits) => {
            assert_eq!(specials, &marked);
            assert!(xbits.all());
        }
        _ => panic!("no integer"),
    }
    let nested = make_array(TypeKind::PackedArray(1, Box::new(bits(4))), vec![v]);
    assert_eq!(nested.duplicate(), nested);
}
