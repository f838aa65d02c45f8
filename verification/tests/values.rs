use dire::handle::Handle;
use dire::hir::Intrinsic;
use dire::ids::{CastId, ModScopeId, StrId, StructId, StructLitId};
use dire::index_counter::IndexCounter;
use dire::mir::{Const, Function};
use dire::text::push_decimal;
use dire::ty::{FloatWidth, IntWidth, Type};

#[test]
fn intrinsic_names() {
    assert_eq!(Intrinsic::Mult.name(), "*");
    assert_eq!(Intrinsic::Div.name(), "/");
    assert_eq!(Intrinsic::Mod.name(), "%");
    assert_eq!(Intrinsic::Add.name(), "+");
    assert_eq!(Intrinsic::Sub.name(), "-");
    assert_eq!(Intrinsic::Less.name(), "<");
    assert_eq!(Intrinsic::LessOrEq.name(), "<=");
    assert_eq!(Intrinsic::Greater.name(), ">");
    assert_eq!(Intrinsic::GreaterOrEq.name(), ">=");
    assert_eq!(Intrinsic::Eq.name(), "==");
    assert_eq!(Intrinsic::NotEq.name(), "!=");
    assert_eq!(Intrinsic::BitwiseAnd.name(), "&");
    assert_eq!(Intrinsic::BitwiseOr.name(), "|");
    assert_eq!(Intrinsic::LogicalAnd.name(), "&&");
    assert_eq!(Intrinsic::LogicalOr.name(), "||");
    assert_eq!(Intrinsic::LogicalNot.name(), "!");
    assert_eq!(Intrinsic::Neg.name(), "-");
    assert_eq!(Intrinsic::Pos.name(), "+");
    assert_eq!(Intrinsic::Panic.name(), "panic");
    assert_eq!(Intrinsic::Print.name(), "print");
    assert_eq!(Intrinsic::Malloc.name(), "malloc");
    assert_eq!(Intrinsic::Free.name(), "free");
    assert_eq!(Intrinsic::SizeOf.name(), "size_of");
    assert_eq!(Intrinsic::StrideOf.name(), "stride_of");
    assert_eq!(Intrinsic::AlignOf.name(), "align_of");
    assert_eq!(Intrinsic::OffsetOf.name(), "offset_of");
    assert_eq!(Intrinsic::I8.name(), "i8");
    assert_eq!(Intrinsic::I16.name(), "i16");
    assert_eq!(Intrinsic::I32.name(), "i32");
    assert_eq!(Intrinsic::I64.name(), "i64");
    assert_eq!(Intrinsic::Isize.name(), "isize");
    assert_eq!(Intrinsic::U8.name(), "u8");
    assert_eq!(Intrinsic::U16.name(), "u16");
    assert_eq!(Intrinsic::U32.name(), "u32");
    assert_eq!(Intrinsic::U64.name(), "u64");
    assert_eq!(Intrinsic::Usize.name(), "usize");
    assert_eq!(Intrinsic::F32.name(), "f32");
    assert_eq!(Intrinsic::F64.name(), "f64");
    assert_eq!(Intrinsic::Never.name(), "never");
    assert_eq!(Intrinsic::Bool.name(), "bool");
    assert_eq!(Intrinsic::Void.name(), "void");
    assert_eq!(Intrinsic::Ty.name(), "type");
    assert_eq!(Intrinsic::Module.name(), "module");
    assert_eq!(Intrinsic::PrintType.name(), "print_type");
}

fn i64_ty() -> Type {
    Type::Int { width: IntWidth::W64, is_signed: true }
}

fn pointer_to(pointee: Type) -> Type {
    Type::Pointer { pointee: Box::new(pointee), is_mut: false }
}

#[test]
fn constant_types() {
    assert_eq!(Const::Int { lit: 5, ty: i64_ty() }.ty(), i64_ty());
    let float = Const::Float { bits: 1.5f64.to_bits(), ty: Type::Float(FloatWidth::W64) };
    assert_eq!(float.ty(), Type::Float(FloatWidth::W64));
    let text = Const::Str { id: StrId { raw: 2 }, ty: pointer_to(Type::Int { width: IntWidth::W8, is_signed: false }) };
    assert_eq!(text.ty(), pointer_to(Type::Int { width: IntWidth::W8, is_signed: false }));
    assert_eq!(Const::Bool(false).ty(), Type::Bool);
    assert_eq!(Const::Ty(i64_ty()).ty(), Type::Ty);
    assert_eq!(Const::Mod(ModScopeId { raw: 1 }).ty(), Type::Mod);
    let lit = Const::StructLit { fields: vec![Const::Bool(true)], id: StructId { raw: 8 } };
    assert_eq!(lit.ty(), Type::Struct(StructId { raw: 8 }));
}

#[test]
fn clone_of_constant_is_the_same_constant() {
    let inner = Const::StructLit {
        fields: vec![Const::Int { lit: 1, ty: i64_ty() }, Const::Ty(pointer_to(Type::Bool))],
        id: StructId { raw: 1 },
    };
    let outer = Const::StructLit {
        fields: vec![inner, Const::Bool(true), Const::StructLit { fields: vec![], id: StructId { raw: 2 } }],
        id: StructId { raw: 3 },
    };
    assert_eq!(outer.clone(), outer);
    for c in [
        Const::Int { lit: 9, ty: Type::Error },
        Const::Float { bits: 7, ty: Type::Float(FloatWidth::W32) },
        Const::Str { id: StrId { raw: 0 }, ty: Type::Never },
        Const::Bool(false),
        Const::Ty(Type::Void),
        Const::Mod(ModScopeId { raw: 5 }),
    ] {
        assert_eq!(c.clone(), c);
    }
}

#[test]
fn clone_of_type_is_the_same_type() {
    let deep = Type::Pointer { pointee: Box::new(pointer_to(Type::Struct(StructId { raw: 4 }))), is_mut: true };
    assert_eq!(deep.clone(), deep);
    assert_eq!(Type::default(), Type::Error);
    for ty in [Type::Error, i64_ty(), Type::Float(FloatWidth::W32), Type::Bool, Type::Void, Type::Mod, Type::Ty, Type::Never] {
        assert_eq!(ty.clone(), ty);
    }
}

#[test]
fn default_function_is_anonymous_and_empty() {
    let func = Function::default();
    assert!(func.name.is_none());
    assert_eq!(func.ret_ty, Type::Error);
    assert!(func.blocks.is_empty());
    assert!(func.decl.is_none());
}

#[test]
fn counter_issues_handles_in_order() {
    let mut counter: IndexCounter<CastId> = IndexCounter::new();
    assert_eq!(counter.len(), 0);
    assert_eq!(counter.next(), CastId { raw: 0 });
    assert_eq!(counter.next(), CastId { raw: 1 });
    assert_eq!(counter.next(), CastId { raw: 2 });
    assert_eq!(counter.len(), 3);
    let mut other: IndexCounter<StructLitId> = IndexCounter::default();
    assert_eq!(other.next().index(), 0);
    assert_eq!(other.len(), 1);
    assert_eq!(counter.len(), 3);
}

#[test]
fn handles_convert_to_and_from_slots() {
    assert_eq!(CastId::from_usize(0), CastId { raw: 0 });
    assert_eq!(CastId::from_usize(77).index(), 77);
    assert_eq!(StructId::from_usize(0xffff_ffff).raw, u32::MAX);
    assert_eq!(StructId { raw: u32::MAX }.index(), 0xffff_ffff);
    assert_eq!(dire::handle::MAX_INDEX, 0xffff_ffff);
}

#[test]
fn decimal_numerals() {
    for (n, expected) in [
        (0usize, "0"),
        (7, "7"),
        (9, "9"),
        (10, "10"),
        (11, "11"),
        (99, "99"),
        (100, "100"),
        (1234567890, "1234567890"),
        (4294967295, "4294967295"),
    ] {
        let mut text = String::from("op");
        push_decimal(&mut text, n);
        assert_eq!(text, format!("op{}", expected));
    }
    let mut text = String::new();
    push_decimal(&mut text, usize::MAX);
    assert_eq!(text, format!("{}", usize::MAX));
}
