use dire::handle::Handle;
use dire::hir::{return_value_decl, void_expr, void_type, Decl, Expr, Intrinsic, Item};
use dire::ids::{BlockId, DeclId, ExprId, FuncId, OpId};
use dire::mir::{void_instr, BlockState, Const, Function, Instr};
use dire::ty::{IntWidth, Type};
use dire::{Block, Code, InstrKey, Op};

fn i32_ty() -> Type {
    Type::Int { width: IntWidth::W32, is_signed: true }
}

fn function_of(blocks: Vec<BlockId>) -> Function {
    let mut func = Function::default();
    func.blocks = blocks;
    func
}

/// A function with one block that holds `voids` void instructions, `params`
/// parameters, and then `rest`.
fn build(code: &mut Code, voids: usize, params: usize, rest: Vec<Instr>) -> Function {
    let block = code.new_block();
    for _ in 0..voids {
        code.push_to_block(block, void_instr());
    }
    for _ in 0..params {
        let op = code.push_mir_instr(Instr::Parameter(i32_ty()));
        code.push_to_block(block, op);
    }
    for instr in rest {
        let op = code.push_mir_instr(instr);
        code.push_to_block(block, op);
    }
    function_of(vec![block])
}

#[test]
fn default_code_holds_the_void_instruction() {
    let code = Code::default();
    assert!(code.is_wf());
    assert_eq!(code.ops.len(), 1);
    assert_eq!(code.blocks.len(), 0);
    assert!(matches!(code.ops.get(void_instr()), Some(Op::MirInstr(Instr::Void))));
    assert_eq!(void_instr(), OpId { raw: 0 });
    let range = code.mir_code.source_ranges.get(&0).unwrap();
    assert_eq!((range.start, range.end), (usize::MAX, usize::MAX));
    assert_eq!(code.mir_code.block_state(BlockId { raw: 0 }), BlockState::Created);
    assert_eq!(code.hir_code.exprs.len(), 0);
}

#[test]
fn pushed_operations_get_fresh_handles_in_order() {
    let mut code = Code::default();
    let a = code.push_mir_instr(Instr::Alloca(Type::Bool));
    let b = code.push_mir_instr(Instr::Load(a));
    let c = code.push_mir_instr(Instr::Ret(b));
    assert_eq!((a.index(), b.index(), c.index()), (1, 2, 3));
    assert_eq!(code.ops.len(), 4);
    // Handles issued earlier still name their operations.
    assert!(matches!(code.ops.item(a).as_mir_instr(), Some(Instr::Alloca(Type::Bool))));
    assert!(matches!(code.ops.item(b).as_mir_instr(), Some(Instr::Load(op)) if *op == a));
    assert!(matches!(code.ops.item(c).as_mir_instr(), Some(Instr::Ret(op)) if *op == b));
    assert!(matches!(code.ops.item(void_instr()).as_mir_instr(), Some(Instr::Void)));
    assert!(code.ops.get(OpId { raw: 4 }).is_none());
    assert!(code.is_wf());
}

#[test]
fn op_accessors_tell_items_from_instructions() {
    let instr = Op::MirInstr(Instr::Ret(OpId { raw: 0 }));
    assert_eq!(instr.as_mir_instr(), Some(&Instr::Ret(OpId { raw: 0 })));
    assert!(instr.as_hir_item().is_none());
    let item = Op::HirItem(Item::Decl(DeclId { raw: 4 }));
    assert!(item.as_mir_instr().is_none());
    assert!(matches!(item.as_hir_item(), Some(Item::Decl(decl)) if decl.raw == 4));
    let item = Op::HirItem(Item::Expr(ExprId { raw: 2 }));
    assert!(matches!(item.as_hir_item(), Some(Item::Expr(expr)) if expr.raw == 2));
}

#[test]
fn blocks_keep_append_order_and_can_be_interleaved() {
    let mut code = Code::default();
    let b0 = code.new_block();
    let b1 = code.new_block();
    assert_eq!((b0.index(), b1.index()), (0, 1));
    let x = code.push_mir_instr(Instr::Alloca(Type::Bool));
    let y = code.push_mir_instr(Instr::Load(x));
    let z = code.push_mir_instr(Instr::Ret(y));
    code.push_to_block(b0, x);
    code.push_to_block(b1, z);
    code.push_to_block(b0, y);
    code.push_to_block(b1, x);
    assert_eq!(code.blocks.item(b0).ops, vec![x, y]);
    assert_eq!(code.blocks.item(b1).ops, vec![z, x]);
    assert!(code.blocks.get(BlockId { raw: 2 }).is_none());
    assert!(code.is_wf());
}

#[test]
fn block_default_is_empty() {
    assert!(Block::default().ops.is_empty());
}

#[test]
fn num_parameters_counts_the_leading_run() {
    for k in [0usize, 1, 2, 7] {
        let mut code = Code::default();
        let func = build(&mut code, 0, k, vec![Instr::Ret(void_instr())]);
        assert_eq!(code.num_parameters(&func), k);
    }
}

#[test]
fn num_parameters_starts_behind_the_void_instruction() {
    for k in [0usize, 1, 3] {
        let mut code = Code::default();
        let func = build(&mut code, 1, k, vec![Instr::Ret(void_instr())]);
        assert_eq!(code.num_parameters(&func), k);
    }
}

#[test]
fn num_parameters_stops_at_the_first_other_instruction() {
    let mut code = Code::default();
    let func = build(
        &mut code,
        0,
        2,
        vec![
            Instr::Alloca(Type::Bool),
            Instr::Parameter(i32_ty()),
            Instr::Parameter(i32_ty()),
            Instr::Ret(void_instr()),
        ],
    );
    assert_eq!(code.num_parameters(&func), 2);
}

#[test]
fn num_parameters_of_block_of_parameters_only() {
    let mut code = Code::default();
    let func = build(&mut code, 0, 3, vec![]);
    assert_eq!(code.num_parameters(&func), 3);
    let mut code = Code::default();
    let func = build(&mut code, 0, 0, vec![]);
    assert_eq!(code.num_parameters(&func), 0);
}

#[test]
fn num_parameters_stops_at_an_item() {
    let mut code = Code::default();
    code.hir_code.exprs.push(Expr::Void);
    let block = code.new_block();
    let p = code.push_mir_instr(Instr::Parameter(i32_ty()));
    let item = code.push_hir_item(Item::Expr(ExprId { raw: 0 }));
    let q = code.push_mir_instr(Instr::Parameter(i32_ty()));
    code.push_to_block(block, p);
    code.push_to_block(block, item);
    code.push_to_block(block, q);
    assert_eq!(code.num_parameters(&function_of(vec![block])), 1);
}

#[test]
fn num_parameters_looks_at_the_entry_block_only() {
    let mut code = Code::default();
    let entry = code.new_block();
    let other = code.new_block();
    let p = code.push_mir_instr(Instr::Parameter(i32_ty()));
    let q = code.push_mir_instr(Instr::Parameter(Type::Bool));
    code.push_to_block(entry, p);
    code.push_to_block(other, p);
    code.push_to_block(other, q);
    assert_eq!(code.num_parameters(&function_of(vec![entry, other])), 1);
    assert_eq!(code.num_parameters(&function_of(vec![other, entry])), 2);
}

#[test]
fn function_with_two_parameters_an_add_and_a_return() {
    let mut code = Code::default();
    let block = code.new_block();
    code.mir_code.start_block(block).unwrap();
    let a = code.push_mir_instr(Instr::Parameter(i32_ty()));
    let b = code.push_mir_instr(Instr::Parameter(i32_ty()));
    let sum = code.push_mir_instr(Instr::Intrinsic {
        arguments: vec![a, b],
        ty: i32_ty(),
        intr: Intrinsic::Add,
    });
    let ret = code.push_mir_instr(Instr::Ret(sum));
    for op in [a, b, sum, ret] {
        code.push_to_block(block, op);
    }
    let func = function_of(vec![block]);
    assert_eq!(code.num_parameters(&func), 2);
    // Until the block is sealed the function is not complete.
    assert_eq!(code.mir_code.first_unended_block(&func), Some(block));
    code.mir_code.end_block(block).unwrap();
    assert_eq!(code.mir_code.first_unended_block(&func), None);
    code.mir_code.check_all_blocks_ended(&func);
}

#[test]
fn get_mir_instr_by_handle_and_by_position() {
    let mut code = Code::default();
    code.hir_code.decls.push(Decl::ReturnValue);
    let block = code.new_block();
    let x = code.push_mir_instr(Instr::Const(Const::Bool(true)));
    let item = code.push_hir_item(Item::Decl(DeclId { raw: 0 }));
    let y = code.push_mir_instr(Instr::LogicalNot(x));
    code.push_to_block(block, y);
    code.push_to_block(block, item);
    code.push_to_block(block, x);
    assert_eq!(code.get_mir_instr(InstrKey::Op(y)), Some(&Instr::LogicalNot(x)));
    assert_eq!(code.get_mir_instr(InstrKey::Op(x)), Some(&Instr::Const(Const::Bool(true))));
    assert_eq!(code.get_mir_instr(InstrKey::Op(item)), None);
    assert_eq!(code.get_mir_instr(InstrKey::Op(void_instr())), Some(&Instr::Void));
    assert_eq!(code.get_mir_instr(InstrKey::InBlock { block, index: 0 }), Some(&Instr::LogicalNot(x)));
    assert_eq!(code.get_mir_instr(InstrKey::InBlock { block, index: 1 }), None);
    assert_eq!(
        code.get_mir_instr(InstrKey::InBlock { block, index: 2 }),
        Some(&Instr::Const(Const::Bool(true)))
    );
}

#[test]
fn dump_shows_the_operations_of_a_block_in_append_order() {
    let mut code = Code::default();
    let b0 = code.new_block();
    code.mir_code.start_block(b0).unwrap();
    let x = code.push_mir_instr(Instr::Const(Const::Bool(true)));
    let y = code.push_mir_instr(Instr::Ret(x));
    code.push_to_block(b0, x);
    code.push_to_block(b0, y);
    code.mir_code.end_block(b0).unwrap();
    assert_eq!(
        code.display_block(b0),
        "    %op1 = mir.Const(Bool(true))\n    %op2 = mir.Ret(OpId { raw: 1 })\n"
    );
    let func = function_of(vec![b0]);
    assert_eq!(
        code.display_func(&func, "f"),
        "fn f() {\n%bb0:\n    %op1 = mir.Const(Bool(true))\n    %op2 = mir.Ret(OpId { raw: 1 })\n}\n"
    );
}

#[test]
fn dump_shows_items_with_their_handles() {
    let mut code = Code::default();
    code.hir_code.exprs.push(Expr::Void);
    code.hir_code.exprs.push(Expr::ConstTy(Type::Void));
    code.hir_code.exprs.push(Expr::IntLit { lit: 12 });
    code.hir_code.decls.push(Decl::ReturnValue);
    code.hir_code.decls.push(Decl::Parameter { index: 0 });
    assert!(code.hir_code.has_reserved_slots());
    assert_eq!((void_expr().raw, void_type().raw, return_value_decl().raw), (0, 1, 0));
    let block = code.new_block();
    let e = code.push_hir_item(Item::Expr(ExprId { raw: 2 }));
    let d = code.push_hir_item(Item::Decl(DeclId { raw: 1 }));
    let c = code.push_mir_instr(Instr::Call { arguments: vec![e, d], func: FuncId { raw: 3 } });
    for op in [e, d, c, void_instr()] {
        code.push_to_block(block, op);
    }
    let expected = format!(
        "    %op1(%expr2) = hir.{:?}\n    %op2(%decl1) = hir.{:?}\n    %op3 = mir.{:?}\n    %op0 = mir.Void\n",
        Expr::IntLit { lit: 12 },
        Decl::Parameter { index: 0 },
        Instr::Call { arguments: vec![e, d], func: FuncId { raw: 3 } },
    );
    assert_eq!(code.display_block(block), expected);
    assert_eq!(
        code.display_block(block),
        "    %op1(%expr2) = hir.IntLit { lit: 12 }\n    %op2(%decl1) = hir.Parameter { index: 0 }\n    %op3 = mir.Call { arguments: [OpId { raw: 1 }, OpId { raw: 2 }], func: FuncId { raw: 3 } }\n    %op0 = mir.Void\n"
    );
}

#[test]
fn dump_of_function_lists_blocks_in_function_order() {
    let mut code = Code::default();
    let mut blocks = Vec::new();
    for _ in 0..12 {
        blocks.push(code.new_block());
    }
    let x = code.push_mir_instr(Instr::Br(blocks[11]));
    let y = code.push_mir_instr(Instr::Ret(void_instr()));
    code.push_to_block(blocks[3], x);
    code.push_to_block(blocks[11], y);
    let func = function_of(vec![blocks[3], blocks[0], blocks[11]]);
    assert_eq!(
        code.display_func(&func, "main"),
        "fn main() {\n%bb3:\n    %op1 = mir.Br(BlockId { raw: 11 })\n%bb0:\n%bb11:\n    %op2 = mir.Ret(OpId { raw: 0 })\n}\n"
    );
    assert_eq!(code.display_func(&function_of(vec![]), ""), "fn () {\n}\n");
    // The same arena always gives the same dump.
    assert_eq!(code.display_func(&func, "main"), code.display_func(&func, "main"));
}

#[test]
fn is_wf_finds_dangling_handles() {
    let mut code = Code::default();
    assert!(code.is_wf());
    let block = code.new_block();
    code.blocks.get_mut(block).unwrap().ops.push(OpId { raw: 9 });
    assert!(!code.is_wf());

    let mut code = Code::default();
    code.ops.push(Op::HirItem(Item::Expr(ExprId { raw: 0 })));
    assert!(!code.is_wf());
    code.hir_code.exprs.push(Expr::Void);
    assert!(code.is_wf());

    let mut code = Code::default();
    code.ops = dire::arena::OpArena::new();
    assert!(!code.is_wf());
    code.ops.push(Op::MirInstr(Instr::Ret(OpId { raw: 0 })));
    assert!(!code.is_wf());
}

#[test]
fn reserved_slots_are_checked() {
    let mut code = Code::default();
    assert!(!code.hir_code.has_reserved_slots());
    code.hir_code.exprs.push(Expr::Void);
    code.hir_code.exprs.push(Expr::ConstTy(Type::Void));
    assert!(!code.hir_code.has_reserved_slots());
    code.hir_code.decls.push(Decl::ReturnValue);
    assert!(code.hir_code.has_reserved_slots());

    let mut code = Code::default();
    code.hir_code.exprs.push(Expr::Void);
    code.hir_code.exprs.push(Expr::ConstTy(Type::Bool));
    code.hir_code.decls.push(Decl::ReturnValue);
    assert!(!code.hir_code.has_reserved_slots());
}
