use dire::arena::{
    BlockArena, ConditionNsArena, DeclArena, ExprArena, ImperNsArena, ModNsArena, ModScopeArena,
    NameArena, OpArena,
};
use dire::handle::Handle;
use dire::hir::{
    ConditionNs, Decl, Expr, ImperScopeNs, ImperScopedDecl, ModScope, ModScopeNs, ModScopedDecl,
    Namespace,
};
use dire::ids::{
    BlockId, ConditionNsId, DeclId, ExprId, ImperScopeNsId, ModScopeId, ModScopeNsId, OpId,
};
use dire::mir::{Const, Instr};
use dire::{Block, Op};
use string_interner::DefaultStringInterner;

#[test]
fn appended_operations_come_back_in_order_under_their_handles() {
    let mut arena = OpArena::new();
    assert_eq!(arena.len(), 0);
    assert!(arena.get(OpId { raw: 0 }).is_none());
    let mut handles = Vec::new();
    for i in 0..40u64 {
        handles.push(arena.push(Op::MirInstr(Instr::Const(Const::Bool(i % 3 == 0)))));
        assert_eq!(arena.len(), i as usize + 1);
    }
    for (i, handle) in handles.iter().enumerate() {
        assert_eq!(handle.index(), i);
        assert_eq!(
            arena.item(*handle).as_mir_instr(),
            Some(&Instr::Const(Const::Bool(i % 3 == 0)))
        );
    }
    // Going through the slots in order yields the items in append order.
    for i in 0..arena.len() {
        assert_eq!(
            arena.get(OpId::from_usize(i)).unwrap().as_mir_instr(),
            Some(&Instr::Const(Const::Bool(i % 3 == 0)))
        );
    }
    assert!(arena.get(OpId { raw: 40 }).is_none());
}

#[test]
fn each_arena_issues_handles_from_zero() {
    let mut exprs = ExprArena::new();
    let mut decls = DeclArena::new();
    let a = exprs.push(Expr::IntLit { lit: 4 });
    let b = exprs.push(Expr::Deref(a));
    let c = decls.push(Decl::Const(b));
    assert_eq!((a, b, c), (ExprId { raw: 0 }, ExprId { raw: 1 }, DeclId { raw: 0 }));
    assert!(matches!(exprs.get(a), Some(Expr::IntLit { lit: 4 })));
    assert!(matches!(exprs.item(b), Expr::Deref(inner) if *inner == a));
    assert!(matches!(decls.item(c), Decl::Const(expr) if *expr == b));
    assert_eq!((exprs.len(), decls.len()), (2, 1));
    assert!(decls.get(DeclId { raw: 1 }).is_none());
}

#[test]
fn names_are_kept_by_declaration() {
    let mut interner = DefaultStringInterner::default();
    let x = interner.get_or_intern("x");
    let y = interner.get_or_intern("y");
    let mut names = NameArena::new();
    let first = names.push(y);
    let second = names.push(x);
    assert_eq!(*names.item(first), y);
    assert_eq!(*names.item(second), x);
    assert_eq!(names.get(DeclId { raw: 2 }), None);
    assert_eq!(names.len(), 2);
}

#[test]
fn block_can_be_changed_in_place() {
    let mut blocks = BlockArena::new();
    let a = blocks.push(Block::default());
    let b = blocks.push(Block::default());
    blocks.get_mut(b).unwrap().ops.push(OpId { raw: 3 });
    blocks.get_mut(a).unwrap().ops.push(OpId { raw: 1 });
    blocks.get_mut(b).unwrap().ops.push(OpId { raw: 2 });
    assert_eq!(blocks.item(a).ops, vec![OpId { raw: 1 }]);
    assert_eq!(blocks.item(b).ops, vec![OpId { raw: 3 }, OpId { raw: 2 }]);
    assert!(blocks.get_mut(BlockId { raw: 2 }).is_none());
    assert_eq!(blocks.len(), 2);
}

#[test]
fn module_namespaces_keep_scope_and_parent() {
    let mut arena = ModNsArena::new();
    let id = arena.push(ModScopeNs { scope: ModScopeId { raw: 6 }, parent: None });
    assert_eq!(id, ModScopeNsId { raw: 0 });
    assert_eq!(arena.item(id).scope, ModScopeId { raw: 6 });
    assert!(arena.item(id).parent.is_none());
    assert!(arena.get(ModScopeNsId { raw: 1 }).is_none());
    assert_eq!(arena.len(), 1);
}

#[test]
fn scopes_can_be_filled_where_they_stand() {
    let mut interner = DefaultStringInterner::default();
    let x = interner.get_or_intern("x");
    let y = interner.get_or_intern("y");

    let mut scopes = ModScopeArena::new();
    let first = scopes.push(ModScope::default());
    let second = scopes.push(ModScope::default());
    assert_eq!((first, second), (ModScopeId { raw: 0 }, ModScopeId { raw: 1 }));
    scopes.get_mut(second).unwrap().declare(x, ModScopedDecl { num_params: 2, id: DeclId { raw: 5 } });
    assert!(scopes.item(first).lookup(x).is_none());
    assert_eq!(scopes.item(second).lookup(x).unwrap().len(), 1);
    assert_eq!(scopes.item(second).lookup(x).unwrap()[0].id, DeclId { raw: 5 });
    assert!(scopes.item(second).lookup(y).is_none());
    assert!(scopes.get_mut(ModScopeId { raw: 2 }).is_none());
    assert!(scopes.get(ModScopeId { raw: 2 }).is_none());
    assert_eq!(scopes.len(), 2);

    let mut namespaces = ImperNsArena::new();
    let outer = namespaces.push(ImperScopeNs { decls: vec![], parent: None });
    let inner = namespaces.push(ImperScopeNs {
        decls: vec![],
        parent: Some(Namespace::Imper { scope: outer, end_offset: 0 }),
    });
    namespaces.get_mut(inner).unwrap().decls.push(ImperScopedDecl {
        name: y,
        num_params: 0,
        id: DeclId { raw: 8 },
    });
    assert_eq!(namespaces.item(outer).decls.len(), 0);
    assert_eq!(namespaces.item(inner).decls.len(), 1);
    assert_eq!(namespaces.item(inner).decls[0].name, y);
    assert!(namespaces.get(ImperScopeNsId { raw: 2 }).is_none());
    assert!(namespaces.get_mut(ImperScopeNsId { raw: 2 }).is_none());
    assert_eq!(namespaces.len(), 2);

    let mut conditions = ConditionNsArena::new();
    assert_eq!(conditions.len(), 0);
    let id = conditions.push(ConditionNs { func: DeclId { raw: 0 }, parent: None });
    conditions.get_mut(id).unwrap().func = DeclId { raw: 3 };
    assert_eq!(conditions.item(id).func, DeclId { raw: 3 });
    assert!(conditions.get(ConditionNsId { raw: 1 }).is_none());
    assert!(conditions.get_mut(ConditionNsId { raw: 1 }).is_none());
    assert_eq!(conditions.len(), 1);
}

#[test]
fn reserved_item_is_the_first() {
    assert_eq!(dire::hir::void_expr_item().raw, 0);
}
