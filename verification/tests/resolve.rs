use dire::hir::{
    return_value_decl, ConditionNs, Decl, HirCode, ImperScopeNs, ImperScopedDecl, ModScope,
    ModScopeNs, ModScopedDecl, Namespace,
};
use dire::ids::{ConditionNsId, DeclId, ExprId, ImperScopeId, ImperScopeNsId, ModScopeNsId};
use dire::resolve::Resolution;
use dire::symbol::Sym;
use string_interner::DefaultStringInterner;

struct Names {
    x: Sym,
    y: Sym,
    z: Sym,
    ret: Sym,
}

fn names() -> Names {
    let mut interner = DefaultStringInterner::default();
    Names {
        x: interner.get_or_intern("x"),
        y: interner.get_or_intern("y"),
        z: interner.get_or_intern("z"),
        ret: interner.get_or_intern("return_value"),
    }
}

fn local(name: Sym, id: u32) -> ImperScopedDecl {
    ImperScopedDecl { name, num_params: 0, id: DeclId { raw: id } }
}

fn decl_of(r: Resolution) -> Option<u32> {
    match r {
        Resolution::Decl(decl) => Some(decl.raw),
        _ => None,
    }
}

fn group_of(r: Resolution) -> Option<Vec<(usize, u32)>> {
    match r {
        Resolution::Group(group) => Some(group.iter().map(|d| (d.num_params, d.id.raw)).collect()),
        _ => None,
    }
}

/// A module that declares `x` twice and `y` once, and inside it an imperative
/// scope that declares `x`, `z`, `x` in that order.
fn nested(n: &Names) -> (HirCode, ModScopeNsId, ImperScopeNsId) {
    let mut hir = HirCode::default();
    let mut scope = ModScope::default();
    scope.declare(n.x, ModScopedDecl { num_params: 0, id: DeclId { raw: 10 } });
    scope.declare(n.y, ModScopedDecl { num_params: 1, id: DeclId { raw: 11 } });
    scope.declare(n.x, ModScopedDecl { num_params: 2, id: DeclId { raw: 12 } });
    let scope = hir.mod_scopes.push(scope);
    let module = hir.mod_ns.push(ModScopeNs { scope, parent: None });
    let imper = hir.imper_ns.push(ImperScopeNs {
        decls: vec![local(n.x, 20), local(n.z, 21), local(n.x, 22)],
        parent: Some(Namespace::Mod(module)),
    });
    (hir, module, imper)
}

#[test]
fn imper_scope_sees_only_declarations_before_the_offset() {
    let n = names();
    let (hir, _, imper) = nested(&n);
    let at = |end_offset: usize| Namespace::Imper { scope: imper, end_offset };
    // Before any declaration the name comes from the module.
    assert_eq!(group_of(hir.resolve(at(0), n.x)), Some(vec![(0, 10), (2, 12)]));
    // Behind the first declaration the local shadows the module's.
    assert_eq!(decl_of(hir.resolve(at(1), n.x)), Some(20));
    assert_eq!(decl_of(hir.resolve(at(2), n.x)), Some(20));
    // Behind the second declaration of the name, the later one shadows the earlier.
    assert_eq!(decl_of(hir.resolve(at(3), n.x)), Some(22));
    // `z` is declared at position 1: invisible at offsets 0 and 1, though a
    // later declaration has the name.
    assert!(matches!(hir.resolve(at(0), n.z), Resolution::Unresolved));
    assert!(matches!(hir.resolve(at(1), n.z), Resolution::Unresolved));
    assert_eq!(decl_of(hir.resolve(at(2), n.z)), Some(21));
    assert_eq!(decl_of(hir.resolve(at(3), n.z)), Some(21));
}

#[test]
fn offset_behind_the_scope_sees_the_whole_scope() {
    let n = names();
    let (hir, _, imper) = nested(&n);
    let ns = Namespace::Imper { scope: imper, end_offset: 100 };
    assert_eq!(decl_of(hir.resolve(ns, n.x)), Some(22));
    assert_eq!(decl_of(hir.resolve(ns, n.z)), Some(21));
    let ns = Namespace::Imper { scope: imper, end_offset: usize::MAX };
    assert_eq!(decl_of(hir.resolve(ns, n.x)), Some(22));
}

#[test]
fn module_scope_returns_the_whole_group() {
    let n = names();
    let (hir, module, imper) = nested(&n);
    assert_eq!(group_of(hir.resolve(Namespace::Mod(module), n.x)), Some(vec![(0, 10), (2, 12)]));
    assert_eq!(group_of(hir.resolve(Namespace::Mod(module), n.y)), Some(vec![(1, 11)]));
    assert!(matches!(hir.resolve(Namespace::Mod(module), n.z), Resolution::Unresolved));
    // A name that the imperative scope does not declare is found in the module.
    let ns = Namespace::Imper { scope: imper, end_offset: 3 };
    assert_eq!(group_of(hir.resolve(ns, n.y)), Some(vec![(1, 11)]));
    assert!(matches!(hir.resolve(ns, n.ret), Resolution::Unresolved));
}

#[test]
fn inner_scopes_shadow_outer_scopes() {
    let n = names();
    let (mut hir, _, outer) = nested(&n);
    let inner = hir.imper_ns.push(ImperScopeNs {
        decls: vec![local(n.y, 30)],
        parent: Some(Namespace::Imper { scope: outer, end_offset: 1 }),
    });
    let ns = Namespace::Imper { scope: inner, end_offset: 1 };
    assert_eq!(decl_of(hir.resolve(ns, n.y)), Some(30));
    // The outer scope is seen as of the offset at which the inner one opens.
    assert_eq!(decl_of(hir.resolve(ns, n.x)), Some(20));
    assert!(matches!(hir.resolve(ns, n.z), Resolution::Unresolved));
    let ns = Namespace::Imper { scope: inner, end_offset: 0 };
    assert_eq!(group_of(hir.resolve(ns, n.y)), Some(vec![(1, 11)]));
}

#[test]
fn member_reference_is_left_to_the_type_checker() {
    let n = names();
    let (hir, _, _) = nested(&n);
    let ns = Namespace::MemberRef { base_expr: ExprId { raw: 7 } };
    assert!(matches!(hir.resolve(ns, n.x), Resolution::Member(base) if base.raw == 7));
    assert!(matches!(hir.resolve(ns, n.ret), Resolution::Member(base) if base.raw == 7));
    assert!(hir.chain_ends(ns, 0));
}

/// A function, declaration 1, with the parameters `x` and `y`, declarations 2
/// and 3, and a condition namespace inside the module of `nested`.
fn with_condition(n: &Names) -> (HirCode, ConditionNsId) {
    let (mut hir, module, _) = nested(n);
    hir.decls.push(Decl::ReturnValue);
    hir.names.push(n.ret);
    hir.decls.push(Decl::Computed {
        param_tys: vec![],
        params: DeclId { raw: 2 }..DeclId { raw: 4 },
        scope: ImperScopeId { raw: 0 },
    });
    hir.names.push(n.z);
    hir.decls.push(Decl::Parameter { index: 0 });
    hir.names.push(n.x);
    hir.decls.push(Decl::Parameter { index: 1 });
    hir.names.push(n.y);
    // An unrelated declaration behind the parameters that shares a name.
    hir.decls.push(Decl::Parameter { index: 0 });
    hir.names.push(n.z);
    let condition = hir.condition_ns.push(ConditionNs {
        func: return_value_decl(),
        parent: Some(Namespace::Mod(module)),
    });
    (hir, condition)
}

#[test]
fn conditions_see_the_parameters_once_bound() {
    let n = names();
    let (mut hir, condition) = with_condition(&n);
    let pre = Namespace::Precondition(condition);
    let post = Namespace::Postcondition(condition);
    // Bound to the placeholder, the namespace exposes no parameters.
    assert_eq!(group_of(hir.resolve(pre, n.x)), Some(vec![(0, 10), (2, 12)]));
    assert_eq!(group_of(hir.resolve(post, n.y)), Some(vec![(1, 11)]));
    hir.bind_condition_ns(condition, DeclId { raw: 1 });
    assert_eq!(hir.condition_ns.item(condition).func, DeclId { raw: 1 });
    assert!(matches!(hir.condition_ns.item(condition).parent, Some(Namespace::Mod(_))));
    assert_eq!(decl_of(hir.resolve(pre, n.x)), Some(2));
    assert_eq!(decl_of(hir.resolve(pre, n.y)), Some(3));
    assert_eq!(decl_of(hir.resolve(post, n.x)), Some(2));
    assert_eq!(decl_of(hir.resolve(post, n.y)), Some(3));
    // `z` names no parameter: declaration 4 lies outside the parameter range.
    assert!(matches!(hir.resolve(pre, n.z), Resolution::Unresolved));
    assert!(matches!(hir.resolve(post, n.z), Resolution::Unresolved));
}

#[test]
fn only_postconditions_see_the_return_value() {
    let n = names();
    let (mut hir, condition) = with_condition(&n);
    hir.bind_condition_ns(condition, DeclId { raw: 1 });
    assert!(matches!(hir.resolve(Namespace::Precondition(condition), n.ret), Resolution::Unresolved));
    assert_eq!(decl_of(hir.resolve(Namespace::Postcondition(condition), n.ret)), Some(0));
    let (hir, module, imper) = nested(&n);
    assert!(matches!(hir.resolve(Namespace::Mod(module), n.ret), Resolution::Unresolved));
    let ns = Namespace::Imper { scope: imper, end_offset: 3 };
    assert!(matches!(hir.resolve(ns, n.ret), Resolution::Unresolved));
}

#[test]
fn binding_changes_no_other_condition() {
    let n = names();
    let (mut hir, first) = with_condition(&n);
    let second = hir.condition_ns.push(ConditionNs {
        func: DeclId { raw: 9 },
        parent: Some(Namespace::Precondition(first)),
    });
    hir.bind_condition_ns(first, DeclId { raw: 1 });
    assert_eq!(hir.condition_ns.item(first).func, DeclId { raw: 1 });
    assert_eq!(hir.condition_ns.item(second).func, DeclId { raw: 9 });
    assert_eq!(hir.condition_ns.len(), 2);
    // The second condition is not bound to a function: the name comes from its parent.
    assert_eq!(decl_of(hir.resolve(Namespace::Postcondition(second), n.x)), Some(2));
}

#[test]
fn chain_test_tells_whether_a_chain_ends() {
    let n = names();
    let (mut hir, module, imper) = nested(&n);
    let ns = Namespace::Imper { scope: imper, end_offset: 0 };
    assert!(!hir.chain_ends(ns, 0));
    assert!(hir.chain_ends(ns, 1));
    assert!(hir.chain_ends(ns, 5));
    assert!(hir.chain_ends(Namespace::Mod(module), 0));
    // A namespace that the representation does not hold.
    assert!(!hir.chain_ends(Namespace::Mod(ModScopeNsId { raw: 4 }), 9));
    assert!(!hir.holds_namespace(Namespace::Imper { scope: ImperScopeNsId { raw: 1 }, end_offset: 0 }));
    assert!(hir.holds_namespace(ns));
    assert!(!hir.holds_namespace(Namespace::Precondition(ConditionNsId { raw: 0 })));
    // A chain that runs in a circle never ends.
    hir.imper_ns.get_mut(imper).unwrap().parent = Some(ns);
    assert!(!hir.chain_ends(ns, 1000));
    // A chain that leaves the representation does not end either.
    hir.imper_ns.get_mut(imper).unwrap().parent = Some(Namespace::Mod(ModScopeNsId { raw: 4 }));
    assert!(!hir.chain_ends(ns, 1000));
}

#[test]
fn module_scope_groups_declarations_by_name() {
    let n = names();
    let mut scope = ModScope::default();
    assert!(scope.lookup(n.x).is_none());
    scope.declare(n.x, ModScopedDecl { num_params: 0, id: DeclId { raw: 1 } });
    scope.declare(n.y, ModScopedDecl { num_params: 0, id: DeclId { raw: 2 } });
    scope.declare(n.x, ModScopedDecl { num_params: 3, id: DeclId { raw: 3 } });
    scope.declare(n.x, ModScopedDecl { num_params: 1, id: DeclId { raw: 4 } });
    assert_eq!(scope.decl_groups.len(), 2);
    let ids = |name: Sym| -> Vec<u32> { scope.lookup(name).unwrap().iter().map(|d| d.id.raw).collect() };
    assert_eq!(ids(n.x), vec![1, 3, 4]);
    assert_eq!(ids(n.y), vec![2]);
    assert!(scope.lookup(n.z).is_none());
}
