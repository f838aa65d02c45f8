//! Name resolution: a name is looked up in a namespace and, where the
//! namespace does not declare it, in the namespaces that enclose it, one
//! parent after the other.

use vstd::prelude::*;
use crate::handle::Handle;
use crate::hir::{
    return_value_decl, Decl, HirCode, ImperScopedDecl, ModScopedDecl, Namespace,
};
use crate::ids::{ConditionNsId, DeclId, ExprId};
use crate::symbol::{same_symbol, Sym};

verus! {

/// What resolving a name comes to, as a value of specifications.
pub enum Resolved {
    /// No namespace of the chain declares the name.
    Unresolved,
    /// A declaration of an imperative scope, a parameter, or the return value.
    Decl(DeclId),
    /// The declarations that a module scope holds under the name: the whole
    /// group in declared order. Which of them is meant is left to a later pass.
    Group(Seq<ModScopedDecl>),
    /// A field of the type of the expression, which the type checker looks up.
    Member(ExprId),
}

/// What resolving a name comes to.
#[derive(Debug)]
pub enum Resolution<'a> {
    /// No namespace of the chain declares the name.
    Unresolved,
    /// A declaration of an imperative scope, a parameter, or the return value.
    Decl(DeclId),
    /// The declarations that a module scope holds under the name: the whole
    /// group in declared order. Which of them is meant is left to a later pass.
    Group(&'a Vec<ModScopedDecl>),
    /// A field of the type of the expression, which the type checker looks up.
    Member(ExprId),
}

impl<'a> View for Resolution<'a> {
    type V = Resolved;

    open spec fn view(&self) -> Resolved {
        match *self {
            Resolution::Unresolved => Resolved::Unresolved,
            Resolution::Decl(decl) => Resolved::Decl(decl),
            Resolution::Group(group) => Resolved::Group(group@),
            Resolution::Member(base_expr) => Resolved::Member(base_expr),
        }
    }
}

/// The position of the last declaration named `name` among the first
/// `end_offset` declarations of an imperative scope: the declaration that a
/// use at that offset sees, later ones shadowing earlier ones.
pub open spec fn last_visible(decls: Seq<ImperScopedDecl>, end_offset: nat, name: Sym) -> Option<int>
    decreases end_offset,
{
    if end_offset == 0 {
        None
    } else if end_offset <= decls.len() && decls[end_offset - 1].name == name {
        Some(end_offset - 1)
    } else {
        last_visible(decls, (end_offset - 1) as nat, name)
    }
}

/// The first position in `from..to` at which `names` holds `name`.
pub open spec fn first_named(names: Seq<Sym>, from: int, to: int, name: Sym) -> Option<int>
    decreases to - from,
{
    if from < 0 || from >= to || from >= names.len() {
        None
    } else if names[from] == name {
        Some(from)
    } else {
        first_named(names, from + 1, to, name)
    }
}

/// Shadowing by position: a name resolves to the last declaration of that
/// name before `end_offset`, and never to a declaration at or behind
/// `end_offset`, whether or not one there has the name.
pub proof fn lemma_last_visible(decls: Seq<ImperScopedDecl>, end_offset: nat, name: Sym)
    ensures
        match last_visible(decls, end_offset, name) {
            Some(p) => {
                &&& 0 <= p < end_offset
                &&& p < decls.len()
                &&& decls[p].name == name
                &&& forall|q: int|
                    p < q < end_offset && q < decls.len() ==> (#[trigger] decls[q]).name != name
            },
            None => forall|q: int|
                0 <= q < end_offset && q < decls.len() ==> (#[trigger] decls[q]).name != name,
        },
    decreases end_offset,
{
    if end_offset > 0 {
        lemma_last_visible(decls, (end_offset - 1) as nat, name);
    }
}

/// Declarations at or behind `end_offset` do not matter: scopes that agree
/// in their first `end_offset` declarations resolve alike.
pub proof fn lemma_later_decls_invisible(
    a: Seq<ImperScopedDecl>,
    b: Seq<ImperScopedDecl>,
    end_offset: nat,
    name: Sym,
)
    requires
        end_offset <= a.len(),
        end_offset <= b.len(),
        a.take(end_offset as int) == b.take(end_offset as int),
    ensures
        last_visible(a, end_offset, name) == last_visible(b, end_offset, name),
    decreases end_offset,
{
    if end_offset > 0 {
        assert(a[end_offset - 1] == a.take(end_offset as int)[end_offset - 1]);
        assert(b[end_offset - 1] == b.take(end_offset as int)[end_offset - 1]);
        assert(a.take(end_offset - 1) == a.take(end_offset as int).take(end_offset - 1));
        assert(b.take(end_offset - 1) == b.take(end_offset as int).take(end_offset - 1));
        lemma_later_decls_invisible(a, b, (end_offset - 1) as nat, name);
    }
}

/// An offset behind the last declaration sees what the end of the scope sees.
proof fn lemma_last_visible_clamped(decls: Seq<ImperScopedDecl>, end_offset: nat, name: Sym)
    requires
        end_offset >= decls.len(),
    ensures
        last_visible(decls, end_offset, name) == last_visible(decls, decls.len(), name),
    decreases end_offset,
{
    if end_offset > decls.len() {
        lemma_last_visible_clamped(decls, (end_offset - 1) as nat, name);
    }
}

/// The position of the declaration that a use at `end_offset` sees under `name`.
fn find_last_visible(decls: &Vec<ImperScopedDecl>, end_offset: usize, name: Sym) -> (r: Option<usize>)
    ensures
        match r {
            Some(p) => p < decls@.len() && last_visible(decls@, end_offset as nat, name) == Some(p as int),
            None => last_visible(decls@, end_offset as nat, name) is None,
        },
{
    let mut i = if end_offset < decls.len() {
        end_offset
    } else {
        decls.len()
    };
    proof {
        if end_offset >= decls@.len() {
            lemma_last_visible_clamped(decls@, end_offset as nat, name);
        }
    }
    while i > 0
        invariant
            i <= decls@.len(),
            last_visible(decls@, end_offset as nat, name) == last_visible(decls@, i as nat, name),
        decreases i,
    {
        if same_symbol(decls[i - 1].name, name) {
            return Some(i - 1);
        }
        i -= 1;
    }
    None
}

impl HirCode {
    /// The namespace that encloses `ns`.
    pub open spec fn parent_of(&self, ns: Namespace) -> Option<Namespace> {
        match ns {
            Namespace::Imper { scope, .. } => self.imper_ns@[scope.slot() as int].parent,
            Namespace::Mod(id) => self.mod_ns@[id.slot() as int].parent,
            Namespace::MemberRef { .. } => None,
            Namespace::Precondition(id) => self.condition_ns@[id.slot() as int].parent,
            Namespace::Postcondition(id) => self.condition_ns@[id.slot() as int].parent,
        }
    }

    /// Whether `ns` names a namespace that the representation holds.
    pub open spec fn ns_in_range(&self, ns: Namespace) -> bool {
        match ns {
            Namespace::Imper { scope, .. } => scope.slot() < self.imper_ns@.len(),
            Namespace::Mod(id) => {
                &&& id.slot() < self.mod_ns@.len()
                &&& self.mod_ns@[id.slot() as int].scope.slot() < self.mod_scopes@.len()
            },
            Namespace::MemberRef { .. } => true,
            Namespace::Precondition(id) => id.slot() < self.condition_ns@.len(),
            Namespace::Postcondition(id) => id.slot() < self.condition_ns@.len(),
        }
    }

    /// Whether the chain of parents that starts at `ns` stays within the
    /// representation and ends after at most `depth` steps.
    pub open spec fn chain_ends_within(&self, ns: Namespace, depth: nat) -> bool
        decreases depth,
    {
        &&& self.ns_in_range(ns)
        &&& match self.parent_of(ns) {
            Some(parent) => depth > 0 && self.chain_ends_within(parent, (depth - 1) as nat),
            None => true,
        }
    }

    /// Whether the chain of parents that starts at `ns` stays within the
    /// representation and does not run in a circle.
    pub open spec fn chain_wf(&self, ns: Namespace) -> bool {
        exists|depth: nat| self.chain_ends_within(ns, depth)
    }

    /// A number of steps within which the chain that starts at `ns` ends.
    pub open spec fn chain_depth(&self, ns: Namespace) -> nat {
        choose|depth: nat| self.chain_ends_within(ns, depth)
    }

    /// The parameter of the function `func` that is named `name`: the first
    /// such among the declarations that the function lists as its parameters.
    /// A declaration that is not a function, as the placeholder of a
    /// condition that is not bound yet may be, has no parameters.
    pub open spec fn parameter_named(&self, func: DeclId, name: Sym) -> Option<DeclId> {
        if func.slot() < self.decls@.len() {
            match self.decls@[func.slot() as int] {
                Decl::Computed { params, .. } => match first_named(
                    self.names@,
                    params.start.raw as int,
                    params.end.raw as int,
                    name,
                ) {
                    Some(p) => Some(DeclId { raw: p as u32 }),
                    None => None,
                },
                _ => None,
            }
        } else {
            None
        }
    }

    /// What `ns` itself says of `name`, its parents left aside.
    pub open spec fn lookup_local(&self, ns: Namespace, name: Sym) -> Resolved {
        match ns {
            Namespace::Imper { scope, end_offset } => {
                let decls = self.imper_ns@[scope.slot() as int].decls@;
                match last_visible(decls, end_offset as nat, name) {
                    Some(p) => Resolved::Decl(decls[p].id),
                    None => Resolved::Unresolved,
                }
            },
            Namespace::Mod(id) => {
                let scope = self.mod_ns@[id.slot() as int].scope;
                match self.mod_scopes@[scope.slot() as int].group(name) {
                    Some(group) => Resolved::Group(group),
                    None => Resolved::Unresolved,
                }
            },
            Namespace::MemberRef { base_expr } => Resolved::Member(base_expr),
            Namespace::Precondition(id) => {
                match self.parameter_named(self.condition_ns@[id.slot() as int].func, name) {
                    Some(decl) => Resolved::Decl(decl),
                    None => Resolved::Unresolved,
                }
            },
            Namespace::Postcondition(id) => {
                match self.parameter_named(self.condition_ns@[id.slot() as int].func, name) {
                    Some(decl) => Resolved::Decl(decl),
                    None => if self.names@.len() > 0 && self.names@[0] == name {
                        Resolved::Decl(return_value_decl())
                    } else {
                        Resolved::Unresolved
                    },
                }
            },
        }
    }

    /// What `name` resolves to in `ns`, following at most `depth` parents:
    /// what `ns` itself says of it, else what its parent resolves it to.
    pub open spec fn resolve_within(&self, ns: Namespace, name: Sym, depth: nat) -> Resolved
        decreases depth,
    {
        match self.lookup_local(ns, name) {
            Resolved::Unresolved => match self.parent_of(ns) {
                Some(parent) => if depth > 0 {
                    self.resolve_within(parent, name, (depth - 1) as nat)
                } else {
                    Resolved::Unresolved
                },
                None => Resolved::Unresolved,
            },
            found => found,
        }
    }

    /// What `name` resolves to in `ns`.
    pub open spec fn resolution(&self, ns: Namespace, name: Sym) -> Resolved {
        self.resolve_within(ns, name, self.chain_depth(ns))
    }

    /// The number of parents that may be followed does not matter once it
    /// reaches the end of the chain.
    pub proof fn lemma_resolve_within(&self, ns: Namespace, name: Sym, d1: nat, d2: nat)
        requires
            self.chain_ends_within(ns, d1),
            self.chain_ends_within(ns, d2),
        ensures
            self.resolve_within(ns, name, d1) == self.resolve_within(ns, name, d2),
        decreases d1,
    {
        match self.parent_of(ns) {
            Some(parent) => {
                self.lemma_resolve_within(parent, name, (d1 - 1) as nat, (d2 - 1) as nat);
            },
            None => {},
        }
    }

    /// Resolution walks outward: a name resolves to what the namespace itself
    /// says of it, and where that is nothing, to what it resolves to in the
    /// parent; it is unresolved where no parent is left.
    pub proof fn lemma_resolution(&self, ns: Namespace, name: Sym)
        requires
            self.chain_wf(ns),
        ensures
            self.resolution(ns, name) == match self.lookup_local(ns, name) {
                Resolved::Unresolved => match self.parent_of(ns) {
                    Some(parent) => self.resolution(parent, name),
                    None => Resolved::Unresolved,
                },
                found => found,
            },
            self.parent_of(ns) matches Some(parent) ==> self.chain_wf(parent),
    {
        let depth = self.chain_depth(ns);
        match self.parent_of(ns) {
            Some(parent) => {
                assert(self.chain_ends_within(parent, (depth - 1) as nat));
                self.lemma_resolve_within(
                    parent,
                    name,
                    (depth - 1) as nat,
                    self.chain_depth(parent),
                );
            },
            None => {},
        }
    }

    /// A use in an imperative scope never sees a declaration at or behind its
    /// offset: it resolves to the last declaration of the name before the
    /// offset, and where there is none, to what the enclosing namespaces
    /// resolve the name to.
    pub proof fn lemma_imper_resolution(&self, ns: Namespace, name: Sym)
        requires
            self.chain_wf(ns),
            ns is Imper,
        ensures
            ({
                let decls = self.imper_ns@[ns->scope.slot() as int].decls@;
                match last_visible(decls, ns->end_offset as nat, name) {
                    Some(p) => {
                        &&& p < ns->end_offset
                        &&& decls[p].name == name
                        &&& self.resolution(ns, name) == Resolved::Decl(decls[p].id)
                    },
                    None => self.resolution(ns, name) == match self.parent_of(ns) {
                        Some(parent) => self.resolution(parent, name),
                        None => Resolved::Unresolved,
                    },
                }
            }),
    {
        let decls = self.imper_ns@[ns->scope.slot() as int].decls@;
        lemma_last_visible(decls, ns->end_offset as nat, name);
        self.lemma_resolution(ns, name);
    }

    /// The namespace that encloses `ns`.
    fn parent(&self, ns: Namespace) -> (r: Option<Namespace>)
        requires
            self.ns_in_range(ns),
        ensures
            r == self.parent_of(ns),
    {
        match ns {
            Namespace::Imper { scope, .. } => self.imper_ns.item(scope).parent,
            Namespace::Mod(id) => self.mod_ns.item(id).parent,
            Namespace::MemberRef { .. } => None,
            Namespace::Precondition(id) => self.condition_ns.item(id).parent,
            Namespace::Postcondition(id) => self.condition_ns.item(id).parent,
        }
    }

    /// The first declaration with a number in `from..to` that is named `name`.
    fn find_named(&self, from: u32, to: u32, name: Sym) -> (r: Option<DeclId>)
        ensures
            r == match first_named(self.names@, from as int, to as int, name) {
                Some(p) => Some(DeclId { raw: p as u32 }),
                None => None,
            },
    {
        let mut p: u32 = from;
        while p < to
            invariant
                from <= p,
                first_named(self.names@, from as int, to as int, name) == first_named(
                    self.names@,
                    p as int,
                    to as int,
                    name,
                ),
            decreases to - p,
        {
            match self.names.get(DeclId { raw: p }) {
                Some(declared) => {
                    if same_symbol(*declared, name) {
                        return Some(DeclId { raw: p });
                    }
                },
                None => {
                    return None;
                },
            }
            p += 1;
        }
        None
    }

    /// The parameter of the function `func` that is named `name`.
    fn find_parameter(&self, func: DeclId, name: Sym) -> (r: Option<DeclId>)
        ensures
            r == self.parameter_named(func, name),
    {
        match self.decls.get(func) {
            Some(Decl::Computed { params, .. }) => self.find_named(
                params.start.raw,
                params.end.raw,
                name,
            ),
            _ => None,
        }
    }

    /// What `ns` itself says of `name`, its parents left aside.
    fn find_local<'a>(&'a self, ns: Namespace, name: Sym) -> (r: Resolution<'a>)
        requires
            self.ns_in_range(ns),
        ensures
            r@ == self.lookup_local(ns, name),
    {
        match ns {
            Namespace::Imper { scope, end_offset } => {
                let decls = &self.imper_ns.item(scope).decls;
                match find_last_visible(decls, end_offset, name) {
                    Some(p) => Resolution::Decl(decls[p].id),
                    None => Resolution::Unresolved,
                }
            },
            Namespace::Mod(id) => {
                let scope = self.mod_ns.item(id).scope;
                match self.mod_scopes.item(scope).lookup(name) {
                    Some(group) => Resolution::Group(group),
                    None => Resolution::Unresolved,
                }
            },
            Namespace::MemberRef { base_expr } => Resolution::Member(base_expr),
            Namespace::Precondition(id) => {
                match self.find_parameter(self.condition_ns.item(id).func, name) {
                    Some(decl) => Resolution::Decl(decl),
                    None => Resolution::Unresolved,
                }
            },
            Namespace::Postcondition(id) => {
                match self.find_parameter(self.condition_ns.item(id).func, name) {
                    Some(decl) => Resolution::Decl(decl),
                    None => match self.names.get(return_value_decl()) {
                        Some(declared) => {
                            if same_symbol(*declared, name) {
                                Resolution::Decl(return_value_decl())
                            } else {
                                Resolution::Unresolved
                            }
                        },
                        None => Resolution::Unresolved,
                    },
                }
            },
        }
    }

    /// Whether `ns` names a namespace that the representation holds.
    pub fn holds_namespace(&self, ns: Namespace) -> (r: bool)
        ensures
            r == self.ns_in_range(ns),
    {
        match ns {
            Namespace::Imper { scope, .. } => scope.index() < self.imper_ns.len(),
            Namespace::Mod(id) => match self.mod_ns.get(id) {
                Some(found) => found.scope.index() < self.mod_scopes.len(),
                None => false,
            },
            Namespace::MemberRef { .. } => true,
            Namespace::Precondition(id) => id.index() < self.condition_ns.len(),
            Namespace::Postcondition(id) => id.index() < self.condition_ns.len(),
        }
    }

    /// Whether the chain of parents that starts at `ns` stays within the
    /// representation and ends after at most `limit` steps. A chain that
    /// passes this test can be resolved in.
    pub fn chain_ends(&self, ns: Namespace, limit: usize) -> (r: bool)
        ensures
            r == self.chain_ends_within(ns, limit as nat),
            r ==> self.chain_wf(ns),
    {
        let mut current = ns;
        let mut left = limit;
        loop
            invariant
                self.chain_ends_within(ns, limit as nat) == self.chain_ends_within(current, left as nat),
            decreases left,
        {
            if !self.holds_namespace(current) {
                return false;
            }
            match self.parent(current) {
                Some(parent) => {
                    if left == 0 {
                        return false;
                    }
                    left -= 1;
                    current = parent;
                },
                None => {
                    return true;
                },
            }
        }
    }

    /// Binds a condition namespace to its function. A condition is parsed
    /// before its function is known and holds a placeholder until this call,
    /// which changes nothing else.
    pub fn bind_condition_ns(&mut self, ns: ConditionNsId, func: DeclId)
        requires
            ns.slot() < old(self).condition_ns@.len(),
        ensures
            final(self).condition_ns@.len() == old(self).condition_ns@.len(),
            final(self).condition_ns@[ns.slot() as int].func == func,
            final(self).condition_ns@[ns.slot() as int].parent == old(self).condition_ns@[ns.slot() as int].parent,
            forall|other: int|
                0 <= other < old(self).condition_ns@.len() && other != ns.slot()
                    ==> final(self).condition_ns@[other] == old(self).condition_ns@[other],
            final(self).items == old(self).items,
            final(self).exprs == old(self).exprs,
            final(self).decl_refs == old(self).decl_refs,
            final(self).decls == old(self).decls,
            final(self).decl_attributes == old(self).decl_attributes,
            final(self).expr_to_items == old(self).expr_to_items,
            final(self).decl_to_items == old(self).decl_to_items,
            final(self).names == old(self).names,
            final(self).explicit_tys == old(self).explicit_tys,
            final(self).global_scopes == old(self).global_scopes,
            final(self).imper_scopes == old(self).imper_scopes,
            final(self).mod_scopes == old(self).mod_scopes,
            final(self).imper_ns == old(self).imper_ns,
            final(self).mod_ns == old(self).mod_ns,
            final(self).source_ranges == old(self).source_ranges,
            final(self).cast_counter == old(self).cast_counter,
            final(self).structs == old(self).structs,
            final(self).field_decls == old(self).field_decls,
            final(self).struct_lits == old(self).struct_lits,
    {
        match self.condition_ns.get_mut(ns) {
            Some(slot) => {
                slot.func = func;
            },
            None => {},
        }
    }

    /// Resolves `name` in `ns`: looks it up in `ns` and then in each
    /// enclosing namespace in turn, until one declares it or none is left.
    pub fn resolve<'a>(&'a self, ns: Namespace, name: Sym) -> (r: Resolution<'a>)
        requires
            self.chain_wf(ns),
        ensures
            r@ == self.resolution(ns, name),
    {
        let ghost mut depth: nat = self.chain_depth(ns);
        let mut current = ns;
        loop
            invariant
                self.chain_ends_within(current, depth),
                self.resolution(ns, name) == self.resolve_within(current, name, depth),
            decreases depth,
        {
            let found = self.find_local(current, name);
            match found {
                Resolution::Unresolved => {},
                _ => {
                    return found;
                },
            }
            match self.parent(current) {
                Some(parent) => {
                    proof {
                        depth = (depth - 1) as nat;
                    }
                    current = parent;
                },
                None => {
                    return Resolution::Unresolved;
                },
            }
        }
    }
}

} // verus!
