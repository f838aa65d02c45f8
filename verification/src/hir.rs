//! The high-level representation: expressions, declarations, and the scopes
//! and namespaces that names are resolved against. Nothing here owns another
//! entity by reference; every cross-reference is a handle into a table of
//! `HirCode`.

use vstd::prelude::*;
use std::collections::HashMap;
use std::ops::Range;
use crate::arena::{
    ConditionNsArena, DeclArena, ExprArena, ImperNsArena, ModNsArena, ModScopeArena, NameArena,
};
use crate::handle::Handle;
use crate::index_counter::IndexCounter;
use crate::source_info::{SourceFileId, SourceRange};
use crate::symbol::{same_symbol, Sym};
use crate::ty::Type;
pub use crate::ids::{
    BlockId, CastId, ConditionNsId, DeclId, DeclRefId, ExprId, FieldDeclId, ImperScopeId,
    ImperScopeNsId, ItemId, ModScopeId, ModScopeNsId, StoredDeclId, StructId, StructLitId,
};

verus! {

/// One `name: expr` of a struct literal.
#[derive(Debug, Clone, Copy)]
pub struct FieldAssignment {
    pub name: Sym,
    pub expr: ExprId,
}

/// A declaration in local (imperative) scope.
#[derive(Debug)]
pub struct ImperScopedDecl {
    pub name: Sym,
    pub num_params: usize,
    pub id: DeclId,
}

/// A declaration in module scope.
#[derive(Debug)]
pub struct ModScopedDecl {
    pub num_params: usize,
    pub id: DeclId,
}

/// The namespace of an imperative scope: its declarations in the order in
/// which the scope introduces them.
#[derive(Debug)]
pub struct ImperScopeNs {
    pub decls: Vec<ImperScopedDecl>,
    pub parent: Option<Namespace>,
}

/// The namespace of a module scope.
#[derive(Debug)]
pub struct ModScopeNs {
    pub scope: ModScopeId,
    pub parent: Option<Namespace>,
}

/// The namespace of a precondition or postcondition.
#[derive(Debug)]
pub struct ConditionNs {
    /// The function that the condition belongs to. It holds a placeholder
    /// until the function has been lowered: see `HirCode::bind_condition_ns`.
    pub func: DeclId,
    pub parent: Option<Namespace>,
}

/// A block of operations and the expression that the block evaluates to.
#[derive(Debug)]
pub struct ImperScope {
    pub block: BlockId,
    pub terminal_expr: ExprId,
}

/// Where a name is looked up.
#[derive(Debug, Copy, Clone)]
pub enum Namespace {
    /// The first `end_offset` declarations of an imperative scope.
    Imper { scope: ImperScopeNsId, end_offset: usize },
    Mod(ModScopeNsId),
    /// The fields of the type of `base_expr`.
    MemberRef { base_expr: ExprId },
    /// Includes the parameters of the function.
    Precondition(ConditionNsId),
    /// Includes the parameters of the function, and the return value.
    Postcondition(ConditionNsId),
}

/// A place where a name is used and has to be resolved.
#[derive(Debug)]
pub struct DeclRef {
    pub name: Sym,
    pub namespace: Namespace,
    pub num_arguments: usize,
    pub has_parens: bool,
    pub expr: ExprId,
}

#[derive(Debug)]
pub enum Expr {
    Void,
    IntLit { lit: u64 },
    /// A decimal literal, as the bits of its double-precision value.
    DecLit { bits: u64 },
    /// A string literal, as its bytes without the terminating zero.
    StrLit { lit: Vec<u8> },
    CharLit { lit: i8 },
    ConstTy(Type),
    DeclRef { arguments: Vec<ExprId>, id: DeclRefId },
    AddrOf { expr: ExprId, is_mut: bool },
    /// Transforms type into pointer type.
    Pointer { expr: ExprId, is_mut: bool },
    Deref(ExprId),
    /// Stores the value of `rhs` in the place that `lhs` names.
    Assign { lhs: ExprId, rhs: ExprId },
    Do { scope: ImperScopeId },
    If { condition: ExprId, then_scope: ImperScopeId, else_scope: Option<ImperScopeId> },
    While { condition: ExprId, scope: ImperScopeId },
    Cast { expr: ExprId, ty: ExprId, cast_id: CastId },
    Ret { expr: ExprId, decl: Option<DeclId> },
    Mod { id: ModScopeId },
    Import { file: SourceFileId },
    Struct(StructId),
    StructLit { ty: ExprId, fields: Vec<FieldAssignment>, id: StructLitId },
}

/// An expression or a declaration.
#[derive(Copy, Clone, Debug)]
pub enum Item {
    Expr(ExprId),
    Decl(DeclId),
}

#[derive(Debug)]
pub enum Decl {
    Computed { param_tys: Vec<ExprId>, params: Range<DeclId>, scope: ImperScopeId },
    Stored { id: StoredDeclId, is_mut: bool, root_expr: ExprId },
    Parameter {
        /// Parameter index within the function.
        index: usize,
    },
    Intrinsic { intr: Intrinsic, param_tys: Vec<ExprId>, function_like: bool },
    Static(ExprId),
    Const(ExprId),
    Field(FieldDeclId),
    /// The magic return value declaration, for use in postconditions.
    ReturnValue,
}

#[derive(Debug)]
pub struct FieldDecl {
    pub decl: DeclId,
    pub name: Sym,
    pub ty: ExprId,
    pub index: usize,
}

#[derive(Debug)]
pub struct Struct {
    pub fields: Vec<FieldDeclId>,
}

#[derive(Copy, Clone, Debug, PartialEq, Eq, Structural)]
pub enum Intrinsic {
    Mult,
    Div,
    Mod,
    Add,
    Sub,
    Less,
    LessOrEq,
    Greater,
    GreaterOrEq,
    Eq,
    NotEq,
    BitwiseAnd,
    BitwiseOr,
    LogicalAnd,
    LogicalOr,
    LogicalNot,
    Neg,
    Pos,
    Panic,
    Print,
    Malloc,
    Free,
    SizeOf,
    StrideOf,
    AlignOf,
    OffsetOf,
    // Named types
    I8,
    I16,
    I32,
    I64,
    Isize,
    U8,
    U16,
    U32,
    U64,
    Usize,
    F32,
    F64,
    Never,
    Bool,
    Void,
    Ty,
    Module,
    PrintType,
}

impl Intrinsic {
    /// The name that source text spells the intrinsic with.
    pub open spec fn name_spec(self) -> Seq<char> {
        match self {
            Intrinsic::Mult => "*"@,
            Intrinsic::Div => "/"@,
            Intrinsic::Mod => "%"@,
            Intrinsic::Add => "+"@,
            Intrinsic::Sub => "-"@,
            Intrinsic::Less => "<"@,
            Intrinsic::LessOrEq => "<="@,
            Intrinsic::Greater => ">"@,
            Intrinsic::GreaterOrEq => ">="@,
            Intrinsic::Eq => "=="@,
            Intrinsic::NotEq => "!="@,
            Intrinsic::BitwiseAnd => "&"@,
            Intrinsic::BitwiseOr => "|"@,
            Intrinsic::LogicalAnd => "&&"@,
            Intrinsic::LogicalOr => "||"@,
            Intrinsic::LogicalNot => "!"@,
            Intrinsic::Neg => "-"@,
            Intrinsic::Pos => "+"@,
            Intrinsic::Panic => "panic"@,
            Intrinsic::Print => "print"@,
            Intrinsic::Malloc => "malloc"@,
            Intrinsic::Free => "free"@,
            Intrinsic::I8 => "i8"@,
            Intrinsic::I16 => "i16"@,
            Intrinsic::I32 => "i32"@,
            Intrinsic::I64 => "i64"@,
            Intrinsic::Isize => "isize"@,
            Intrinsic::U8 => "u8"@,
            Intrinsic::U16 => "u16"@,
            Intrinsic::U32 => "u32"@,
            Intrinsic::U64 => "u64"@,
            Intrinsic::Usize => "usize"@,
            Intrinsic::F32 => "f32"@,
            Intrinsic::F64 => "f64"@,
            Intrinsic::Never => "never"@,
            Intrinsic::Bool => "bool"@,
            Intrinsic::Void => "void"@,
            Intrinsic::Ty => "type"@,
            Intrinsic::Module => "module"@,
            Intrinsic::PrintType => "print_type"@,
            Intrinsic::AlignOf => "align_of"@,
            Intrinsic::SizeOf => "size_of"@,
            Intrinsic::StrideOf => "stride_of"@,
            Intrinsic::OffsetOf => "offset_of"@,
        }
    }

    /// The name that source text spells the intrinsic with.
    pub fn name(&self) -> (s: &'static str)
        ensures
            s@ == self.name_spec(),
    {
        match self {
            Intrinsic::Mult => "*",
            Intrinsic::Div => "/",
            Intrinsic::Mod => "%",
            Intrinsic::Add => "+",
            Intrinsic::Sub => "-",
            Intrinsic::Less => "<",
            Intrinsic::LessOrEq => "<=",
            Intrinsic::Greater => ">",
            Intrinsic::GreaterOrEq => ">=",
            Intrinsic::Eq => "==",
            Intrinsic::NotEq => "!=",
            Intrinsic::BitwiseAnd => "&",
            Intrinsic::BitwiseOr => "|",
            Intrinsic::LogicalAnd => "&&",
            Intrinsic::LogicalOr => "||",
            Intrinsic::LogicalNot => "!",
            Intrinsic::Neg => "-",
            Intrinsic::Pos => "+",
            Intrinsic::Panic => "panic",
            Intrinsic::Print => "print",
            Intrinsic::Malloc => "malloc",
            Intrinsic::Free => "free",
            Intrinsic::I8 => "i8",
            Intrinsic::I16 => "i16",
            Intrinsic::I32 => "i32",
            Intrinsic::I64 => "i64",
            Intrinsic::Isize => "isize",
            Intrinsic::U8 => "u8",
            Intrinsic::U16 => "u16",
            Intrinsic::U32 => "u32",
            Intrinsic::U64 => "u64",
            Intrinsic::Usize => "usize",
            Intrinsic::F32 => "f32",
            Intrinsic::F64 => "f64",
            Intrinsic::Never => "never",
            Intrinsic::Bool => "bool",
            Intrinsic::Void => "void",
            Intrinsic::Ty => "type",
            Intrinsic::Module => "module",
            Intrinsic::PrintType => "print_type",
            Intrinsic::AlignOf => "align_of",
            Intrinsic::SizeOf => "size_of",
            Intrinsic::StrideOf => "stride_of",
            Intrinsic::OffsetOf => "offset_of",
        }
    }
}

/// The declarations of a module scope that share one name, in the order in
/// which they were declared.
#[derive(Debug)]
pub struct DeclGroup {
    pub name: Sym,
    pub decls: Vec<ModScopedDecl>,
}

/// A module scope: its declarations, grouped by name. Several declarations
/// may share a name; which of a group is meant is decided by a later pass.
#[derive(Debug)]
pub struct ModScope {
    pub decl_groups: Vec<DeclGroup>,
}

impl Default for ModScope {
    fn default() -> (scope: Self)
        ensures
            scope.decl_groups@.len() == 0,
    {
        ModScope { decl_groups: Vec::new() }
    }
}

/// The position of the first group at or behind `from` that is named `name`.
pub open spec fn group_position(groups: Seq<DeclGroup>, name: Sym, from: int) -> Option<int>
    decreases groups.len() - from,
{
    if from < 0 || from >= groups.len() {
        None
    } else if groups[from].name == name {
        Some(from)
    } else {
        group_position(groups, name, from + 1)
    }
}

/// Groups that agree in their names, position by position, are found at the
/// same positions.
proof fn lemma_position_by_names(a: Seq<DeclGroup>, b: Seq<DeclGroup>, name: Sym, from: int)
    requires
        a.len() == b.len(),
        forall|k: int| 0 <= k < a.len() ==> (#[trigger] a[k]).name == b[k].name,
    ensures
        group_position(a, name, from) == group_position(b, name, from),
    decreases a.len() - from,
{
    if 0 <= from < a.len() && a[from].name != name {
        lemma_position_by_names(a, b, name, from + 1);
    }
}

/// A group added at the end is found only where no earlier group has the name.
proof fn lemma_position_after_push(groups: Seq<DeclGroup>, added: DeclGroup, name: Sym, from: int)
    requires
        0 <= from <= groups.len(),
    ensures
        group_position(groups.push(added), name, from) == match group_position(groups, name, from) {
            Some(i) => Some(i),
            None => if added.name == name {
                Some(groups.len() as int)
            } else {
                None
            },
        },
    decreases groups.len() - from,
{
    let longer = groups.push(added);
    if from < groups.len() {
        assert(longer[from] == groups[from]);
        if groups[from].name != name {
            lemma_position_after_push(groups, added, name, from + 1);
        }
    } else {
        assert(longer[from] == added);
        assert(group_position(longer, name, from + 1) is None);
    }
}

/// What a position that was found says: the group there has the name, and no
/// group between `from` and it has.
proof fn lemma_position_found(groups: Seq<DeclGroup>, name: Sym, from: int)
    requires
        0 <= from,
    ensures
        match group_position(groups, name, from) {
            Some(i) => from <= i < groups.len() && groups[i].name == name,
            None => forall|k: int| from <= k < groups.len() ==> (#[trigger] groups[k]).name != name,
        },
    decreases groups.len() - from,
{
    if from < groups.len() && groups[from].name != name {
        lemma_position_found(groups, name, from + 1);
    }
}

impl ModScope {
    /// The declarations that the scope holds under `name`, in declared order.
    pub open spec fn group(&self, name: Sym) -> Option<Seq<ModScopedDecl>> {
        match group_position(self.decl_groups@, name, 0) {
            Some(i) => Some(self.decl_groups@[i].decls@),
            None => None,
        }
    }

    /// The invariant of a module scope: it maps names to groups, so no two
    /// groups have the same name.
    pub open spec fn wf(&self) -> bool {
        forall|i: int, j: int|
            0 <= i < j < self.decl_groups@.len() ==> (#[trigger] self.decl_groups@[i]).name != (
            #[trigger] self.decl_groups@[j]).name
    }

    /// The position of the group named `name`.
    fn position(&self, name: Sym) -> (r: Option<usize>)
        ensures
            match r {
                Some(i) => i < self.decl_groups@.len() && group_position(self.decl_groups@, name, 0)
                    == Some(i as int),
                None => group_position(self.decl_groups@, name, 0) is None,
            },
    {
        let mut i: usize = 0;
        while i < self.decl_groups.len()
            invariant
                i <= self.decl_groups@.len(),
                group_position(self.decl_groups@, name, 0) == group_position(
                    self.decl_groups@,
                    name,
                    i as int,
                ),
            decreases self.decl_groups@.len() - i,
        {
            if same_symbol(self.decl_groups[i].name, name) {
                return Some(i);
            }
            i += 1;
        }
        None
    }

    /// The whole group of declarations named `name`, or `None` where the
    /// scope declares nothing under that name.
    pub fn lookup(&self, name: Sym) -> (r: Option<&Vec<ModScopedDecl>>)
        ensures
            match r {
                Some(group) => self.group(name) == Some(group@),
                None => self.group(name) is None,
            },
    {
        match self.position(name) {
            Some(i) => Some(&self.decl_groups[i].decls),
            None => None,
        }
    }

    /// Declares `decl` under `name`: at the end of the group of that name,
    /// which is created where the name is new. No other group changes.
    pub fn declare(&mut self, name: Sym, decl: ModScopedDecl)
        ensures
            final(self).group(name) == Some(
                match old(self).group(name) {
                    Some(group) => group.push(decl),
                    None => seq![decl],
                },
            ),
            forall|other: Sym| other != name ==> final(self).group(other) == old(self).group(other),
            old(self).wf() ==> final(self).wf(),
    {
        let ghost before = self.decl_groups@;
        match self.position(name) {
            Some(i) => {
                self.decl_groups[i].decls.push(decl);
                proof {
                    let after = self.decl_groups@;
                    assert forall|other: Sym|
                        group_position(after, other, 0) == group_position(before, other, 0) by {
                        lemma_position_by_names(after, before, other, 0);
                    }
                    lemma_position_found(before, name, 0);
                    assert(after.len() == before.len());
                    assert(after[i as int].decls@ == before[i as int].decls@.push(decl));
                    assert forall|other: Sym| other != name implies final(self).group(other) == old(
                        self,
                    ).group(other) by {
                        lemma_position_found(before, other, 0);
                        match group_position(before, other, 0) {
                            Some(j) => {
                                assert(j != i);
                                assert(after[j] == before[j]);
                            },
                            None => {},
                        }
                    }
                }
            },
            None => {
                let mut decls: Vec<ModScopedDecl> = Vec::new();
                decls.push(decl);
                let added = DeclGroup { name, decls };
                self.decl_groups.push(added);
                proof {
                    assert forall|other: Sym|
                        other != name implies final(self).group(other) == old(self).group(other) by {
                        lemma_position_after_push(before, added, other, 0);
                        lemma_position_found(before, other, 0);
                    }
                    lemma_position_after_push(before, added, name, 0);
                    lemma_position_found(before, name, 0);
                    assert(added.decls@ =~= seq![decl]);
                }
            },
        }
    }
}

/// The canonical void expression: the first expression of every representation.
pub open spec fn void_expr_spec() -> ExprId {
    ExprId { raw: 0 }
}

/// The canonical void expression: the first expression of every representation.
#[verifier::when_used_as_spec(void_expr_spec)]
pub fn void_expr() -> (id: ExprId)
    ensures
        id == void_expr_spec(),
{
    ExprId { raw: 0 }
}

/// The canonical void type expression: the second expression of every representation.
pub open spec fn void_type_spec() -> ExprId {
    ExprId { raw: 1 }
}

/// The canonical void type expression: the second expression of every representation.
#[verifier::when_used_as_spec(void_type_spec)]
pub fn void_type() -> (id: ExprId)
    ensures
        id == void_type_spec(),
{
    ExprId { raw: 1 }
}

/// The item of the canonical void expression.
pub open spec fn void_expr_item_spec() -> ItemId {
    ItemId { raw: 0 }
}

/// The item of the canonical void expression.
#[verifier::when_used_as_spec(void_expr_item_spec)]
pub fn void_expr_item() -> (id: ItemId)
    ensures
        id == void_expr_item_spec(),
{
    ItemId { raw: 0 }
}

/// The magic return value declaration: the first declaration of every representation.
pub open spec fn return_value_decl_spec() -> DeclId {
    DeclId { raw: 0 }
}

/// The magic return value declaration: the first declaration of every representation.
#[verifier::when_used_as_spec(return_value_decl_spec)]
pub fn return_value_decl() -> (id: DeclId)
    ensures
        id == return_value_decl_spec(),
{
    DeclId { raw: 0 }
}

/// An annotation on a declaration.
pub struct Attribute {
    pub attr: Sym,
    pub arg: Option<ExprId>,
    /// The range of the whole attribute, including @ sign and parentheses.
    pub range: SourceRange,
}

/// The high-level representation of a program: one table for each kind of
/// entity. The tables that this crate reads when it resolves names, checks
/// the reserved slots or renders a dump are arenas; the others are filled and
/// read by the parser and the type checker alone and are plain vectors that
/// the handle named at each indexes.
pub struct HirCode {
    /// `ItemId` indexes the items.
    pub items: Vec<Item>,
    pub exprs: ExprArena,
    /// `DeclRefId` indexes the resolution sites.
    pub decl_refs: Vec<DeclRef>,
    pub decls: DeclArena,
    pub decl_attributes: HashMap<DeclId, Vec<Attribute>>,
    /// The item of each expression; `ExprId` indexes it.
    pub expr_to_items: Vec<ItemId>,
    /// The item of each declaration; `DeclId` indexes it.
    pub decl_to_items: Vec<ItemId>,
    /// The name of each declaration.
    pub names: NameArena,
    /// The type that each declaration was written with, if any; `DeclId` indexes it.
    pub explicit_tys: Vec<Option<ExprId>>,
    /// The global scope of each source file; `SourceFileId` indexes it.
    pub global_scopes: Vec<ModScopeId>,
    /// `ImperScopeId` indexes the imperative scopes.
    pub imper_scopes: Vec<ImperScope>,
    pub mod_scopes: ModScopeArena,
    pub imper_ns: ImperNsArena,
    pub mod_ns: ModNsArena,
    pub condition_ns: ConditionNsArena,
    /// The source range of each item; `ItemId` indexes it.
    pub source_ranges: Vec<SourceRange>,
    pub cast_counter: IndexCounter<CastId>,
    /// `StructId` indexes the structs.
    pub structs: Vec<Struct>,
    /// `FieldDeclId` indexes the field declarations.
    pub field_decls: Vec<FieldDecl>,
    pub struct_lits: IndexCounter<StructLitId>,
}

impl HirCode {
    /// The slots that are reserved by convention: the first expression is
    /// the void expression, the second the void type, and the first
    /// declaration is the return value.
    pub open spec fn reserved_slots_ok(&self) -> bool {
        &&& self.exprs@.len() >= 2
        &&& self.exprs@[void_expr().slot() as int] is Void
        &&& self.exprs@[void_type().slot() as int] matches Expr::ConstTy(ty) && ty == Type::Void
        &&& self.decls@.len() >= 1
        &&& self.decls@[return_value_decl().slot() as int] is ReturnValue
    }

    /// Whether the representation holds no entity at all.
    pub open spec fn is_empty(&self) -> bool {
        &&& self.items@.len() == 0
        &&& self.exprs@.len() == 0
        &&& self.decl_refs@.len() == 0
        &&& self.decls@.len() == 0
        &&& self.decl_attributes@ == Map::<DeclId, Vec<Attribute>>::empty()
        &&& self.expr_to_items@.len() == 0
        &&& self.decl_to_items@.len() == 0
        &&& self.names@.len() == 0
        &&& self.explicit_tys@.len() == 0
        &&& self.global_scopes@.len() == 0
        &&& self.imper_scopes@.len() == 0
        &&& self.mod_scopes@.len() == 0
        &&& self.imper_ns@.len() == 0
        &&& self.mod_ns@.len() == 0
        &&& self.condition_ns@.len() == 0
        &&& self.source_ranges@.len() == 0
        &&& self.cast_counter.count() == 0
        &&& self.structs@.len() == 0
        &&& self.field_decls@.len() == 0
        &&& self.struct_lits.count() == 0
    }

    /// Whether the reserved slots hold what they are reserved for.
    pub fn has_reserved_slots(&self) -> (r: bool)
        ensures
            r == self.reserved_slots_ok(),
    {
        let void_ok = match self.exprs.get(void_expr()) {
            Some(Expr::Void) => true,
            _ => false,
        };
        let void_type_ok = match self.exprs.get(void_type()) {
            Some(Expr::ConstTy(Type::Void)) => true,
            _ => false,
        };
        let return_value_ok = match self.decls.get(return_value_decl()) {
            Some(Decl::ReturnValue) => true,
            _ => false,
        };
        void_ok && void_type_ok && return_value_ok
    }
}

impl Default for HirCode {
    /// A representation without any entity.
    fn default() -> (hir: Self)
        ensures
            hir.is_empty(),
    {
        HirCode {
            items: Vec::new(),
            exprs: ExprArena::new(),
            decl_refs: Vec::new(),
            decls: DeclArena::new(),
            decl_attributes: HashMap::new(),
            expr_to_items: Vec::new(),
            decl_to_items: Vec::new(),
            names: NameArena::new(),
            explicit_tys: Vec::new(),
            global_scopes: Vec::new(),
            imper_scopes: Vec::new(),
            mod_scopes: ModScopeArena::new(),
            imper_ns: ImperNsArena::new(),
            mod_ns: ModNsArena::new(),
            condition_ns: ConditionNsArena::new(),
            source_ranges: Vec::new(),
            cast_counter: IndexCounter::new(),
            structs: Vec::new(),
            field_decls: Vec::new(),
            struct_lits: IndexCounter::new(),
        }
    }
}

} // verus!
