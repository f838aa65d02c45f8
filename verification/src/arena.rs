//! The arenas: append-only tables of `index_vec`, each indexed by the one
//! handle type that belongs to it. The verifier cannot look into an
//! `IndexVec`, so each arena is an opaque value here. What it holds is named by
//! a specification function, and the contract of each operation says over that
//! name what `index_vec` does; those contracts are taken on trust.

use vstd::prelude::*;
use index_vec::IndexVec;
use crate::handle::{Handle, MAX_INDEX};
use crate::hir::{ConditionNs, Decl, Expr, ImperScopeNs, ModScope, ModScopeNs};
use crate::ids::{
    BlockId, ConditionNsId, DeclId, ExprId, ImperScopeNsId, ModScopeId, ModScopeNsId, OpId,
};
use crate::symbol::Sym;
use crate::{Block, Op};

verus! {

/// The arena of operations: an `IndexVec<OpId, Op>`.
#[verifier::external_body]
pub struct OpArena {
    inner: IndexVec<OpId, Op>,
}

/// The operations that an arena holds, in slot order.
pub uninterp spec fn op_arena_items(arena: OpArena) -> Seq<Op>;

/// `IndexVec::new`: an arena that holds nothing.
#[verifier::external_body]
fn op_arena_new() -> (arena: OpArena)
    ensures
        op_arena_items(arena) == Seq::<Op>::empty(),
{
    OpArena { inner: IndexVec::new() }
}

/// `IndexSlice::len`, reached through `IndexVec`: the number of items held.
#[verifier::external_body]
fn op_arena_len(arena: &OpArena) -> (n: usize)
    ensures
        n == op_arena_items(*arena).len(),
{
    arena.inner.len()
}

/// `IndexVec::push`: puts `item` behind the items held and returns the handle
/// made from the length before the call. The handle names that slot as long
/// as the length fits a handle, which `requires` asks for.
#[verifier::external_body]
fn op_arena_push(arena: &mut OpArena, item: Op) -> (id: OpId)
    requires
        op_arena_items(*old(arena)).len() <= MAX_INDEX,
    ensures
        op_arena_items(*final(arena)) == op_arena_items(*old(arena)).push(item),
        id.slot() == op_arena_items(*old(arena)).len(),
{
    arena.inner.push(item)
}

/// `IndexVec::get` with a handle: the item in the handle's slot, or `None`
/// where the arena has no such slot.
#[verifier::external_body]
fn op_arena_get(arena: &OpArena, id: OpId) -> (item: Option<&Op>)
    ensures
        item == if id.slot() < op_arena_items(*arena).len() {
            Some(&op_arena_items(*arena)[id.slot() as int])
        } else {
            None::<&Op>
        },
{
    arena.inner.get(id)
}

impl View for OpArena {
    type V = Seq<Op>;

    open spec fn view(&self) -> Seq<Op> {
        op_arena_items(*self)
    }
}

impl OpArena {
    /// An arena that holds nothing.
    pub fn new() -> (arena: Self)
        ensures
            arena@ == Seq::<Op>::empty(),
    {
        op_arena_new()
    }

    /// The number of items held.
    pub fn len(&self) -> (n: usize)
        ensures
            n == self@.len(),
    {
        op_arena_len(self)
    }

    /// Appends `item` and returns its handle. The items held before keep
    /// their slots, so every handle issued earlier still names its item.
    pub fn push(&mut self, item: Op) -> (id: OpId)
        requires
            old(self)@.len() <= MAX_INDEX,
        ensures
            final(self)@ == old(self)@.push(item),
            id.slot() == old(self)@.len(),
    {
        op_arena_push(self, item)
    }

    /// The item that `id` names, or `None` where `id` was not issued by this arena.
    pub fn get(&self, id: OpId) -> (item: Option<&Op>)
        ensures
            item == if id.slot() < self@.len() {
                Some(&self@[id.slot() as int])
            } else {
                None::<&Op>
            },
    {
        op_arena_get(self, id)
    }

    /// The item that `id` names, for a handle that this arena issued.
    pub fn item(&self, id: OpId) -> (item: &Op)
        requires
            id.slot() < self@.len(),
        ensures
            *item == self@[id.slot() as int],
    {
        op_arena_get(self, id).unwrap()
    }
}

/// The arena of basic blocks: an `IndexVec<BlockId, Block>`.
#[verifier::external_body]
pub struct BlockArena {
    inner: IndexVec<BlockId, Block>,
}

/// The basic blocks that an arena holds, in slot order.
pub uninterp spec fn block_arena_items(arena: BlockArena) -> Seq<Block>;

/// `IndexVec::new`: an arena that holds nothing.
#[verifier::external_body]
fn block_arena_new() -> (arena: BlockArena)
    ensures
        block_arena_items(arena) == Seq::<Block>::empty(),
{
    BlockArena { inner: IndexVec::new() }
}

/// `IndexSlice::len`, reached through `IndexVec`: the number of items held.
#[verifier::external_body]
fn block_arena_len(arena: &BlockArena) -> (n: usize)
    ensures
        n == block_arena_items(*arena).len(),
{
    arena.inner.len()
}

/// `IndexVec::push`: puts `item` behind the items held and returns the handle
/// made from the length before the call. The handle names that slot as long
/// as the length fits a handle, which `requires` asks for.
#[verifier::external_body]
fn block_arena_push(arena: &mut BlockArena, item: Block) -> (id: BlockId)
    requires
        block_arena_items(*old(arena)).len() <= MAX_INDEX,
    ensures
        block_arena_items(*final(arena)) == block_arena_items(*old(arena)).push(item),
        id.slot() == block_arena_items(*old(arena)).len(),
{
    arena.inner.push(item)
}

/// `IndexVec::get` with a handle: the item in the handle's slot, or `None`
/// where the arena has no such slot.
#[verifier::external_body]
fn block_arena_get(arena: &BlockArena, id: BlockId) -> (item: Option<&Block>)
    ensures
        item == if id.slot() < block_arena_items(*arena).len() {
            Some(&block_arena_items(*arena)[id.slot() as int])
        } else {
            None::<&Block>
        },
{
    arena.inner.get(id)
}

/// `IndexVec::get_mut` with a handle: the item in the handle's slot, to be
/// changed in place, or `None` where the arena has no such slot. No other slot
/// changes, and none is added or removed.
#[verifier::external_body]
fn block_arena_get_mut(arena: &mut BlockArena, id: BlockId) -> (item: Option<&mut Block>)
    ensures
        id.slot() >= block_arena_items(*old(arena)).len() ==> item is None && block_arena_items(*final(arena)) == block_arena_items(*old(arena)),
        id.slot() < block_arena_items(*old(arena)).len() ==> match item {
            Some(slot) => *slot == block_arena_items(*old(arena))[id.slot() as int]
                && block_arena_items(*final(arena)) == block_arena_items(*old(arena)).update(id.slot() as int, *final(slot)),
            None => false,
        },
{
    arena.inner.get_mut(id)
}

impl View for BlockArena {
    type V = Seq<Block>;

    open spec fn view(&self) -> Seq<Block> {
        block_arena_items(*self)
    }
}

impl BlockArena {
    /// An arena that holds nothing.
    pub fn new() -> (arena: Self)
        ensures
            arena@ == Seq::<Block>::empty(),
    {
        block_arena_new()
    }

    /// The number of items held.
    pub fn len(&self) -> (n: usize)
        ensures
            n == self@.len(),
    {
        block_arena_len(self)
    }

    /// Appends `item` and returns its handle. The items held before keep
    /// their slots, so every handle issued earlier still names its item.
    pub fn push(&mut self, item: Block) -> (id: BlockId)
        requires
            old(self)@.len() <= MAX_INDEX,
        ensures
            final(self)@ == old(self)@.push(item),
            id.slot() == old(self)@.len(),
    {
        block_arena_push(self, item)
    }

    /// The item that `id` names, or `None` where `id` was not issued by this arena.
    pub fn get(&self, id: BlockId) -> (item: Option<&Block>)
        ensures
            item == if id.slot() < self@.len() {
                Some(&self@[id.slot() as int])
            } else {
                None::<&Block>
            },
    {
        block_arena_get(self, id)
    }

    /// The item that `id` names, for a handle that this arena issued.
    pub fn item(&self, id: BlockId) -> (item: &Block)
        requires
            id.slot() < self@.len(),
        ensures
            *item == self@[id.slot() as int],
    {
        block_arena_get(self, id).unwrap()
    }

    /// The item that `id` names, to be changed in place, or `None` where `id`
    /// was not issued by this arena. Every other item stays as it is.
    pub fn get_mut(&mut self, id: BlockId) -> (item: Option<&mut Block>)
        ensures
            id.slot() >= old(self)@.len() ==> item is None && final(self)@ == old(self)@,
            id.slot() < old(self)@.len() ==> match item {
                Some(slot) => *slot == old(self)@[id.slot() as int]
                    && final(self)@ == old(self)@.update(id.slot() as int, *final(slot)),
                None => false,
            },
    {
        block_arena_get_mut(self, id)
    }
}

/// The arena of expressions: an `IndexVec<ExprId, Expr>`.
#[verifier::external_body]
pub struct ExprArena {
    inner: IndexVec<ExprId, Expr>,
}

/// The expressions that an arena holds, in slot order.
pub uninterp spec fn expr_arena_items(arena: ExprArena) -> Seq<Expr>;

/// `IndexVec::new`: an arena that holds nothing.
#[verifier::external_body]
fn expr_arena_new() -> (arena: ExprArena)
    ensures
        expr_arena_items(arena) == Seq::<Expr>::empty(),
{
    ExprArena { inner: IndexVec::new() }
}

/// `IndexSlice::len`, reached through `IndexVec`: the number of items held.
#[verifier::external_body]
fn expr_arena_len(arena: &ExprArena) -> (n: usize)
    ensures
        n == expr_arena_items(*arena).len(),
{
    arena.inner.len()
}

/// `IndexVec::push`: puts `item` behind the items held and returns the handle
/// made from the length before the call. The handle names that slot as long
/// as the length fits a handle, which `requires` asks for.
#[verifier::external_body]
fn expr_arena_push(arena: &mut ExprArena, item: Expr) -> (id: ExprId)
    requires
        expr_arena_items(*old(arena)).len() <= MAX_INDEX,
    ensures
        expr_arena_items(*final(arena)) == expr_arena_items(*old(arena)).push(item),
        id.slot() == expr_arena_items(*old(arena)).len(),
{
    arena.inner.push(item)
}

/// `IndexVec::get` with a handle: the item in the handle's slot, or `None`
/// where the arena has no such slot.
#[verifier::external_body]
fn expr_arena_get(arena: &ExprArena, id: ExprId) -> (item: Option<&Expr>)
    ensures
        item == if id.slot() < expr_arena_items(*arena).len() {
            Some(&expr_arena_items(*arena)[id.slot() as int])
        } else {
            None::<&Expr>
        },
{
    arena.inner.get(id)
}

impl View for ExprArena {
    type V = Seq<Expr>;

    open spec fn view(&self) -> Seq<Expr> {
        expr_arena_items(*self)
    }
}

impl ExprArena {
    /// An arena that holds nothing.
    pub fn new() -> (arena: Self)
        ensures
            arena@ == Seq::<Expr>::empty(),
    {
        expr_arena_new()
    }

    /// The number of items held.
    pub fn len(&self) -> (n: usize)
        ensures
            n == self@.len(),
    {
        expr_arena_len(self)
    }

    /// Appends `item` and returns its handle. The items held before keep
    /// their slots, so every handle issued earlier still names its item.
    pub fn push(&mut self, item: Expr) -> (id: ExprId)
        requires
            old(self)@.len() <= MAX_INDEX,
        ensures
            final(self)@ == old(self)@.push(item),
            id.slot() == old(self)@.len(),
    {
        expr_arena_push(self, item)
    }

    /// The item that `id` names, or `None` where `id` was not issued by this arena.
    pub fn get(&self, id: ExprId) -> (item: Option<&Expr>)
        ensures
            item == if id.slot() < self@.len() {
                Some(&self@[id.slot() as int])
            } else {
                None::<&Expr>
            },
    {
        expr_arena_get(self, id)
    }

    /// The item that `id` names, for a handle that this arena issued.
    pub fn item(&self, id: ExprId) -> (item: &Expr)
        requires
            id.slot() < self@.len(),
        ensures
            *item == self@[id.slot() as int],
    {
        expr_arena_get(self, id).unwrap()
    }
}

/// The arena of declarations: an `IndexVec<DeclId, Decl>`.
#[verifier::external_body]
pub struct DeclArena {
    inner: IndexVec<DeclId, Decl>,
}

/// The declarations that an arena holds, in slot order.
pub uninterp spec fn decl_arena_items(arena: DeclArena) -> Seq<Decl>;

/// `IndexVec::new`: an arena that holds nothing.
#[verifier::external_body]
fn decl_arena_new() -> (arena: DeclArena)
    ensures
        decl_arena_items(arena) == Seq::<Decl>::empty(),
{
    DeclArena { inner: IndexVec::new() }
}

/// `IndexSlice::len`, reached through `IndexVec`: the number of items held.
#[verifier::external_body]
fn decl_arena_len(arena: &DeclArena) -> (n: usize)
    ensures
        n == decl_arena_items(*arena).len(),
{
    arena.inner.len()
}

/// `IndexVec::push`: puts `item` behind the items held and returns the handle
/// made from the length before the call. The handle names that slot as long
/// as the length fits a handle, which `requires` asks for.
#[verifier::external_body]
fn decl_arena_push(arena: &mut DeclArena, item: Decl) -> (id: DeclId)
    requires
        decl_arena_items(*old(arena)).len() <= MAX_INDEX,
    ensures
        decl_arena_items(*final(arena)) == decl_arena_items(*old(arena)).push(item),
        id.slot() == decl_arena_items(*old(arena)).len(),
{
    arena.inner.push(item)
}

/// `IndexVec::get` with a handle: the item in the handle's slot, or `None`
/// where the arena has no such slot.
#[verifier::external_body]
fn decl_arena_get(arena: &DeclArena, id: DeclId) -> (item: Option<&Decl>)
    ensures
        item == if id.slot() < decl_arena_items(*arena).len() {
            Some(&decl_arena_items(*arena)[id.slot() as int])
        } else {
            None::<&Decl>
        },
{
    arena.inner.get(id)
}

impl View for DeclArena {
    type V = Seq<Decl>;

    open spec fn view(&self) -> Seq<Decl> {
        decl_arena_items(*self)
    }
}

impl DeclArena {
    /// An arena that holds nothing.
    pub fn new() -> (arena: Self)
        ensures
            arena@ == Seq::<Decl>::empty(),
    {
        decl_arena_new()
    }

    /// The number of items held.
    pub fn len(&self) -> (n: usize)
        ensures
            n == self@.len(),
    {
        decl_arena_len(self)
    }

    /// Appends `item` and returns its handle. The items held before keep
    /// their slots, so every handle issued earlier still names its item.
    pub fn push(&mut self, item: Decl) -> (id: DeclId)
        requires
            old(self)@.len() <= MAX_INDEX,
        ensures
            final(self)@ == old(self)@.push(item),
            id.slot() == old(self)@.len(),
    {
        decl_arena_push(self, item)
    }

    /// The item that `id` names, or `None` where `id` was not issued by this arena.
    pub fn get(&self, id: DeclId) -> (item: Option<&Decl>)
        ensures
            item == if id.slot() < self@.len() {
                Some(&self@[id.slot() as int])
            } else {
                None::<&Decl>
            },
    {
        decl_arena_get(self, id)
    }

    /// The item that `id` names, for a handle that this arena issued.
    pub fn item(&self, id: DeclId) -> (item: &Decl)
        requires
            id.slot() < self@.len(),
        ensures
            *item == self@[id.slot() as int],
    {
        decl_arena_get(self, id).unwrap()
    }
}

/// The arena of names of declarations: an `IndexVec<DeclId, Sym>`.
#[verifier::external_body]
pub struct NameArena {
    inner: IndexVec<DeclId, Sym>,
}

/// The names of declarations that an arena holds, in slot order.
pub uninterp spec fn name_arena_items(arena: NameArena) -> Seq<Sym>;

/// `IndexVec::new`: an arena that holds nothing.
#[verifier::external_body]
fn name_arena_new() -> (arena: NameArena)
    ensures
        name_arena_items(arena) == Seq::<Sym>::empty(),
{
    NameArena { inner: IndexVec::new() }
}

/// `IndexSlice::len`, reached through `IndexVec`: the number of items held.
#[verifier::external_body]
fn name_arena_len(arena: &NameArena) -> (n: usize)
    ensures
        n == name_arena_items(*arena).len(),
{
    arena.inner.len()
}

/// `IndexVec::push`: puts `item` behind the items held and returns the handle
/// made from the length before the call. The handle names that slot as long
/// as the length fits a handle, which `requires` asks for.
#[verifier::external_body]
fn name_arena_push(arena: &mut NameArena, item: Sym) -> (id: DeclId)
    requires
        name_arena_items(*old(arena)).len() <= MAX_INDEX,
    ensures
        name_arena_items(*final(arena)) == name_arena_items(*old(arena)).push(item),
        id.slot() == name_arena_items(*old(arena)).len(),
{
    arena.inner.push(item)
}

/// `IndexVec::get` with a handle: the item in the handle's slot, or `None`
/// where the arena has no such slot.
#[verifier::external_body]
fn name_arena_get(arena: &NameArena, id: DeclId) -> (item: Option<&Sym>)
    ensures
        item == if id.slot() < name_arena_items(*arena).len() {
            Some(&name_arena_items(*arena)[id.slot() as int])
        } else {
            None::<&Sym>
        },
{
    arena.inner.get(id)
}

impl View for NameArena {
    type V = Seq<Sym>;

    open spec fn view(&self) -> Seq<Sym> {
        name_arena_items(*self)
    }
}

impl NameArena {
    /// An arena that holds nothing.
    pub fn new() -> (arena: Self)
        ensures
            arena@ == Seq::<Sym>::empty(),
    {
        name_arena_new()
    }

    /// The number of items held.
    pub fn len(&self) -> (n: usize)
        ensures
            n == self@.len(),
    {
        name_arena_len(self)
    }

    /// Appends `item` and returns its handle. The items held before keep
    /// their slots, so every handle issued earlier still names its item.
    pub fn push(&mut self, item: Sym) -> (id: DeclId)
        requires
            old(self)@.len() <= MAX_INDEX,
        ensures
            final(self)@ == old(self)@.push(item),
            id.slot() == old(self)@.len(),
    {
        name_arena_push(self, item)
    }

    /// The item that `id` names, or `None` where `id` was not issued by this arena.
    pub fn get(&self, id: DeclId) -> (item: Option<&Sym>)
        ensures
            item == if id.slot() < self@.len() {
                Some(&self@[id.slot() as int])
            } else {
                None::<&Sym>
            },
    {
        name_arena_get(self, id)
    }

    /// The item that `id` names, for a handle that this arena issued.
    pub fn item(&self, id: DeclId) -> (item: &Sym)
        requires
            id.slot() < self@.len(),
        ensures
            *item == self@[id.slot() as int],
    {
        name_arena_get(self, id).unwrap()
    }
}

/// The arena of namespaces of imperative scopes: an `IndexVec<ImperScopeNsId, ImperScopeNs>`.
#[verifier::external_body]
pub struct ImperNsArena {
    inner: IndexVec<ImperScopeNsId, ImperScopeNs>,
}

/// The namespaces of imperative scopes that an arena holds, in slot order.
pub uninterp spec fn imper_ns_arena_items(arena: ImperNsArena) -> Seq<ImperScopeNs>;

/// `IndexVec::new`: an arena that holds nothing.
#[verifier::external_body]
fn imper_ns_arena_new() -> (arena: ImperNsArena)
    ensures
        imper_ns_arena_items(arena) == Seq::<ImperScopeNs>::empty(),
{
    ImperNsArena { inner: IndexVec::new() }
}

/// `IndexSlice::len`, reached through `IndexVec`: the number of items held.
#[verifier::external_body]
fn imper_ns_arena_len(arena: &ImperNsArena) -> (n: usize)
    ensures
        n == imper_ns_arena_items(*arena).len(),
{
    arena.inner.len()
}

/// `IndexVec::push`: puts `item` behind the items held and returns the handle
/// made from the length before the call. The handle names that slot as long
/// as the length fits a handle, which `requires` asks for.
#[verifier::external_body]
fn imper_ns_arena_push(arena: &mut ImperNsArena, item: ImperScopeNs) -> (id: ImperScopeNsId)
    requires
        imper_ns_arena_items(*old(arena)).len() <= MAX_INDEX,
    ensures
        imper_ns_arena_items(*final(arena)) == imper_ns_arena_items(*old(arena)).push(item),
        id.slot() == imper_ns_arena_items(*old(arena)).len(),
{
    arena.inner.push(item)
}

/// `IndexVec::get` with a handle: the item in the handle's slot, or `None`
/// where the arena has no such slot.
#[verifier::external_body]
fn imper_ns_arena_get(arena: &ImperNsArena, id: ImperScopeNsId) -> (item: Option<&ImperScopeNs>)
    ensures
        item == if id.slot() < imper_ns_arena_items(*arena).len() {
            Some(&imper_ns_arena_items(*arena)[id.slot() as int])
        } else {
            None::<&ImperScopeNs>
        },
{
    arena.inner.get(id)
}

/// `IndexVec::get_mut` with a handle: the item in the handle's slot, to be
/// changed in place, or `None` where the arena has no such slot. No other slot
/// changes, and none is added or removed.
#[verifier::external_body]
fn imper_ns_arena_get_mut(arena: &mut ImperNsArena, id: ImperScopeNsId) -> (item: Option<&mut ImperScopeNs>)
    ensures
        id.slot() >= imper_ns_arena_items(*old(arena)).len() ==> item is None && imper_ns_arena_items(*final(arena)) == imper_ns_arena_items(*old(arena)),
        id.slot() < imper_ns_arena_items(*old(arena)).len() ==> match item {
            Some(slot) => *slot == imper_ns_arena_items(*old(arena))[id.slot() as int]
                && imper_ns_arena_items(*final(arena)) == imper_ns_arena_items(*old(arena)).update(id.slot() as int, *final(slot)),
            None => false,
        },
{
    arena.inner.get_mut(id)
}

impl View for ImperNsArena {
    type V = Seq<ImperScopeNs>;

    open spec fn view(&self) -> Seq<ImperScopeNs> {
        imper_ns_arena_items(*self)
    }
}

impl ImperNsArena {
    /// An arena that holds nothing.
    pub fn new() -> (arena: Self)
        ensures
            arena@ == Seq::<ImperScopeNs>::empty(),
    {
        imper_ns_arena_new()
    }

    /// The number of items held.
    pub fn len(&self) -> (n: usize)
        ensures
            n == self@.len(),
    {
        imper_ns_arena_len(self)
    }

    /// Appends `item` and returns its handle. The items held before keep
    /// their slots, so every handle issued earlier still names its item.
    pub fn push(&mut self, item: ImperScopeNs) -> (id: ImperScopeNsId)
        requires
            old(self)@.len() <= MAX_INDEX,
        ensures
            final(self)@ == old(self)@.push(item),
            id.slot() == old(self)@.len(),
    {
        imper_ns_arena_push(self, item)
    }

    /// The item that `id` names, or `None` where `id` was not issued by this arena.
    pub fn get(&self, id: ImperScopeNsId) -> (item: Option<&ImperScopeNs>)
        ensures
            item == if id.slot() < self@.len() {
                Some(&self@[id.slot() as int])
            } else {
                None::<&ImperScopeNs>
            },
    {
        imper_ns_arena_get(self, id)
    }

    /// The item that `id` names, for a handle that this arena issued.
    pub fn item(&self, id: ImperScopeNsId) -> (item: &ImperScopeNs)
        requires
            id.slot() < self@.len(),
        ensures
            *item == self@[id.slot() as int],
    {
        imper_ns_arena_get(self, id).unwrap()
    }

    /// The item that `id` names, to be changed in place, or `None` where `id`
    /// was not issued by this arena. Every other item stays as it is.
    pub fn get_mut(&mut self, id: ImperScopeNsId) -> (item: Option<&mut ImperScopeNs>)
        ensures
            id.slot() >= old(self)@.len() ==> item is None && final(self)@ == old(self)@,
            id.slot() < old(self)@.len() ==> match item {
                Some(slot) => *slot == old(self)@[id.slot() as int]
                    && final(self)@ == old(self)@.update(id.slot() as int, *final(slot)),
                None => false,
            },
    {
        imper_ns_arena_get_mut(self, id)
    }
}

/// The arena of namespaces of module scopes: an `IndexVec<ModScopeNsId, ModScopeNs>`.
#[verifier::external_body]
pub struct ModNsArena {
    inner: IndexVec<ModScopeNsId, ModScopeNs>,
}

/// The namespaces of module scopes that an arena holds, in slot order.
pub uninterp spec fn mod_ns_arena_items(arena: ModNsArena) -> Seq<ModScopeNs>;

/// `IndexVec::new`: an arena that holds nothing.
#[verifier::external_body]
fn mod_ns_arena_new() -> (arena: ModNsArena)
    ensures
        mod_ns_arena_items(arena) == Seq::<ModScopeNs>::empty(),
{
    ModNsArena { inner: IndexVec::new() }
}

/// `IndexSlice::len`, reached through `IndexVec`: the number of items held.
#[verifier::external_body]
fn mod_ns_arena_len(arena: &ModNsArena) -> (n: usize)
    ensures
        n == mod_ns_arena_items(*arena).len(),
{
    arena.inner.len()
}

/// `IndexVec::push`: puts `item` behind the items held and returns the handle
/// made from the length before the call. The handle names that slot as long
/// as the length fits a handle, which `requires` asks for.
#[verifier::external_body]
fn mod_ns_arena_push(arena: &mut ModNsArena, item: ModScopeNs) -> (id: ModScopeNsId)
    requires
        mod_ns_arena_items(*old(arena)).len() <= MAX_INDEX,
    ensures
        mod_ns_arena_items(*final(arena)) == mod_ns_arena_items(*old(arena)).push(item),
        id.slot() == mod_ns_arena_items(*old(arena)).len(),
{
    arena.inner.push(item)
}

/// `IndexVec::get` with a handle: the item in the handle's slot, or `None`
/// where the arena has no such slot.
#[verifier::external_body]
fn mod_ns_arena_get(arena: &ModNsArena, id: ModScopeNsId) -> (item: Option<&ModScopeNs>)
    ensures
        item == if id.slot() < mod_ns_arena_items(*arena).len() {
            Some(&mod_ns_arena_items(*arena)[id.slot() as int])
        } else {
            None::<&ModScopeNs>
        },
{
    arena.inner.get(id)
}

impl View for ModNsArena {
    type V = Seq<ModScopeNs>;

    open spec fn view(&self) -> Seq<ModScopeNs> {
        mod_ns_arena_items(*self)
    }
}

impl ModNsArena {
    /// An arena that holds nothing.
    pub fn new() -> (arena: Self)
        ensures
            arena@ == Seq::<ModScopeNs>::empty(),
    {
        mod_ns_arena_new()
    }

    /// The number of items held.
    pub fn len(&self) -> (n: usize)
        ensures
            n == self@.len(),
    {
        mod_ns_arena_len(self)
    }

    /// Appends `item` and returns its handle. The items held before keep
    /// their slots, so every handle issued earlier still names its item.
    pub fn push(&mut self, item: ModScopeNs) -> (id: ModScopeNsId)
        requires
            old(self)@.len() <= MAX_INDEX,
        ensures
            final(self)@ == old(self)@.push(item),
            id.slot() == old(self)@.len(),
    {
        mod_ns_arena_push(self, item)
    }

    /// The item that `id` names, or `None` where `id` was not issued by this arena.
    pub fn get(&self, id: ModScopeNsId) -> (item: Option<&ModScopeNs>)
        ensures
            item == if id.slot() < self@.len() {
                Some(&self@[id.slot() as int])
            } else {
                None::<&ModScopeNs>
            },
    {
        mod_ns_arena_get(self, id)
    }

    /// The item that `id` names, for a handle that this arena issued.
    pub fn item(&self, id: ModScopeNsId) -> (item: &ModScopeNs)
        requires
            id.slot() < self@.len(),
        ensures
            *item == self@[id.slot() as int],
    {
        mod_ns_arena_get(self, id).unwrap()
    }
}

/// The arena of namespaces of conditions: an `IndexVec<ConditionNsId, ConditionNs>`.
#[verifier::external_body]
pub struct ConditionNsArena {
    inner: IndexVec<ConditionNsId, ConditionNs>,
}

/// The namespaces of conditions that an arena holds, in slot order.
pub uninterp spec fn condition_ns_arena_items(arena: ConditionNsArena) -> Seq<ConditionNs>;

/// `IndexVec::new`: an arena that holds nothing.
#[verifier::external_body]
fn condition_ns_arena_new() -> (arena: ConditionNsArena)
    ensures
        condition_ns_arena_items(arena) == Seq::<ConditionNs>::empty(),
{
    ConditionNsArena { inner: IndexVec::new() }
}

/// `IndexSlice::len`, reached through `IndexVec`: the number of items held.
#[verifier::external_body]
fn condition_ns_arena_len(arena: &ConditionNsArena) -> (n: usize)
    ensures
        n == condition_ns_arena_items(*arena).len(),
{
    arena.inner.len()
}

/// `IndexVec::push`: puts `item` behind the items held and returns the handle
/// made from the length before the call. The handle names that slot as long
/// as the length fits a handle, which `requires` asks for.
#[verifier::external_body]
fn condition_ns_arena_push(arena: &mut ConditionNsArena, item: ConditionNs) -> (id: ConditionNsId)
    requires
        condition_ns_arena_items(*old(arena)).len() <= MAX_INDEX,
    ensures
        condition_ns_arena_items(*final(arena)) == condition_ns_arena_items(*old(arena)).push(item),
        id.slot() == condition_ns_arena_items(*old(arena)).len(),
{
    arena.inner.push(item)
}

/// `IndexVec::get` with a handle: the item in the handle's slot, or `None`
/// where the arena has no such slot.
#[verifier::external_body]
fn condition_ns_arena_get(arena: &ConditionNsArena, id: ConditionNsId) -> (item: Option<&ConditionNs>)
    ensures
        item == if id.slot() < condition_ns_arena_items(*arena).len() {
            Some(&condition_ns_arena_items(*arena)[id.slot() as int])
        } else {
            None::<&ConditionNs>
        },
{
    arena.inner.get(id)
}

/// `IndexVec::get_mut` with a handle: the item in the handle's slot, to be
/// changed in place, or `None` where the arena has no such slot. No other slot
/// changes, and none is added or removed.
#[verifier::external_body]
fn condition_ns_arena_get_mut(arena: &mut ConditionNsArena, id: ConditionNsId) -> (item: Option<&mut ConditionNs>)
    ensures
        id.slot() >= condition_ns_arena_items(*old(arena)).len() ==> item is None && condition_ns_arena_items(*final(arena)) == condition_ns_arena_items(*old(arena)),
        id.slot() < condition_ns_arena_items(*old(arena)).len() ==> match item {
            Some(slot) => *slot == condition_ns_arena_items(*old(arena))[id.slot() as int]
                && condition_ns_arena_items(*final(arena)) == condition_ns_arena_items(*old(arena)).update(id.slot() as int, *final(slot)),
            None => false,
        },
{
    arena.inner.get_mut(id)
}

impl View for ConditionNsArena {
    type V = Seq<ConditionNs>;

    open spec fn view(&self) -> Seq<ConditionNs> {
        condition_ns_arena_items(*self)
    }
}

impl ConditionNsArena {
    /// An arena that holds nothing.
    pub fn new() -> (arena: Self)
        ensures
            arena@ == Seq::<ConditionNs>::empty(),
    {
        condition_ns_arena_new()
    }

    /// The number of items held.
    pub fn len(&self) -> (n: usize)
        ensures
            n == self@.len(),
    {
        condition_ns_arena_len(self)
    }

    /// Appends `item` and returns its handle. The items held before keep
    /// their slots, so every handle issued earlier still names its item.
    pub fn push(&mut self, item: ConditionNs) -> (id: ConditionNsId)
        requires
            old(self)@.len() <= MAX_INDEX,
        ensures
            final(self)@ == old(self)@.push(item),
            id.slot() == old(self)@.len(),
    {
        condition_ns_arena_push(self, item)
    }

    /// The item that `id` names, or `None` where `id` was not issued by this arena.
    pub fn get(&self, id: ConditionNsId) -> (item: Option<&ConditionNs>)
        ensures
            item == if id.slot() < self@.len() {
                Some(&self@[id.slot() as int])
            } else {
                None::<&ConditionNs>
            },
    {
        condition_ns_arena_get(self, id)
    }

    /// The item that `id` names, for a handle that this arena issued.
    pub fn item(&self, id: ConditionNsId) -> (item: &ConditionNs)
        requires
            id.slot() < self@.len(),
        ensures
            *item == self@[id.slot() as int],
    {
        condition_ns_arena_get(self, id).unwrap()
    }

    /// The item that `id` names, to be changed in place, or `None` where `id`
    /// was not issued by this arena. Every other item stays as it is.
    pub fn get_mut(&mut self, id: ConditionNsId) -> (item: Option<&mut ConditionNs>)
        ensures
            id.slot() >= old(self)@.len() ==> item is None && final(self)@ == old(self)@,
            id.slot() < old(self)@.len() ==> match item {
                Some(slot) => *slot == old(self)@[id.slot() as int]
                    && final(self)@ == old(self)@.update(id.slot() as int, *final(slot)),
                None => false,
            },
    {
        condition_ns_arena_get_mut(self, id)
    }
}

/// The arena of module scopes: an `IndexVec<ModScopeId, ModScope>`.
#[verifier::external_body]
pub struct ModScopeArena {
    inner: IndexVec<ModScopeId, ModScope>,
}

/// The module scopes that an arena holds, in slot order.
pub uninterp spec fn mod_scope_arena_items(arena: ModScopeArena) -> Seq<ModScope>;

/// `IndexVec::new`: an arena that holds nothing.
#[verifier::external_body]
fn mod_scope_arena_new() -> (arena: ModScopeArena)
    ensures
        mod_scope_arena_items(arena) == Seq::<ModScope>::empty(),
{
    ModScopeArena { inner: IndexVec::new() }
}

/// `IndexSlice::len`, reached through `IndexVec`: the number of items held.
#[verifier::external_body]
fn mod_scope_arena_len(arena: &ModScopeArena) -> (n: usize)
    ensures
        n == mod_scope_arena_items(*arena).len(),
{
    arena.inner.len()
}

/// `IndexVec::push`: puts `item` behind the items held and returns the handle
/// made from the length before the call. The handle names that slot as long
/// as the length fits a handle, which `requires` asks for.
#[verifier::external_body]
fn mod_scope_arena_push(arena: &mut ModScopeArena, item: ModScope) -> (id: ModScopeId)
    requires
        mod_scope_arena_items(*old(arena)).len() <= MAX_INDEX,
    ensures
        mod_scope_arena_items(*final(arena)) == mod_scope_arena_items(*old(arena)).push(item),
        id.slot() == mod_scope_arena_items(*old(arena)).len(),
{
    arena.inner.push(item)
}

/// `IndexVec::get` with a handle: the item in the handle's slot, or `None`
/// where the arena has no such slot.
#[verifier::external_body]
fn mod_scope_arena_get(arena: &ModScopeArena, id: ModScopeId) -> (item: Option<&ModScope>)
    ensures
        item == if id.slot() < mod_scope_arena_items(*arena).len() {
            Some(&mod_scope_arena_items(*arena)[id.slot() as int])
        } else {
            None::<&ModScope>
        },
{
    arena.inner.get(id)
}

/// `IndexVec::get_mut` with a handle: the item in the handle's slot, to be
/// changed in place, or `None` where the arena has no such slot. No other slot
/// changes, and none is added or removed.
#[verifier::external_body]
fn mod_scope_arena_get_mut(arena: &mut ModScopeArena, id: ModScopeId) -> (item: Option<&mut ModScope>)
    ensures
        id.slot() >= mod_scope_arena_items(*old(arena)).len() ==> item is None && mod_scope_arena_items(*final(arena)) == mod_scope_arena_items(*old(arena)),
        id.slot() < mod_scope_arena_items(*old(arena)).len() ==> match item {
            Some(slot) => *slot == mod_scope_arena_items(*old(arena))[id.slot() as int]
                && mod_scope_arena_items(*final(arena)) == mod_scope_arena_items(*old(arena)).update(id.slot() as int, *final(slot)),
            None => false,
        },
{
    arena.inner.get_mut(id)
}

impl View for ModScopeArena {
    type V = Seq<ModScope>;

    open spec fn view(&self) -> Seq<ModScope> {
        mod_scope_arena_items(*self)
    }
}

impl ModScopeArena {
    /// An arena that holds nothing.
    pub fn new() -> (arena: Self)
        ensures
            arena@ == Seq::<ModScope>::empty(),
    {
        mod_scope_arena_new()
    }

    /// The number of items held.
    pub fn len(&self) -> (n: usize)
        ensures
            n == self@.len(),
    {
        mod_scope_arena_len(self)
    }

    /// Appends `item` and returns its handle. The items held before keep
    /// their slots, so every handle issued earlier still names its item.
    pub fn push(&mut self, item: ModScope) -> (id: ModScopeId)
        requires
            old(self)@.len() <= MAX_INDEX,
        ensures
            final(self)@ == old(self)@.push(item),
            id.slot() == old(self)@.len(),
    {
        mod_scope_arena_push(self, item)
    }

    /// The item that `id` names, or `None` where `id` was not issued by this arena.
    pub fn get(&self, id: ModScopeId) -> (item: Option<&ModScope>)
        ensures
            item == if id.slot() < self@.len() {
                Some(&self@[id.slot() as int])
            } else {
                None::<&ModScope>
            },
    {
        mod_scope_arena_get(self, id)
    }

    /// The item that `id` names, for a handle that this arena issued.
    pub fn item(&self, id: ModScopeId) -> (item: &ModScope)
        requires
            id.slot() < self@.len(),
        ensures
            *item == self@[id.slot() as int],
    {
        mod_scope_arena_get(self, id).unwrap()
    }

    /// The item that `id` names, to be changed in place, or `None` where `id`
    /// was not issued by this arena. Every other item stays as it is.
    pub fn get_mut(&mut self, id: ModScopeId) -> (item: Option<&mut ModScope>)
        ensures
            id.slot() >= old(self)@.len() ==> item is None && final(self)@ == old(self)@,
            id.slot() < old(self)@.len() ==> match item {
                Some(slot) => *slot == old(self)@[id.slot() as int]
                    && final(self)@ == old(self)@.update(id.slot() as int, *final(slot)),
                None => false,
            },
    {
        mod_scope_arena_get_mut(self, id)
    }
}

} // verus!
