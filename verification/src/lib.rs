//! Intermediate representation of a compiler: a tree-shaped, scope-aware
//! high-level form (HIR), a block-structured instruction form (MIR), and the
//! arena of operations that carries both.

pub mod arena;
pub mod handle;
pub mod hir;
pub mod ids;
pub mod index_counter;
pub mod layout;
pub mod mir;
pub mod resolve;
pub mod source_info;
pub mod symbol;
pub mod text;
pub mod ty;

use vstd::prelude::*;
use crate::arena::{BlockArena, OpArena};
use crate::handle::{Handle, MAX_INDEX};
use crate::hir::{HirCode, Item};
use crate::mir::{void_instr, Instr, MirCode};
use crate::source_info::SourceRange;
use crate::text::{
    debug_decl, debug_expr, debug_instr, decimal, decl_debug, expr_debug, instr_debug,
    push_decimal, push_text,
};
pub use crate::ids::{BlockId, OpId};

verus! {

/// One slot of the unified arena: an item of the high-level form or an
/// instruction of the low-level form.
#[derive(Clone, Debug)]
pub enum Op {
    HirItem(Item),
    MirInstr(Instr),
}

impl Op {
    /// The instruction, where the operation is one.
    pub fn as_mir_instr(&self) -> (r: Option<&Instr>)
        ensures
            r == match *self {
                Op::MirInstr(instr) => Some(&instr),
                Op::HirItem(_) => None::<&Instr>,
            },
    {
        match self {
            Op::MirInstr(instr) => Some(instr),
            _ => None,
        }
    }

    /// The item, where the operation is one.
    pub fn as_hir_item(&self) -> (r: Option<Item>)
        ensures
            r == match *self {
                Op::HirItem(item) => Some(item),
                Op::MirInstr(_) => None::<Item>,
            },
    {
        match self {
            Op::HirItem(item) => Some(*item),
            _ => None,
        }
    }
}

/// A basic block: handles of operations, in the order in which they were appended.
pub struct Block {
    pub ops: Vec<OpId>,
}

impl Default for Block {
    fn default() -> (b: Self)
        ensures
            b.ops@ == Seq::<OpId>::empty(),
    {
        Block { ops: Vec::new() }
    }
}

/// What an instruction is looked up by: its own handle, or a block and a
/// position in that block.
#[derive(Clone, Copy, Debug)]
pub enum InstrKey {
    Op(OpId),
    InBlock { block: BlockId, index: usize },
}

/// The unified arena: one sequence of operations that mixes items of the
/// high-level form with instructions of the low-level form, the basic blocks
/// that group them, and both representations.
pub struct Code {
    pub blocks: BlockArena,
    pub ops: OpArena,
    pub hir_code: HirCode,
    pub mir_code: MirCode,
}

impl Default for Code {
    /// The arena that holds the void instruction and nothing else.
    fn default() -> (code: Self)
        ensures
            code.wf(),
            code.ops@ == seq![Op::MirInstr(Instr::Void)],
            code.blocks@.len() == 0,
            code.hir_code.is_empty(),
            code.mir_code.strings@.len() == 0,
            code.mir_code.functions@.len() == 0,
            code.mir_code.statics@.len() == 0,
            code.mir_code.structs@ == Map::<u32, mir::Struct>::empty(),
            code.mir_code.source_ranges@ == Map::<u32, SourceRange>::empty().insert(
                void_instr().raw,
                SourceRange { start: usize::MAX, end: usize::MAX },
            ),
            forall|block: BlockId| code.mir_code.state_of(block) == mir::BlockState::Created,
    {
        broadcast use vstd::std_specs::hash::group_hash_axioms;

        let mut ops = OpArena::new();
        ops.push(Op::MirInstr(Instr::Void));
        let mut mir_code = MirCode::default();
        let ghost fresh = mir_code;
        mir_code.source_ranges.insert(void_instr().raw, SourceRange::default());
        proof {
            assert forall|block: BlockId| mir_code.state_of(block) == mir::BlockState::Created by {
                assert(fresh.state_of(block) == mir::BlockState::Created);
            }
        }
        Code { blocks: BlockArena::new(), ops, hir_code: HirCode::default(), mir_code }
    }
}

impl Code {
    /// Whether `item` names an entity that the high-level form holds.
    pub open spec fn item_in_range(&self, item: Item) -> bool {
        match item {
            Item::Expr(expr) => expr.slot() < self.hir_code.exprs@.len(),
            Item::Decl(decl) => decl.slot() < self.hir_code.decls@.len(),
        }
    }

    /// Whether `op` refers only to what the arena holds.
    pub open spec fn op_in_range(&self, op: Op) -> bool {
        match op {
            Op::HirItem(item) => self.item_in_range(item),
            Op::MirInstr(_) => true,
        }
    }

    /// The invariant of the arena: every operation and every block has a
    /// handle, the first operation is the void instruction, every operation
    /// that is an item names an entity of the high-level form, and every
    /// block lists operations of this arena.
    pub open spec fn wf(&self) -> bool {
        &&& 1 <= self.ops@.len() <= MAX_INDEX + 1
        &&& self.blocks@.len() <= MAX_INDEX + 1
        &&& self.ops@[0] == Op::MirInstr(Instr::Void)
        &&& forall|i: int| 0 <= i < self.ops@.len() ==> self.op_in_range(#[trigger] self.ops@[i])
        &&& forall|b: int, i: int|
            0 <= b < self.blocks@.len() && 0 <= i < self.blocks@[b].ops@.len() ==> (
            #[trigger] self.blocks@[b].ops@[i]).slot() < self.ops@.len()
    }

    /// Whether the item `item` names an entity that the high-level form holds.
    fn holds_item(&self, item: Item) -> (r: bool)
        ensures
            r == self.item_in_range(item),
    {
        match item {
            Item::Expr(expr) => expr.index() < self.hir_code.exprs.len(),
            Item::Decl(decl) => decl.index() < self.hir_code.decls.len(),
        }
    }

    /// Whether every operation that is an item names an entity of the
    /// high-level form.
    fn ops_in_range(&self) -> (r: bool)
        requires
            self.ops@.len() <= MAX_INDEX + 1,
        ensures
            r == forall|i: int| 0 <= i < self.ops@.len() ==> self.op_in_range(#[trigger] self.ops@[i]),
    {
        let n = self.ops.len();
        let mut i: usize = 0;
        while i < n
            invariant
                n == self.ops@.len(),
                n <= MAX_INDEX + 1,
                i <= n,
                forall|k: int| 0 <= k < i ==> self.op_in_range(#[trigger] self.ops@[k]),
            decreases n - i,
        {
            let ok = match self.ops.item(OpId::from_usize(i)) {
                Op::HirItem(item) => self.holds_item(*item),
                Op::MirInstr(_) => true,
            };
            if !ok {
                return false;
            }
            i += 1;
        }
        true
    }

    /// Whether every block lists operations of this arena only.
    fn blocks_in_range(&self) -> (r: bool)
        requires
            self.blocks@.len() <= MAX_INDEX + 1,
        ensures
            r == forall|b: int, i: int|
                0 <= b < self.blocks@.len() && 0 <= i < self.blocks@[b].ops@.len() ==> (
                #[trigger] self.blocks@[b].ops@[i]).slot() < self.ops@.len(),
    {
        let n = self.blocks.len();
        let limit = self.ops.len();
        let mut b: usize = 0;
        while b < n
            invariant
                n == self.blocks@.len(),
                n <= MAX_INDEX + 1,
                limit == self.ops@.len(),
                b <= n,
                forall|c: int, i: int|
                    0 <= c < b && 0 <= i < self.blocks@[c].ops@.len() ==> (
                    #[trigger] self.blocks@[c].ops@[i]).slot() < self.ops@.len(),
            decreases n - b,
        {
            let ops = &self.blocks.item(BlockId::from_usize(b)).ops;
            let mut i: usize = 0;
            while i < ops.len()
                invariant
                    b < self.blocks@.len(),
                    *ops == self.blocks@[b as int].ops,
                    limit == self.ops@.len(),
                    i <= ops@.len(),
                    forall|k: int| 0 <= k < i ==> (#[trigger] ops@[k]).slot() < self.ops@.len(),
                decreases ops@.len() - i,
            {
                if ops[i].index() >= limit {
                    return false;
                }
                i += 1;
            }
            b += 1;
        }
        true
    }

    /// Whether the invariant of the arena holds.
    pub fn is_wf(&self) -> (r: bool)
        ensures
            r == self.wf(),
    {
        let ops = self.ops.len();
        let blocks = self.blocks.len();
        if ops == 0 || ops - 1 > MAX_INDEX || (blocks > 0 && blocks - 1 > MAX_INDEX) {
            return false;
        }
        let starts_with_void = match self.ops.item(void_instr()) {
            Op::MirInstr(Instr::Void) => true,
            _ => false,
        };
        starts_with_void && self.ops_in_range() && self.blocks_in_range()
    }

    /// Whether `key` names an operation of the arena.
    pub open spec fn key_in_range(&self, key: InstrKey) -> bool {
        match key {
            InstrKey::Op(id) => id.slot() < self.ops@.len(),
            InstrKey::InBlock { block, index } => {
                &&& block.slot() < self.blocks@.len()
                &&& index < self.blocks@[block.slot() as int].ops@.len()
                &&& self.blocks@[block.slot() as int].ops@[index as int].slot() < self.ops@.len()
            },
        }
    }

    /// The handle of the operation that `key` names.
    pub open spec fn key_op(&self, key: InstrKey) -> OpId {
        match key {
            InstrKey::Op(id) => id,
            InstrKey::InBlock { block, index } => self.blocks@[block.slot() as int].ops@[index as int],
        }
    }

    /// Appends an operation and returns its handle. The operations held
    /// before keep their handles.
    fn push_op(&mut self, op: Op) -> (id: OpId)
        requires
            old(self).wf(),
            old(self).ops@.len() <= MAX_INDEX,
            old(self).op_in_range(op),
        ensures
            final(self).wf(),
            final(self).ops@ == old(self).ops@.push(op),
            id.slot() == old(self).ops@.len(),
            final(self).blocks == old(self).blocks,
            final(self).hir_code == old(self).hir_code,
            final(self).mir_code == old(self).mir_code,
    {
        self.ops.push(op)
    }

    /// Appends an item of the high-level form as an operation and returns the
    /// fresh handle. The operations held before keep their handles.
    pub fn push_hir_item(&mut self, item: Item) -> (id: OpId)
        requires
            old(self).wf(),
            old(self).ops@.len() <= MAX_INDEX,
            old(self).item_in_range(item),
        ensures
            final(self).wf(),
            final(self).ops@ == old(self).ops@.push(Op::HirItem(item)),
            id.slot() == old(self).ops@.len(),
            final(self).blocks == old(self).blocks,
            final(self).hir_code == old(self).hir_code,
            final(self).mir_code == old(self).mir_code,
    {
        self.push_op(Op::HirItem(item))
    }

    /// Appends an instruction as an operation and returns the fresh handle.
    /// The operations held before keep their handles.
    pub fn push_mir_instr(&mut self, instr: Instr) -> (id: OpId)
        requires
            old(self).wf(),
            old(self).ops@.len() <= MAX_INDEX,
        ensures
            final(self).wf(),
            final(self).ops@ == old(self).ops@.push(Op::MirInstr(instr)),
            id.slot() == old(self).ops@.len(),
            final(self).blocks == old(self).blocks,
            final(self).hir_code == old(self).hir_code,
            final(self).mir_code == old(self).mir_code,
    {
        self.push_op(Op::MirInstr(instr))
    }

    /// Adds a block without operations and returns its handle. Blocks may be
    /// built side by side: none has to be finished before the next is added.
    pub fn new_block(&mut self) -> (id: BlockId)
        requires
            old(self).wf(),
            old(self).blocks@.len() <= MAX_INDEX,
        ensures
            final(self).wf(),
            id.slot() == old(self).blocks@.len(),
            final(self).blocks@.len() == old(self).blocks@.len() + 1,
            final(self).blocks@.take(id.slot() as int) == old(self).blocks@,
            final(self).blocks@[id.slot() as int].ops@ == Seq::<OpId>::empty(),
            final(self).ops == old(self).ops,
            final(self).hir_code == old(self).hir_code,
            final(self).mir_code == old(self).mir_code,
    {
        self.blocks.push(Block::default())
    }

    /// Appends the operation `op` to `block`. The block lists its operations
    /// in the order of these calls; no other block changes.
    pub fn push_to_block(&mut self, block: BlockId, op: OpId)
        requires
            old(self).wf(),
            block.slot() < old(self).blocks@.len(),
            op.slot() < old(self).ops@.len(),
        ensures
            final(self).wf(),
            final(self).blocks@.len() == old(self).blocks@.len(),
            final(self).blocks@[block.slot() as int].ops@ == old(self).blocks@[block.slot() as int].ops@.push(
                op,
            ),
            forall|other: int|
                0 <= other < old(self).blocks@.len() && other != block.slot()
                    ==> final(self).blocks@[other] == old(self).blocks@[other],
            final(self).ops == old(self).ops,
            final(self).hir_code == old(self).hir_code,
            final(self).mir_code == old(self).mir_code,
    {
        match self.blocks.get_mut(block) {
            Some(slot) => {
                slot.ops.push(op);
            },
            None => {},
        }
    }

    /// Looks an instruction up, by the handle of its operation or by a block
    /// and a position in it. The result is `None` where the operation is an
    /// item of the high-level form.
    pub fn get_mir_instr(&self, key: InstrKey) -> (r: Option<&Instr>)
        requires
            self.key_in_range(key),
        ensures
            r == match self.ops@[self.key_op(key).slot() as int] {
                Op::MirInstr(instr) => Some(&instr),
                Op::HirItem(_) => None::<&Instr>,
            },
    {
        let id = match key {
            InstrKey::Op(id) => id,
            InstrKey::InBlock { block, index } => self.blocks.item(block).ops[index],
        };
        self.ops.item(id).as_mir_instr()
    }

    /// The line that the dump shows for the operation `id`.
    pub open spec fn op_line(&self, id: OpId) -> Seq<char> {
        "    %op"@ + decimal(id.slot()) + match self.ops@[id.slot() as int] {
            Op::HirItem(Item::Expr(expr)) => "(%expr"@ + decimal(expr.slot()) + ") = hir."@
                + expr_debug(self.hir_code.exprs@[expr.slot() as int]) + "\n"@,
            Op::HirItem(Item::Decl(decl)) => "(%decl"@ + decimal(decl.slot()) + ") = hir."@
                + decl_debug(self.hir_code.decls@[decl.slot() as int]) + "\n"@,
            Op::MirInstr(instr) => " = mir."@ + instr_debug(instr) + "\n"@,
        }
    }

    /// The lines of the operations `ops`, in their order.
    pub open spec fn ops_dump(&self, ops: Seq<OpId>) -> Seq<char>
        decreases ops.len(),
    {
        if ops.len() == 0 {
            Seq::<char>::empty()
        } else {
            self.ops_dump(ops.drop_last()) + self.op_line(ops.last())
        }
    }

    /// The dump of a block: one line for each of its operations, in the order
    /// in which they were appended.
    pub open spec fn block_dump(&self, block: BlockId) -> Seq<char> {
        self.ops_dump(self.blocks@[block.slot() as int].ops@)
    }

    /// Appends the line of the operation `id` to `text`.
    fn push_op_line(&self, text: &mut String, id: OpId)
        requires
            self.wf(),
            id.slot() < self.ops@.len(),
        ensures
            final(text)@ == old(text)@ + self.op_line(id),
    {
        push_text(text, "    %op");
        push_decimal(text, id.index());
        match self.ops.item(id) {
            Op::HirItem(item) => {
                match item {
                    Item::Expr(expr) => {
                        push_text(text, "(%expr");
                        push_decimal(text, expr.index());
                        push_text(text, ") = hir.");
                        let shown = debug_expr(self.hir_code.exprs.item(*expr));
                        push_text(text, shown.as_str());
                    },
                    Item::Decl(decl) => {
                        push_text(text, "(%decl");
                        push_decimal(text, decl.index());
                        push_text(text, ") = hir.");
                        let shown = debug_decl(self.hir_code.decls.item(*decl));
                        push_text(text, shown.as_str());
                    },
                }
            },
            Op::MirInstr(instr) => {
                push_text(text, " = mir.");
                let shown = debug_instr(instr);
                push_text(text, shown.as_str());
            },
        }
        push_text(text, "\n");
        proof {
            assert(text@ =~= old(text)@ + self.op_line(id));
        }
    }

    /// Renders a block: one line for each of its operations, in the order in
    /// which they were appended.
    pub fn display_block(&self, block: BlockId) -> (text: String)
        requires
            self.wf(),
            block.slot() < self.blocks@.len(),
        ensures
            text@ == self.block_dump(block),
    {
        let mut text = String::new();
        let ops = &self.blocks.item(block).ops;
        let mut i: usize = 0;
        while i < ops.len()
            invariant
                self.wf(),
                block.slot() < self.blocks@.len(),
                *ops == self.blocks@[block.slot() as int].ops,
                i <= ops@.len(),
                text@ == self.ops_dump(ops@.take(i as int)),
            decreases ops@.len() - i,
        {
            let id = ops[i];
            self.push_op_line(&mut text, id);
            proof {
                let shown = ops@.take(i + 1);
                assert(shown.drop_last() == ops@.take(i as int));
                assert(shown.last() == id);
            }
            i += 1;
        }
        proof {
            assert(ops@.take(i as int) == ops@);
        }
        text
    }
}

} // verus!
