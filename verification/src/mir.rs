//! The block-structured instruction form: instructions, constants, functions
//! as ordered lists of blocks, struct layouts, and the lifecycle of basic
//! blocks while a function is being built.

use vstd::prelude::*;
use std::collections::HashMap;
use crate::handle::Handle;
use crate::hir::Intrinsic;
use crate::source_info::SourceRange;
use crate::text::{decimal, push_decimal, push_text};
use crate::{Code, Op};
use crate::ty::Type;
pub use crate::ids::{BlockId, DeclId, FuncId, ModScopeId, OpId, StaticId, StrId, StructId};
pub use crate::layout::{Struct, StructLayout};
use crate::symbol::Sym;

verus! {

/// The handle of the void instruction: the first operation of every arena.
pub open spec fn void_instr_spec() -> OpId {
    OpId { raw: 0 }
}

/// The handle of the void instruction.
#[verifier::when_used_as_spec(void_instr_spec)]
pub fn void_instr() -> (id: OpId)
    ensures
        id == void_instr_spec(),
{
    OpId { raw: 0 }
}

#[derive(Clone, Debug, PartialEq)]
pub enum Instr {
    Void,
    Const(Const),
    Alloca(Type),
    LogicalNot(OpId),
    Call { arguments: Vec<OpId>, func: FuncId },
    Intrinsic { arguments: Vec<OpId>, ty: Type, intr: Intrinsic },
    Reinterpret(OpId, Type),
    Truncate(OpId, Type),
    SignExtend(OpId, Type),
    ZeroExtend(OpId, Type),
    FloatCast(OpId, Type),
    FloatToInt(OpId, Type),
    IntToFloat(OpId, Type),
    Load(OpId),
    Store { location: OpId, value: OpId },
    AddressOfStatic(StaticId),
    Pointer { op: OpId, is_mut: bool },
    Struct { fields: Vec<OpId>, id: StructId },
    StructLit { fields: Vec<OpId>, id: StructId },
    /// Reads a field of a struct value; `index` is the field's declared index.
    DirectFieldAccess { val: OpId, index: usize },
    /// Reads a field through a pointer to a struct; `index` is the field's declared index.
    IndirectFieldAccess { val: OpId, index: usize },
    Ret(OpId),
    Br(BlockId),
    CondBr { condition: OpId, true_bb: BlockId, false_bb: BlockId },
    /// Only valid at the beginning of a function, right after the void instruction.
    Parameter(Type),
}

#[derive(Debug, PartialEq)]
#[allow(inconsistent_fields)]
pub enum Const {
    Int { lit: u64, ty: Type },
    /// A floating-point constant, as the bits of its double-precision value.
    Float { bits: u64, ty: Type },
    Str { id: StrId, ty: Type },
    Bool(bool),
    Ty(Type),
    Mod(ModScopeId),
    StructLit { fields: Vec<Const>, id: StructId },
}

/// Whether two constants are the same value: the same kind with the same
/// payload, struct literals field by field.
pub open spec fn same_const(a: Const, b: Const) -> bool
    decreases a,
{
    match (a, b) {
        (Const::StructLit { fields: fa, id: ia }, Const::StructLit { fields: fb, id: ib }) => {
            &&& ia == ib
            &&& fa@.len() == fb@.len()
            &&& forall|i: int| 0 <= i < fa@.len() ==> same_const(#[trigger] fa@[i], fb@[i])
        },
        (Const::StructLit { .. }, _) => false,
        (_, Const::StructLit { .. }) => false,
        _ => a == b,
    }
}

impl Clone for Const {
    fn clone(&self) -> (c: Self)
        ensures
            same_const(*self, c),
        decreases self,
    {
        match self {
            Const::Int { lit, ty } => Const::Int { lit: *lit, ty: ty.clone() },
            Const::Float { bits, ty } => Const::Float { bits: *bits, ty: ty.clone() },
            Const::Str { id, ty } => Const::Str { id: *id, ty: ty.clone() },
            Const::Bool(b) => Const::Bool(*b),
            Const::Ty(ty) => Const::Ty(ty.clone()),
            Const::Mod(id) => Const::Mod(*id),
            Const::StructLit { fields, id } => {
                let mut copy: Vec<Const> = Vec::new();
                let mut i: usize = 0;
                while i < fields.len()
                    invariant
                        i <= fields.len(),
                        copy@.len() == i,
                        decreases_to!(self => fields),
                        forall|j: int| 0 <= j < i ==> same_const(#[trigger] fields@[j], copy@[j]),
                    decreases fields.len() - i,
                {
                    proof {
                        vstd::std_specs::vec::axiom_vec_index_decreases(*fields, i as int);
                    }
                    let field = fields[i].clone();
                    copy.push(field);
                    i += 1;
                }
                Const::StructLit { fields: copy, id: *id }
            },
        }
    }
}

impl Const {
    /// The type of the constant: the one it carries, or the one that its kind fixes.
    pub open spec fn ty_spec(self) -> Type {
        match self {
            Const::Int { ty, .. } => ty,
            Const::Float { ty, .. } => ty,
            Const::Str { ty, .. } => ty,
            Const::Bool(_) => Type::Bool,
            Const::Ty(_) => Type::Ty,
            Const::Mod(_) => Type::Mod,
            Const::StructLit { id, .. } => Type::Struct(id),
        }
    }

    pub fn ty(&self) -> (t: Type)
        ensures
            t == self.ty_spec(),
    {
        match self {
            Const::Int { ty, .. } => ty.clone(),
            Const::Float { ty, .. } => ty.clone(),
            Const::Str { ty, .. } => ty.clone(),
            Const::Bool(_) => Type::Bool,
            Const::Ty(_) => Type::Ty,
            Const::Mod(_) => Type::Mod,
            Const::StructLit { id, .. } => Type::Struct(*id),
        }
    }
}

#[derive(Debug)]
pub struct Function {
    pub name: Option<Sym>,
    pub ret_ty: Type,
    /// Index 0 is defined to be the entry block.
    pub blocks: Vec<BlockId>,
    pub decl: Option<DeclId>,
}

impl Default for Function {
    /// An anonymous function without blocks.
    fn default() -> (f: Self)
        ensures
            f.name is None,
            f.ret_ty == Type::Error,
            f.blocks@ == Seq::<BlockId>::empty(),
            f.decl is None,
    {
        Function { name: None, ret_ty: Type::default(), blocks: Vec::new(), decl: None }
    }
}

/// Whether `op` is a parameter instruction.
pub open spec fn is_parameter(op: Op) -> bool {
    op matches Op::MirInstr(Instr::Parameter(_))
}

/// Whether `op` is the void instruction.
pub open spec fn is_void(op: Op) -> bool {
    op == Op::MirInstr(Instr::Void)
}

/// The position of the first operation at or behind `from` that is not the
/// void instruction; the length of `ops` where there is none.
pub open spec fn first_real(ops: Seq<Op>, from: int) -> int
    decreases ops.len() - from,
{
    if 0 <= from < ops.len() && is_void(ops[from]) {
        first_real(ops, from + 1)
    } else {
        from
    }
}

/// The length of the run of parameter instructions that starts at `from`.
pub open spec fn parameters_from(ops: Seq<Op>, from: int) -> nat
    decreases ops.len() - from,
{
    if 0 <= from < ops.len() && is_parameter(ops[from]) {
        1 + parameters_from(ops, from + 1)
    } else {
        0
    }
}

/// The number of parameters that the operations of an entry block declare:
/// the length of the run of parameter instructions that starts at the first
/// operation that is not the void instruction.
pub open spec fn parameter_count(ops: Seq<Op>) -> nat {
    parameters_from(ops, first_real(ops, 0))
}

/// A block that holds `voids` void instructions, then `k` parameter
/// instructions, and then ends or goes on with an operation that is not a
/// parameter, declares exactly `k` parameters.
pub proof fn lemma_parameter_count(ops: Seq<Op>, voids: nat, k: nat)
    requires
        voids + k <= ops.len(),
        forall|i: int| 0 <= i < voids ==> is_void(#[trigger] ops[i]),
        voids < ops.len() ==> !is_void(ops[voids as int]),
        forall|i: int| voids <= i < voids + k ==> is_parameter(#[trigger] ops[i]),
        voids + k < ops.len() ==> !is_parameter(ops[(voids + k) as int]),
    ensures
        parameter_count(ops) == k,
{
    lemma_first_real(ops, 0, voids as int);
    lemma_parameters_from(ops, voids as int, k);
}

proof fn lemma_first_real(ops: Seq<Op>, from: int, end: int)
    requires
        0 <= from <= end <= ops.len(),
        forall|i: int| from <= i < end ==> is_void(#[trigger] ops[i]),
        end < ops.len() ==> !is_void(ops[end]),
    ensures
        first_real(ops, from) == end,
    decreases end - from,
{
    if from < end {
        lemma_first_real(ops, from + 1, end);
    }
}

proof fn lemma_parameters_from(ops: Seq<Op>, from: int, k: nat)
    requires
        0 <= from,
        from + k <= ops.len(),
        forall|i: int| from <= i < from + k ==> is_parameter(#[trigger] ops[i]),
        from + k < ops.len() ==> !is_parameter(ops[from + k]),
    ensures
        parameters_from(ops, from) == k,
    decreases k,
{
    if k > 0 {
        lemma_parameters_from(ops, from + 1, (k - 1) as nat);
    }
}

impl Code {
    /// The operations that `block` lists, in its order.
    pub open spec fn block_ops(&self, block: BlockId) -> Seq<Op> {
        self.blocks@[block.slot() as int].ops@.map_values(|id: OpId| self.ops@[id.slot() as int])
    }

    /// The dump of the blocks `blocks`: each with its label and its lines.
    pub open spec fn blocks_dump(&self, blocks: Seq<BlockId>) -> Seq<char>
        decreases blocks.len(),
    {
        if blocks.len() == 0 {
            Seq::<char>::empty()
        } else {
            self.blocks_dump(blocks.drop_last()) + "%bb"@ + decimal(blocks.last().slot()) + ":\n"@
                + self.block_dump(blocks.last())
        }
    }

    /// The dump of a function under the name `name`.
    pub open spec fn func_dump(&self, func: &Function, name: Seq<char>) -> Seq<char> {
        "fn "@ + name + "() {\n"@ + self.blocks_dump(func.blocks@) + "}\n"@
    }

    /// Whether every block of `func` is a block of this arena.
    pub open spec fn func_in_range(&self, func: &Function) -> bool {
        forall|i: int| 0 <= i < func.blocks@.len() ==> (#[trigger] func.blocks@[i]).slot() < self.blocks@.len()
    }

    /// Whether the operation `id` is a parameter instruction.
    fn op_is_parameter(&self, id: OpId) -> (r: bool)
        requires
            id.slot() < self.ops@.len(),
        ensures
            r == is_parameter(self.ops@[id.slot() as int]),
    {
        match self.ops.item(id) {
            Op::MirInstr(Instr::Parameter(_)) => true,
            _ => false,
        }
    }

    /// Whether the operation `id` is the void instruction.
    fn op_is_void(&self, id: OpId) -> (r: bool)
        requires
            id.slot() < self.ops@.len(),
        ensures
            r == is_void(self.ops@[id.slot() as int]),
    {
        match self.ops.item(id) {
            Op::MirInstr(Instr::Void) => true,
            _ => false,
        }
    }

    /// The number of parameters of `func`: the length of the run of parameter
    /// instructions at the front of its entry block, behind the void
    /// instruction where the block starts with it.
    pub fn num_parameters(&self, func: &Function) -> (n: usize)
        requires
            self.wf(),
            func.blocks@.len() > 0,
            func.blocks@[0].slot() < self.blocks@.len(),
        ensures
            n == parameter_count(self.block_ops(func.blocks@[0])),
    {
        let entry = func.blocks[0];
        let ids = &self.blocks.item(entry).ops;
        let ghost ops = self.block_ops(entry);
        let mut start: usize = 0;
        while start < ids.len() && self.op_is_void(ids[start])
            invariant
                self.wf(),
                entry.slot() < self.blocks@.len(),
                *ids == self.blocks@[entry.slot() as int].ops,
                ops == self.block_ops(entry),
                start <= ids@.len(),
                first_real(ops, 0) == first_real(ops, start as int),
            decreases ids@.len() - start,
        {
            start += 1;
        }
        let mut n: usize = 0;
        while n < ids.len() - start && self.op_is_parameter(ids[start + n])
            invariant
                self.wf(),
                entry.slot() < self.blocks@.len(),
                *ids == self.blocks@[entry.slot() as int].ops,
                ops == self.block_ops(entry),
                start <= ids@.len(),
                n <= ids@.len() - start,
                parameters_from(ops, start as int) == n + parameters_from(ops, start + n),
            decreases ids@.len() - start - n,
        {
            n += 1;
        }
        n
    }

    /// Renders a function under the name `name`: a header, each block with
    /// its label and its lines in the order of the function's block list, and
    /// a closing brace.
    pub fn display_func(&self, func: &Function, name: &str) -> (text: String)
        requires
            self.wf(),
            self.func_in_range(func),
        ensures
            text@ == self.func_dump(func, name@),
    {
        let mut text = String::new();
        push_text(&mut text, "fn ");
        push_text(&mut text, name);
        push_text(&mut text, "() {\n");
        let ghost head = text@;
        let mut i: usize = 0;
        while i < func.blocks.len()
            invariant
                self.wf(),
                self.func_in_range(func),
                i <= func.blocks@.len(),
                text@ == head + self.blocks_dump(func.blocks@.take(i as int)),
            decreases func.blocks@.len() - i,
        {
            let block = func.blocks[i];
            push_text(&mut text, "%bb");
            push_decimal(&mut text, block.index());
            push_text(&mut text, ":\n");
            let lines = self.display_block(block);
            push_text(&mut text, lines.as_str());
            proof {
                let shown = func.blocks@.take(i + 1);
                assert(shown.drop_last() == func.blocks@.take(i as int));
                assert(shown.last() == block);
                assert(text@ =~= head + self.blocks_dump(shown));
            }
            i += 1;
        }
        proof {
            assert(func.blocks@.take(i as int) == func.blocks@);
        }
        push_text(&mut text, "}\n");
        proof {
            assert(text@ =~= self.func_dump(func, name@));
        }
        text
    }
}

/// How far the construction of a block has come.
#[derive(Clone, Copy, Debug, PartialEq, Eq, Structural)]
pub enum BlockState {
    Created,
    Started,
    Ended,
}

#[derive(Clone, Copy, Debug, PartialEq, Eq, Structural)]
pub enum StartBlockError {
    BlockEnded,
}

#[derive(Clone, Copy, Debug, PartialEq, Eq, Structural)]
pub enum EndBlockError {
    BlockEnded,
    BlockNotStarted,
}

/// What starting a block in state `state` leads to: a block that was created
/// or is being built is then being built; a sealed block cannot be resumed.
pub open spec fn start_transition(state: BlockState) -> Result<BlockState, StartBlockError> {
    match state {
        BlockState::Created => Ok(BlockState::Started),
        BlockState::Started => Ok(BlockState::Started),
        BlockState::Ended => Err(StartBlockError::BlockEnded),
    }
}

/// What ending a block in state `state` leads to: only a block that is being
/// built can be sealed, and only once.
pub open spec fn end_transition(state: BlockState) -> Result<BlockState, EndBlockError> {
    match state {
        BlockState::Created => Err(EndBlockError::BlockNotStarted),
        BlockState::Started => Ok(BlockState::Ended),
        BlockState::Ended => Err(EndBlockError::BlockEnded),
    }
}

/// The state of a block after `start_block` was called on it in state `state`.
pub open spec fn after_start(state: BlockState) -> BlockState {
    match start_transition(state) {
        Ok(next) => next,
        Err(_) => state,
    }
}

/// The state of a block after `end_block` was called on it in state `state`.
pub open spec fn after_end(state: BlockState) -> BlockState {
    match end_transition(state) {
        Ok(next) => next,
        Err(_) => state,
    }
}

/// A call on a block: `start_block` or `end_block`.
pub enum BlockCall {
    Start,
    End,
}

/// The state of a block after the calls `calls` were made on it, in their
/// order, starting in state `state`.
pub open spec fn after_calls(state: BlockState, calls: Seq<BlockCall>) -> BlockState
    decreases calls.len(),
{
    if calls.len() == 0 {
        state
    } else {
        match calls.last() {
            BlockCall::Start => after_start(after_calls(state, calls.drop_last())),
            BlockCall::End => after_end(after_calls(state, calls.drop_last())),
        }
    }
}

/// Starting is idempotent: on a block that is not sealed, `start_block`
/// succeeds, and a second `start_block` at once succeeds too and leaves the
/// block being built.
pub proof fn lemma_start_twice(state: BlockState)
    requires
        state != BlockState::Ended,
    ensures
        start_transition(state) is Ok,
        start_transition(after_start(state)) is Ok,
        after_start(after_start(state)) == BlockState::Started,
{
}

/// Ending is not idempotent: on a block that was started, `end_block`
/// followed at once by a second `end_block` fails the second time with
/// `BlockEnded`.
pub proof fn lemma_end_twice(state: BlockState)
    requires
        state != BlockState::Created,
    ensures
        end_transition(after_end(state)) == Err::<BlockState, EndBlockError>(EndBlockError::BlockEnded),
        after_end(after_end(state)) == BlockState::Ended,
{
}

/// A block that was never started cannot be ended: whatever `end_block` calls
/// were made on it, the next fails with `BlockNotStarted`.
pub proof fn lemma_end_unstarted(calls: Seq<BlockCall>)
    requires
        forall|i: int| 0 <= i < calls.len() ==> #[trigger] calls[i] is End,
    ensures
        after_calls(BlockState::Created, calls) == BlockState::Created,
        end_transition(after_calls(BlockState::Created, calls)) == Err::<BlockState, EndBlockError>(
            EndBlockError::BlockNotStarted,
        ),
    decreases calls.len(),
{
    if calls.len() > 0 {
        lemma_end_unstarted(calls.drop_last());
    }
}

/// `Ended` is absorbing: once a block is sealed, every later call on it,
/// after whatever calls came between, fails with `BlockEnded` and leaves it sealed.
pub proof fn lemma_ended_is_absorbing(calls: Seq<BlockCall>)
    ensures
        after_calls(BlockState::Ended, calls) == BlockState::Ended,
        start_transition(after_calls(BlockState::Ended, calls)) == Err::<BlockState, StartBlockError>(
            StartBlockError::BlockEnded,
        ),
        end_transition(after_calls(BlockState::Ended, calls)) == Err::<BlockState, EndBlockError>(
            EndBlockError::BlockEnded,
        ),
    decreases calls.len(),
{
    if calls.len() > 0 {
        lemma_ended_is_absorbing(calls.drop_last());
    }
}

/// The side table of block states, keyed by block handle. It stands apart
/// from the blocks: a state can be asked for and changed before the block's
/// operations are final.
pub struct BlockStates {
    /// The state of each block that was ever started, by the number of its
    /// handle. A block without an entry counts as `Created`.
    states: HashMap<u32, BlockState>,
}

impl BlockStates {
    /// The recorded state of `block`.
    pub closed spec fn state_of(&self, block: BlockId) -> BlockState {
        if self.states@.contains_key(block.raw) {
            self.states@[block.raw]
        } else {
            BlockState::Created
        }
    }

    /// A table in which every block counts as `Created`.
    pub fn new() -> (table: Self)
        ensures
            forall|block: BlockId| table.state_of(block) == BlockState::Created,
    {
        broadcast use vstd::std_specs::hash::group_hash_axioms;

        BlockStates { states: HashMap::new() }
    }

    /// The recorded state of `block`; `Created` where none was recorded.
    pub fn get(&self, block: BlockId) -> (state: BlockState)
        ensures
            state == self.state_of(block),
    {
        broadcast use vstd::std_specs::hash::group_hash_axioms;

        match self.states.get(&block.raw) {
            Some(state) => *state,
            None => BlockState::Created,
        }
    }

    /// Records `state` for `block` and leaves every other block as it is.
    fn record(&mut self, block: BlockId, state: BlockState)
        ensures
            final(self).state_of(block) == state,
            forall|other: BlockId|
                other != block ==> final(self).state_of(other) == old(self).state_of(other),
    {
        broadcast use vstd::std_specs::hash::group_hash_axioms;

        self.states.insert(block.raw, state);
    }
}

pub struct MirCode {
    /// The string literals, each as its bytes without the terminating zero; `StrId` indexes them.
    pub strings: Vec<Vec<u8>>,
    /// `FuncId` indexes the functions.
    pub functions: Vec<Function>,
    /// `StaticId` indexes the statics.
    pub statics: Vec<Const>,
    /// The structs with their layouts, by the number of the struct's handle.
    /// A layout is computed once and kept here for every instruction that
    /// refers to the struct.
    pub structs: HashMap<u32, Struct>,
    /// The source range of an operation, by the number of its handle.
    pub source_ranges: HashMap<u32, SourceRange>,
    pub block_states: BlockStates,
}

impl MirCode {
    /// The recorded state of `block`.
    pub open spec fn state_of(&self, block: BlockId) -> BlockState {
        self.block_states.state_of(block)
    }

    /// Whether every block of `blocks` is sealed.
    pub open spec fn all_ended(&self, blocks: Seq<BlockId>) -> bool {
        forall|i: int| 0 <= i < blocks.len() ==> self.state_of(#[trigger] blocks[i]) == BlockState::Ended
    }

    pub fn new() -> (m: Self)
        ensures
            m.strings@.len() == 0,
            m.functions@.len() == 0,
            m.statics@.len() == 0,
            m.structs@ == Map::<u32, Struct>::empty(),
            m.source_ranges@ == Map::<u32, SourceRange>::empty(),
            forall|block: BlockId| m.state_of(block) == BlockState::Created,
    {
        broadcast use vstd::std_specs::hash::group_hash_axioms;

        MirCode {
            strings: Vec::new(),
            functions: Vec::new(),
            statics: Vec::new(),
            structs: HashMap::new(),
            source_ranges: HashMap::new(),
            block_states: BlockStates::new(),
        }
    }

    /// The recorded state of `block`; `Created` where none was recorded.
    pub fn block_state(&self, block: BlockId) -> (state: BlockState)
        ensures
            state == self.state_of(block),
    {
        self.block_states.get(block)
    }

    /// Marks `block` as being built. Starting a block that is being built
    /// already changes nothing and succeeds; a sealed block stays sealed.
    pub fn start_block(&mut self, block: BlockId) -> (r: Result<(), StartBlockError>)
        ensures
            r == match start_transition(old(self).state_of(block)) {
                Ok(_) => Ok::<(), StartBlockError>(()),
                Err(e) => Err::<(), StartBlockError>(e),
            },
            final(self).state_of(block) == after_start(old(self).state_of(block)),
            forall|other: BlockId|
                other != block ==> final(self).state_of(other) == old(self).state_of(other),
            final(self).strings == old(self).strings,
            final(self).functions == old(self).functions,
            final(self).statics == old(self).statics,
            final(self).structs == old(self).structs,
            final(self).source_ranges == old(self).source_ranges,
    {
        match self.block_states.get(block) {
            BlockState::Created => {
                self.block_states.record(block, BlockState::Started);
                Ok(())
            },
            BlockState::Started => Ok(()),
            BlockState::Ended => Err(StartBlockError::BlockEnded),
        }
    }

    /// Seals `block`. Only a block that is being built can be sealed, and a
    /// sealed block cannot be sealed again.
    pub fn end_block(&mut self, block: BlockId) -> (r: Result<(), EndBlockError>)
        ensures
            r == match end_transition(old(self).state_of(block)) {
                Ok(_) => Ok::<(), EndBlockError>(()),
                Err(e) => Err::<(), EndBlockError>(e),
            },
            final(self).state_of(block) == after_end(old(self).state_of(block)),
            forall|other: BlockId|
                other != block ==> final(self).state_of(other) == old(self).state_of(other),
            final(self).strings == old(self).strings,
            final(self).functions == old(self).functions,
            final(self).statics == old(self).statics,
            final(self).structs == old(self).structs,
            final(self).source_ranges == old(self).source_ranges,
    {
        match self.block_states.get(block) {
            BlockState::Created => Err(EndBlockError::BlockNotStarted),
            BlockState::Started => {
                self.block_states.record(block, BlockState::Ended);
                Ok(())
            },
            BlockState::Ended => Err(EndBlockError::BlockEnded),
        }
    }

    /// The first block of `func`, in the order of its block list, that is not sealed.
    pub fn first_unended_block(&self, func: &Function) -> (r: Option<BlockId>)
        ensures
            match r {
                Some(block) => exists|i: int|
                    0 <= i < func.blocks@.len() && func.blocks@[i] == block && self.state_of(block)
                        != BlockState::Ended && self.all_ended(func.blocks@.take(i)),
                None => self.all_ended(func.blocks@),
            },
    {
        let mut i: usize = 0;
        while i < func.blocks.len()
            invariant
                i <= func.blocks@.len(),
                self.all_ended(func.blocks@.take(i as int)),
            decreases func.blocks@.len() - i,
        {
            let block = func.blocks[i];
            match self.block_state(block) {
                BlockState::Ended => {},
                _ => {
                    return Some(block);
                },
            }
            proof {
                let before = func.blocks@.take(i as int);
                let after = func.blocks@.take(i + 1);
                assert forall|j: int| 0 <= j < after.len() implies self.state_of(
                    #[trigger] after[j],
                ) == BlockState::Ended by {
                    if j < i {
                        assert(after[j] == before[j]);
                    }
                }
            }
            i += 1;
        }
        proof {
            assert(func.blocks@.take(i as int) == func.blocks@);
        }
        None
    }

    /// Confirms that every block of `func` is sealed. A function with a block
    /// that is not sealed must not be handed on: `requires` leaves it out.
    pub fn check_all_blocks_ended(&self, func: &Function)
        requires
            self.all_ended(func.blocks@),
        ensures
            self.all_ended(func.blocks@),
    {
    }
}

impl Default for MirCode {
    fn default() -> (m: Self)
        ensures
            m.strings@.len() == 0,
            m.functions@.len() == 0,
            m.statics@.len() == 0,
            m.structs@ == Map::<u32, Struct>::empty(),
            m.source_ranges@ == Map::<u32, SourceRange>::empty(),
            forall|block: BlockId| m.state_of(block) == BlockState::Created,
    {
        MirCode::new()
    }
}

} // verus!
