//! The handle types, one for each kind of entity. Each indexes exactly one
//! arena, so a handle of one kind cannot be used where another is expected.

use vstd::prelude::*;
use crate::handle::MAX_INDEX;

verus! {

/// Handle of an operation of the unified arena.
#[derive(Clone, Copy, Debug, PartialEq, Eq, PartialOrd, Ord, Hash, Structural)]
pub struct OpId {
    pub raw: u32,
}

impl crate::handle::Handle for OpId {
    open spec fn slot(self) -> nat {
        self.raw as nat
    }

    fn from_usize(idx: usize) -> (h: Self) {
        OpId { raw: idx as u32 }
    }

    fn index(self) -> (i: usize) {
        self.raw as usize
    }
}

/// Lets `index_vec` address its slots by this handle. An arena of this crate
/// is appended to only while the slot that it fills next fits a handle, so
/// the `idx` that `index_vec` asks about always does.
impl index_vec::Idx for OpId {
    /// The handle whose number is the low 32 bits of `idx`: the handle of
    /// the slot `idx`, where `idx` fits a handle.
    fn from_usize(idx: usize) -> (h: Self)
        ensures
            h.raw == idx as u32,
            idx <= MAX_INDEX ==> h.raw == idx,
    {
        OpId { raw: idx as u32 }
    }

    /// The slot that the handle names, as an index.
    fn index(self) -> (i: usize)
        ensures
            i == self.raw,
    {
        self.raw as usize
    }
}

/// Handle of a basic block.
#[derive(Clone, Copy, Debug, PartialEq, Eq, PartialOrd, Ord, Hash, Structural)]
pub struct BlockId {
    pub raw: u32,
}

impl crate::handle::Handle for BlockId {
    open spec fn slot(self) -> nat {
        self.raw as nat
    }

    fn from_usize(idx: usize) -> (h: Self) {
        BlockId { raw: idx as u32 }
    }

    fn index(self) -> (i: usize) {
        self.raw as usize
    }
}

/// Lets `index_vec` address its slots by this handle. An arena of this crate
/// is appended to only while the slot that it fills next fits a handle, so
/// the `idx` that `index_vec` asks about always does.
impl index_vec::Idx for BlockId {
    /// The handle whose number is the low 32 bits of `idx`: the handle of
    /// the slot `idx`, where `idx` fits a handle.
    fn from_usize(idx: usize) -> (h: Self)
        ensures
            h.raw == idx as u32,
            idx <= MAX_INDEX ==> h.raw == idx,
    {
        BlockId { raw: idx as u32 }
    }

    /// The slot that the handle names, as an index.
    fn index(self) -> (i: usize)
        ensures
            i == self.raw,
    {
        self.raw as usize
    }
}

/// Handle of an expression.
#[derive(Clone, Copy, Debug, PartialEq, Eq, PartialOrd, Ord, Hash, Structural)]
pub struct ExprId {
    pub raw: u32,
}

impl crate::handle::Handle for ExprId {
    open spec fn slot(self) -> nat {
        self.raw as nat
    }

    fn from_usize(idx: usize) -> (h: Self) {
        ExprId { raw: idx as u32 }
    }

    fn index(self) -> (i: usize) {
        self.raw as usize
    }
}

/// Lets `index_vec` address its slots by this handle. An arena of this crate
/// is appended to only while the slot that it fills next fits a handle, so
/// the `idx` that `index_vec` asks about always does.
impl index_vec::Idx for ExprId {
    /// The handle whose number is the low 32 bits of `idx`: the handle of
    /// the slot `idx`, where `idx` fits a handle.
    fn from_usize(idx: usize) -> (h: Self)
        ensures
            h.raw == idx as u32,
            idx <= MAX_INDEX ==> h.raw == idx,
    {
        ExprId { raw: idx as u32 }
    }

    /// The slot that the handle names, as an index.
    fn index(self) -> (i: usize)
        ensures
            i == self.raw,
    {
        self.raw as usize
    }
}

/// Handle of a declaration.
#[derive(Clone, Copy, Debug, PartialEq, Eq, PartialOrd, Ord, Hash, Structural)]
pub struct DeclId {
    pub raw: u32,
}

impl crate::handle::Handle for DeclId {
    open spec fn slot(self) -> nat {
        self.raw as nat
    }

    fn from_usize(idx: usize) -> (h: Self) {
        DeclId { raw: idx as u32 }
    }

    fn index(self) -> (i: usize) {
        self.raw as usize
    }
}

/// Lets `index_vec` address its slots by this handle. An arena of this crate
/// is appended to only while the slot that it fills next fits a handle, so
/// the `idx` that `index_vec` asks about always does.
impl index_vec::Idx for DeclId {
    /// The handle whose number is the low 32 bits of `idx`: the handle of
    /// the slot `idx`, where `idx` fits a handle.
    fn from_usize(idx: usize) -> (h: Self)
        ensures
            h.raw == idx as u32,
            idx <= MAX_INDEX ==> h.raw == idx,
    {
        DeclId { raw: idx as u32 }
    }

    /// The slot that the handle names, as an index.
    fn index(self) -> (i: usize)
        ensures
            i == self.raw,
    {
        self.raw as usize
    }
}

/// Handle of a name-resolution site.
#[derive(Clone, Copy, Debug, PartialEq, Eq, PartialOrd, Ord, Hash, Structural)]
pub struct DeclRefId {
    pub raw: u32,
}

impl crate::handle::Handle for DeclRefId {
    open spec fn slot(self) -> nat {
        self.raw as nat
    }

    fn from_usize(idx: usize) -> (h: Self) {
        DeclRefId { raw: idx as u32 }
    }

    fn index(self) -> (i: usize) {
        self.raw as usize
    }
}

/// Handle of an item: an expression or a declaration.
#[derive(Clone, Copy, Debug, PartialEq, Eq, PartialOrd, Ord, Hash, Structural)]
pub struct ItemId {
    pub raw: u32,
}

impl crate::handle::Handle for ItemId {
    open spec fn slot(self) -> nat {
        self.raw as nat
    }

    fn from_usize(idx: usize) -> (h: Self) {
        ItemId { raw: idx as u32 }
    }

    fn index(self) -> (i: usize) {
        self.raw as usize
    }
}

/// Handle of an imperative scope.
#[derive(Clone, Copy, Debug, PartialEq, Eq, PartialOrd, Ord, Hash, Structural)]
pub struct ImperScopeId {
    pub raw: u32,
}

impl crate::handle::Handle for ImperScopeId {
    open spec fn slot(self) -> nat {
        self.raw as nat
    }

    fn from_usize(idx: usize) -> (h: Self) {
        ImperScopeId { raw: idx as u32 }
    }

    fn index(self) -> (i: usize) {
        self.raw as usize
    }
}

/// Handle of a module scope.
#[derive(Clone, Copy, Debug, PartialEq, Eq, PartialOrd, Ord, Hash, Structural)]
pub struct ModScopeId {
    pub raw: u32,
}

impl crate::handle::Handle for ModScopeId {
    open spec fn slot(self) -> nat {
        self.raw as nat
    }

    fn from_usize(idx: usize) -> (h: Self) {
        ModScopeId { raw: idx as u32 }
    }

    fn index(self) -> (i: usize) {
        self.raw as usize
    }
}

/// Lets `index_vec` address its slots by this handle. An arena of this crate
/// is appended to only while the slot that it fills next fits a handle, so
/// the `idx` that `index_vec` asks about always does.
impl index_vec::Idx for ModScopeId {
    /// The handle whose number is the low 32 bits of `idx`: the handle of
    /// the slot `idx`, where `idx` fits a handle.
    fn from_usize(idx: usize) -> (h: Self)
        ensures
            h.raw == idx as u32,
            idx <= MAX_INDEX ==> h.raw == idx,
    {
        ModScopeId { raw: idx as u32 }
    }

    /// The slot that the handle names, as an index.
    fn index(self) -> (i: usize)
        ensures
            i == self.raw,
    {
        self.raw as usize
    }
}

/// Handle of the namespace of an imperative scope.
#[derive(Clone, Copy, Debug, PartialEq, Eq, PartialOrd, Ord, Hash, Structural)]
pub struct ImperScopeNsId {
    pub raw: u32,
}

impl crate::handle::Handle for ImperScopeNsId {
    open spec fn slot(self) -> nat {
        self.raw as nat
    }

    fn from_usize(idx: usize) -> (h: Self) {
        ImperScopeNsId { raw: idx as u32 }
    }

    fn index(self) -> (i: usize) {
        self.raw as usize
    }
}

/// Lets `index_vec` address its slots by this handle. An arena of this crate
/// is appended to only while the slot that it fills next fits a handle, so
/// the `idx` that `index_vec` asks about always does.
impl index_vec::Idx for ImperScopeNsId {
    /// The handle whose number is the low 32 bits of `idx`: the handle of
    /// the slot `idx`, where `idx` fits a handle.
    fn from_usize(idx: usize) -> (h: Self)
        ensures
            h.raw == idx as u32,
            idx <= MAX_INDEX ==> h.raw == idx,
    {
        ImperScopeNsId { raw: idx as u32 }
    }

    /// The slot that the handle names, as an index.
    fn index(self) -> (i: usize)
        ensures
            i == self.raw,
    {
        self.raw as usize
    }
}

/// Handle of the namespace of a module scope.
#[derive(Clone, Copy, Debug, PartialEq, Eq, PartialOrd, Ord, Hash, Structural)]
pub struct ModScopeNsId {
    pub raw: u32,
}

impl crate::handle::Handle for ModScopeNsId {
    open spec fn slot(self) -> nat {
        self.raw as nat
    }

    fn from_usize(idx: usize) -> (h: Self) {
        ModScopeNsId { raw: idx as u32 }
    }

    fn index(self) -> (i: usize) {
        self.raw as usize
    }
}

/// Lets `index_vec` address its slots by this handle. An arena of this crate
/// is appended to only while the slot that it fills next fits a handle, so
/// the `idx` that `index_vec` asks about always does.
impl index_vec::Idx for ModScopeNsId {
    /// The handle whose number is the low 32 bits of `idx`: the handle of
    /// the slot `idx`, where `idx` fits a handle.
    fn from_usize(idx: usize) -> (h: Self)
        ensures
            h.raw == idx as u32,
            idx <= MAX_INDEX ==> h.raw == idx,
    {
        ModScopeNsId { raw: idx as u32 }
    }

    /// The slot that the handle names, as an index.
    fn index(self) -> (i: usize)
        ensures
            i == self.raw,
    {
        self.raw as usize
    }
}

/// Handle of the namespace of a precondition or postcondition.
#[derive(Clone, Copy, Debug, PartialEq, Eq, PartialOrd, Ord, Hash, Structural)]
pub struct ConditionNsId {
    pub raw: u32,
}

impl crate::handle::Handle for ConditionNsId {
    open spec fn slot(self) -> nat {
        self.raw as nat
    }

    fn from_usize(idx: usize) -> (h: Self) {
        ConditionNsId { raw: idx as u32 }
    }

    fn index(self) -> (i: usize) {
        self.raw as usize
    }
}

/// Lets `index_vec` address its slots by this handle. An arena of this crate
/// is appended to only while the slot that it fills next fits a handle, so
/// the `idx` that `index_vec` asks about always does.
impl index_vec::Idx for ConditionNsId {
    /// The handle whose number is the low 32 bits of `idx`: the handle of
    /// the slot `idx`, where `idx` fits a handle.
    fn from_usize(idx: usize) -> (h: Self)
        ensures
            h.raw == idx as u32,
            idx <= MAX_INDEX ==> h.raw == idx,
    {
        ConditionNsId { raw: idx as u32 }
    }

    /// The slot that the handle names, as an index.
    fn index(self) -> (i: usize)
        ensures
            i == self.raw,
    {
        self.raw as usize
    }
}

/// Handle of a cast expression.
#[derive(Clone, Copy, Debug, PartialEq, Eq, PartialOrd, Ord, Hash, Structural)]
pub struct CastId {
    pub raw: u32,
}

impl crate::handle::Handle for CastId {
    open spec fn slot(self) -> nat {
        self.raw as nat
    }

    fn from_usize(idx: usize) -> (h: Self) {
        CastId { raw: idx as u32 }
    }

    fn index(self) -> (i: usize) {
        self.raw as usize
    }
}

/// Handle of a struct.
#[derive(Clone, Copy, Debug, PartialEq, Eq, PartialOrd, Ord, Hash, Structural)]
pub struct StructId {
    pub raw: u32,
}

impl crate::handle::Handle for StructId {
    open spec fn slot(self) -> nat {
        self.raw as nat
    }

    fn from_usize(idx: usize) -> (h: Self) {
        StructId { raw: idx as u32 }
    }

    fn index(self) -> (i: usize) {
        self.raw as usize
    }
}

/// Handle of a struct literal.
#[derive(Clone, Copy, Debug, PartialEq, Eq, PartialOrd, Ord, Hash, Structural)]
pub struct StructLitId {
    pub raw: u32,
}

impl crate::handle::Handle for StructLitId {
    open spec fn slot(self) -> nat {
        self.raw as nat
    }

    fn from_usize(idx: usize) -> (h: Self) {
        StructLitId { raw: idx as u32 }
    }

    fn index(self) -> (i: usize) {
        self.raw as usize
    }
}

/// Handle of a stored declaration.
#[derive(Clone, Copy, Debug, PartialEq, Eq, PartialOrd, Ord, Hash, Structural)]
pub struct StoredDeclId {
    pub raw: u32,
}

impl crate::handle::Handle for StoredDeclId {
    open spec fn slot(self) -> nat {
        self.raw as nat
    }

    fn from_usize(idx: usize) -> (h: Self) {
        StoredDeclId { raw: idx as u32 }
    }

    fn index(self) -> (i: usize) {
        self.raw as usize
    }
}

/// Handle of a field declaration.
#[derive(Clone, Copy, Debug, PartialEq, Eq, PartialOrd, Ord, Hash, Structural)]
pub struct FieldDeclId {
    pub raw: u32,
}

impl crate::handle::Handle for FieldDeclId {
    open spec fn slot(self) -> nat {
        self.raw as nat
    }

    fn from_usize(idx: usize) -> (h: Self) {
        FieldDeclId { raw: idx as u32 }
    }

    fn index(self) -> (i: usize) {
        self.raw as usize
    }
}

/// Handle of a function.
#[derive(Clone, Copy, Debug, PartialEq, Eq, PartialOrd, Ord, Hash, Structural)]
pub struct FuncId {
    pub raw: u32,
}

impl crate::handle::Handle for FuncId {
    open spec fn slot(self) -> nat {
        self.raw as nat
    }

    fn from_usize(idx: usize) -> (h: Self) {
        FuncId { raw: idx as u32 }
    }

    fn index(self) -> (i: usize) {
        self.raw as usize
    }
}

/// Handle of a static.
#[derive(Clone, Copy, Debug, PartialEq, Eq, PartialOrd, Ord, Hash, Structural)]
pub struct StaticId {
    pub raw: u32,
}

impl crate::handle::Handle for StaticId {
    open spec fn slot(self) -> nat {
        self.raw as nat
    }

    fn from_usize(idx: usize) -> (h: Self) {
        StaticId { raw: idx as u32 }
    }

    fn index(self) -> (i: usize) {
        self.raw as usize
    }
}

/// Handle of a string literal.
#[derive(Clone, Copy, Debug, PartialEq, Eq, PartialOrd, Ord, Hash, Structural)]
pub struct StrId {
    pub raw: u32,
}

impl crate::handle::Handle for StrId {
    open spec fn slot(self) -> nat {
        self.raw as nat
    }

    fn from_usize(idx: usize) -> (h: Self) {
        StrId { raw: idx as u32 }
    }

    fn index(self) -> (i: usize) {
        self.raw as usize
    }
}

/// Handle of a source file.
#[derive(Clone, Copy, Debug, PartialEq, Eq, PartialOrd, Ord, Hash, Structural)]
pub struct SourceFileId {
    pub raw: u32,
}

impl crate::handle::Handle for SourceFileId {
    open spec fn slot(self) -> nat {
        self.raw as nat
    }

    fn from_usize(idx: usize) -> (h: Self) {
        SourceFileId { raw: idx as u32 }
    }

    fn index(self) -> (i: usize) {
        self.raw as usize
    }
}

} // verus!
