//! The types that expressions, declarations, instructions and constants carry.
//! The representation stores and hands them on; their meaning belongs to the
//! type checker.

use vstd::prelude::*;
use crate::ids::StructId;

verus! {

/// Width of an integer type.
#[derive(Clone, Copy, Debug, PartialEq, Eq, Hash, Structural)]
pub enum IntWidth {
    W8,
    W16,
    W32,
    W64,
    /// As wide as a pointer of the target.
    Pointer,
}

/// Width of a floating-point type.
#[derive(Clone, Copy, Debug, PartialEq, Eq, Hash, Structural)]
pub enum FloatWidth {
    W32,
    W64,
}

/// A type.
#[derive(Debug, PartialEq, Eq, Hash)]
pub enum Type {
    /// The type of an expression that failed to check.
    Error,
    Int { width: IntWidth, is_signed: bool },
    Float(FloatWidth),
    Pointer { pointee: Box<Type>, is_mut: bool },
    Struct(StructId),
    Bool,
    Void,
    /// The type of a module.
    Mod,
    /// The type of a type.
    Ty,
    Never,
}

impl Clone for Type {
    fn clone(&self) -> (r: Self)
        ensures
            r == *self,
        decreases self,
    {
        match self {
            Type::Error => Type::Error,
            Type::Int { width, is_signed } => Type::Int { width: *width, is_signed: *is_signed },
            Type::Float(width) => Type::Float(*width),
            Type::Pointer { pointee, is_mut } => {
                let inner: Type = (**pointee).clone();
                Type::Pointer { pointee: Box::new(inner), is_mut: *is_mut }
            },
            Type::Struct(id) => Type::Struct(*id),
            Type::Bool => Type::Bool,
            Type::Void => Type::Void,
            Type::Mod => Type::Mod,
            Type::Ty => Type::Ty,
            Type::Never => Type::Never,
        }
    }
}

impl Default for Type {
    fn default() -> (r: Self)
        ensures
            r == Type::Error,
    {
        Type::Error
    }
}

} // verus!
