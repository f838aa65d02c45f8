//! Interned names. The interner itself lives outside this crate; the
//! representation only carries its symbols and tells them apart.

use vstd::prelude::*;

verus! {

/// The symbol type of `string_interner`, opaque to the verifier: a symbol is
/// carried through the representation and compared, never looked into.
#[verifier::external_type_specification]
#[verifier::external_body]
pub struct ExSymbolU32(string_interner::symbol::SymbolU32);

/// An interned name.
pub type Sym = string_interner::DefaultSymbol;

/// `==` of `string_interner::symbol::SymbolU32`, which compares the one
/// number that a symbol holds: two symbols compare equal exactly when they
/// are the same symbol.
#[verifier::external_body]
pub(crate) fn same_symbol(a: Sym, b: Sym) -> (same: bool)
    ensures
        same == (a == b),
{
    a == b
}

} // verus!
