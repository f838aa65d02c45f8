//! Text for the dump: decimal numbers, and the `Debug` text of the entities
//! that a dump shows.

use vstd::prelude::*;
use crate::hir::{Decl, Expr};
use crate::mir::Instr;

verus! {

/// The character of the decimal digit `d`.
pub open spec fn digit(d: nat) -> char
    recommends
        d < 10,
{
    if d == 0 {
        '0'
    } else if d == 1 {
        '1'
    } else if d == 2 {
        '2'
    } else if d == 3 {
        '3'
    } else if d == 4 {
        '4'
    } else if d == 5 {
        '5'
    } else if d == 6 {
        '6'
    } else if d == 7 {
        '7'
    } else if d == 8 {
        '8'
    } else {
        '9'
    }
}

/// The decimal numeral of `n`, without leading zeros.
pub open spec fn decimal(n: nat) -> Seq<char>
    decreases n,
{
    if n < 10 {
        seq![digit(n)]
    } else {
        decimal(n / 10).push(digit(n % 10))
    }
}

/// The text that `Debug` gives for an instruction.
pub uninterp spec fn instr_debug(instr: Instr) -> Seq<char>;

/// The text that `Debug` gives for an expression.
pub uninterp spec fn expr_debug(expr: Expr) -> Seq<char>;

/// The text that `Debug` gives for a declaration.
pub uninterp spec fn decl_debug(decl: Decl) -> Seq<char>;

/// `String::push`: appends one character.
#[verifier::external_body]
fn string_push(text: &mut String, c: char)
    ensures
        final(text)@ == old(text)@.push(c),
{
    text.push(c)
}

/// `format!` with `{:?}`, that is the derived `Debug` of `Instr`: the text
/// depends on the instruction alone.
#[verifier::external_body]
pub(crate) fn debug_instr(instr: &Instr) -> (text: String)
    ensures
        text@ == instr_debug(*instr),
{
    format!("{:?}", instr)
}

/// `format!` with `{:?}`, that is the derived `Debug` of `Expr`: the text
/// depends on the expression alone.
#[verifier::external_body]
pub(crate) fn debug_expr(expr: &Expr) -> (text: String)
    ensures
        text@ == expr_debug(*expr),
{
    format!("{:?}", expr)
}

/// `format!` with `{:?}`, that is the derived `Debug` of `Decl`: the text
/// depends on the declaration alone.
#[verifier::external_body]
pub(crate) fn debug_decl(decl: &Decl) -> (text: String)
    ensures
        text@ == decl_debug(*decl),
{
    format!("{:?}", decl)
}

/// The character of the decimal digit `d`.
fn digit_char(d: usize) -> (c: char)
    requires
        d < 10,
    ensures
        c == digit(d as nat),
{
    if d == 0 {
        '0'
    } else if d == 1 {
        '1'
    } else if d == 2 {
        '2'
    } else if d == 3 {
        '3'
    } else if d == 4 {
        '4'
    } else if d == 5 {
        '5'
    } else if d == 6 {
        '6'
    } else if d == 7 {
        '7'
    } else if d == 8 {
        '8'
    } else {
        '9'
    }
}

/// Appends the decimal numeral of `n` to `text`.
pub fn push_decimal(text: &mut String, n: usize)
    ensures
        final(text)@ == old(text)@ + decimal(n as nat),
    decreases n,
{
    if n >= 10 {
        push_decimal(text, n / 10);
    }
    string_push(text, digit_char(n % 10));
}

/// Appends `piece` to `text`.
pub(crate) fn push_text(text: &mut String, piece: &str)
    ensures
        final(text)@ == old(text)@ + piece@,
{
    text.append(piece);
}

} // verus!
