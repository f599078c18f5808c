//! Overflow policies for blocks of arithmetic.
//!
//! A block of statements is rewritten so that every arithmetic operator in it
//! follows one chosen policy: abort on overflow, wrap around, clamp to the
//! bounds of the type, or leave the enclosing function early. A nested
//! invocation of a policy governs its own block, and `default` puts a nested
//! block back under the arithmetic of the language.
//!
//! The library works on a syntax tree of its own ([`syntax`]) and writes the
//! result out as source text ([`render`]). Reading token input into a tree is
//! left to the caller, who hands over the block, or the error that says why
//! there is none. Such an error is handed back as it came, so that the
//! caller can report it at the place in the source that it knows.

use vstd::prelude::*;

use crate::block::Policy;
use crate::render::render_block;
use crate::render::stmts_text;
use crate::syntax::Block;
use crate::visitor::visit;
use crate::visitor::visited_stmts;

pub mod block;
pub mod expr;
pub mod laws;
pub mod meaning;
pub mod render;
pub mod syntax;
pub mod visitor;

verus! {

/// What comes of an invocation of `policy` on `parsed`: the text of the
/// statements of the block, visited under the policy, where there is a
/// block; where there is none, the error as it came and nothing else.
pub open spec fn expansion<E>(policy: Policy, parsed: Result<Block, E>) -> Result<Seq<char>, E> {
    match parsed {
        Ok(block) => Ok(stmts_text(visited_stmts(block@, policy))),
        Err(error) => Err(error),
    }
}

/// Whether `out` is the expansion `wanted`: the same error, or a text with
/// the same characters.
pub open spec fn is_expansion<E>(out: Result<String, E>, wanted: Result<Seq<char>, E>) -> bool {
    match wanted {
        Ok(text) => out matches Ok(written) && written@ == text,
        Err(error) => out == Err::<String, E>(error),
    }
}

/// Rewrites `block` under `policy` and writes its statements out, without
/// braces around them. It never fails, whatever the kind of error is that
/// the caller works with.
pub fn try_expand<E>(policy: Policy, block: Block) -> (out: Result<String, E>)
    ensures
        out matches Ok(text) && text@ == stmts_text(visited_stmts(block@, policy)),
{
    let visited = visit(&block, policy);
    Ok(render_block(&visited))
}

/// Expands an invocation of `policy` on what was read from its input: the
/// rewritten block, or the error with which the input could not be read.
pub fn expand<E>(policy: Policy, parsed: Result<Block, E>) -> (out: Result<String, E>)
    ensures
        is_expansion(out, expansion(policy, parsed)),
{
    match parsed {
        Ok(block) => try_expand(policy, block),
        Err(error) => Err(error),
    }
}

/// A block in which every arithmetic operation is checked: where one
/// overflows, the program aborts with a message that names the operation.
pub fn checked<E>(parsed: Result<Block, E>) -> (out: Result<String, E>)
    ensures
        is_expansion(out, expansion(Policy::Checked, parsed)),
{
    expand(Policy::Checked, parsed)
}

/// A block in which every arithmetic operation wraps around the bounds of
/// its type: none of them aborts on overflow.
pub fn overflowing<E>(parsed: Result<Block, E>) -> (out: Result<String, E>)
    ensures
        is_expansion(out, expansion(Policy::Overflowing, parsed)),
{
    expand(Policy::Overflowing, parsed)
}

/// A block in which every arithmetic operation saturates: where one would
/// overflow, its result is the nearest bound of the type.
pub fn saturating<E>(parsed: Result<Block, E>) -> (out: Result<String, E>)
    ensures
        is_expansion(out, expansion(Policy::Saturating, parsed)),
{
    expand(Policy::Saturating, parsed)
}

/// A block in which every arithmetic operation is checked and, where one
/// overflows, the enclosing function returns at once with `None`, by `?`.
pub fn propagating<E>(parsed: Result<Block, E>) -> (out: Result<String, E>)
    ensures
        is_expansion(out, expansion(Policy::Propagating, parsed)),
{
    expand(Policy::Propagating, parsed)
}

/// A block under the arithmetic of the language. Outside any other policy
/// it changes nothing: the input comes back as it is.
pub fn default(input: String) -> (out: String)
    ensures
        out == input,
{
    input
}

} // verus!
