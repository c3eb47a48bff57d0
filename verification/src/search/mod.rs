//! Search vocabulary: the blocks and modifiers a search is written in.
//!
//! Compiling these into store queries and sorting the results belong to
//! a separate translation layer outside this library's core.

use vstd::prelude::*;

pub mod details;
pub mod modifiers;
pub mod sort;

verus! {

/// `modifier1 AND modifier2`
pub struct AndBlock();

/// `modifier1 OR modifier2`
pub struct OrBlock;

/// `NOT(modifier)`
pub struct NotBlock;

/// `BEFORE(datetime)`
pub struct BeforeBlock;

/// `DURING(datetime)`
pub struct DuringBlock;

/// `AFTER(datetime)`
pub struct AfterBlock;

/// Anything that can stand inside a search expression.
pub trait SearchElement {

}

impl SearchElement for AndBlock {

}

impl SearchElement for OrBlock {

}

impl SearchElement for NotBlock {

}

impl SearchElement for BeforeBlock {

}

impl SearchElement for DuringBlock {

}

impl SearchElement for AfterBlock {

}

} // verus!
