//! The tree that a configuration file is read into.
use vstd::prelude::*;

verus! {

/// A stretch of a file, in bytes.
#[derive(Clone, Copy, Debug, PartialEq, Eq, Structural)]
pub struct Spot {
    pub start: usize,
    pub end: usize,
}

/// The base that an integer is written in.
#[derive(Clone, Copy, Debug, PartialEq, Eq, Structural)]
pub enum Radix {
    Bin,
    Oct,
    Dec,
    Hex,
}

impl Radix {
    /// The base as a number.
    pub open spec fn base(self) -> int {
        match self {
            Radix::Bin => 2,
            Radix::Oct => 8,
            Radix::Dec => 10,
            Radix::Hex => 16,
        }
    }

    /// The base as a number.
    pub fn number(&self) -> (r: u32)
        ensures
            r == self.base(),
    {
        match self {
            Radix::Bin => 2,
            Radix::Oct => 8,
            Radix::Dec => 10,
            Radix::Hex => 16,
        }
    }
}

/// A value without its type.
#[derive(Debug)]
pub enum KdlLiteral {
    Null,
    Bool(bool),
    Int(Radix, String),
    Decimal(String),
    Text(String),
}

/// A type that is written before a node or a value.
#[derive(Debug)]
pub struct KdlType {
    pub name: String,
    pub spot: Spot,
}

/// A value.
#[derive(Debug)]
pub struct KdlValue {
    pub annotation: Option<KdlType>,
    pub literal: KdlLiteral,
    /// Where the literal is.
    pub spot: Spot,
}

/// A named value.
#[derive(Debug)]
pub struct KdlProperty {
    pub name: String,
    /// Where the name is.
    pub spot: Spot,
    pub value: KdlValue,
}

/// A node with all that belongs to it.
#[derive(Debug)]
pub struct KdlNode {
    pub annotation: Option<KdlType>,
    pub name: String,
    /// Where the name is.
    pub name_spot: Spot,
    pub arguments: Vec<KdlValue>,
    /// The properties in the order of their names.
    pub properties: Vec<KdlProperty>,
    pub children: Vec<KdlNode>,
    /// Where the node is, all of it.
    pub spot: Spot,
}

} // verus!
