//! The instruction vocabulary executed by the dispatch loop.
use vstd::prelude::*;

verus! {

/// Operations of the bytecode; each carries a fixed operand shape.
#[derive(Debug, Clone, Copy, PartialEq, Eq)]
pub enum OpCodes {
    Create,
    Store,
    Load,
    Unload,
    Jump,
    /// The flag says whether the tested value is popped when the jump is taken.
    JumpIfTrue(bool),
    JumpIfFalse(bool),
    JumpIfNil,
    BodyTill,
    MakeFunc,
    AllocBlock,
    DeallocBlock,
    Call,
    MemCall,
    Attr,
    Return,
    Continue,
    Break,
    PushLoop,
    PopLoop,
    PushJump,
    PushJumpNil,
    PopJump,
}

/// Operand payloads; a float operand is kept as its IEEE-754 binary64 bit pattern.
#[derive(Debug, Clone, PartialEq, Eq)]
pub enum OpDataType {
    Int(isize),
    Float(u64),
    String(String),
    Ident(String),
    Size(isize),
    Bool(bool),
    Nil,
}

} // verus!
