//! Definitions shared by the execution backends: the symbolic opcode set
//! and the byte values of the binary instruction encoding.
use vstd::prelude::*;

pub mod opcode;

verus! {

/// Operation codes of the register-based instruction set.
#[derive(Debug, Clone, Copy, PartialEq, Eq, Structural)]
pub enum Opcode {
    Nop,
    Return,
    ReturnValue,
    Jmp,
    JmpIf,
    JmpIfNot,
    Switch,
    Mov,
    LoadConst,
    LoadLocal,
    StoreLocal,
    LoadArg,
    I64Add,
    I64Sub,
    I64Mul,
    I64Div,
    I64Rem,
    I64And,
    I64Or,
    I64Xor,
    I64Shl,
    I64Sar,
    I64Shr,
    I64Neg,
    I64Eq,
    I64Ne,
    I64Lt,
    I64Le,
    I64Gt,
    I64Ge,
    StackAlloc,
    HeapAlloc,
    Drop,
    GetField,
    SetField,
    LoadElement,
    StoreElement,
    NewListWithCap,
    ArcNew,
    ArcClone,
    ArcDrop,
    CallStatic,
    CallVirt,
    CallDyn,
    MakeClosure,
    LoadUpvalue,
    StoreUpvalue,
    CloseUpvalue,
    StringLength,
    StringConcat,
    StringEqual,
    StringGetChar,
    StringFromInt,
    StringFromFloat,
    TryBegin,
    TryEnd,
    Throw,
    BoundsCheck,
    TypeCheck,
    Cast,
    TypeOf,
}

} // verus!
