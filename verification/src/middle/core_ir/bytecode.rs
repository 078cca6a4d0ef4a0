//! Bytecode intermediate representation (low-level IR).
//!
//! The bytecode IR is the platform-agnostic form of compiled YaoXiang code
//! handed from the code generator to an execution backend. Unlike the
//! high-level IR it is close to the execution model and has a binary
//! encoding, decoded here from raw opcode/operand records.
use vstd::prelude::*;
use crate::backends::common::opcode;
use crate::util::decimal::{decimal, prefixed_decimal};
use vstd::utf8::encode_utf8;
use std::collections::HashMap;
use crate::util::span::DebugSpan;
use crate::middle::core_ir::ir::{ConstValue, Type};

verus! {

/// Register index in the virtual machine.
#[derive(Debug, Clone, Copy, PartialEq, Eq, Hash, Structural)]
pub struct Reg(pub u16);

impl Reg {
    /// Create a new register.
    pub fn new(index: u16) -> (r: Self)
        ensures
            r.0 == index,
    {
        Reg(index)
    }

    /// The register index.
    pub fn index(&self) -> (i: u16)
        ensures
            i == self.0,
    {
        self.0
    }

    /// Display form: `r` followed by the index in decimal (`r15`).
    pub fn to_string(&self) -> (s: String)
        ensures
            s@ == seq!['r'] + decimal(self.0 as nat),
    {
        proof {
            reveal_strlit("r");
        }
        prefixed_decimal("r", self.0 as u64)
    }
}

/// Label for jump targets.
#[derive(Debug, Clone, Copy, PartialEq, Eq, Hash, Structural)]
pub struct Label(pub u32);

impl Label {
    /// Create a new label.
    pub fn new(id: u32) -> (l: Self)
        ensures
            l.0 == id,
    {
        Label(id)
    }

    /// The label id.
    pub fn id(&self) -> (i: u32)
        ensures
            i == self.0,
    {
        self.0
    }

    /// Display form: `L` followed by the id in decimal (`L10`).
    pub fn to_string(&self) -> (s: String)
        ensures
            s@ == seq!['L'] + decimal(self.0 as nat),
    {
        proof {
            reveal_strlit("L");
        }
        prefixed_decimal("L", self.0 as u64)
    }
}


/// Binary operation types.
#[derive(Debug, Clone, Copy, PartialEq, Eq, Structural)]
pub enum BinaryOp {
    /// Addition (+)
    Add,
    /// Subtraction (-)
    Sub,
    /// Multiplication (*)
    Mul,
    /// Division (/)
    Div,
    /// Modulo (%)
    Rem,
    /// Bitwise AND (&)
    And,
    /// Bitwise OR (|)
    Or,
    /// Bitwise XOR (^)
    Xor,
    /// Left shift (<<)
    Shl,
    /// Arithmetic right shift (>>)
    Sar,
    /// Logical right shift (>>>)
    Shr,
}

impl BinaryOp {
    /// Display form: the variant name (`Add`, `Sub`, ...).
    pub fn to_string(&self) -> (s: String)
        ensures
            s@ == binary_op_name(*self),
    {
        let name = match self {
            BinaryOp::Add => "Add",
            BinaryOp::Sub => "Sub",
            BinaryOp::Mul => "Mul",
            BinaryOp::Div => "Div",
            BinaryOp::Rem => "Rem",
            BinaryOp::And => "And",
            BinaryOp::Or => "Or",
            BinaryOp::Xor => "Xor",
            BinaryOp::Shl => "Shl",
            BinaryOp::Sar => "Sar",
            BinaryOp::Shr => "Shr",
        };
        String::from_str(name)
    }
}

/// The display name of a binary operation.
pub open spec fn binary_op_name(op: BinaryOp) -> Seq<char> {
    match op {
        BinaryOp::Add => "Add"@,
        BinaryOp::Sub => "Sub"@,
        BinaryOp::Mul => "Mul"@,
        BinaryOp::Div => "Div"@,
        BinaryOp::Rem => "Rem"@,
        BinaryOp::And => "And"@,
        BinaryOp::Or => "Or"@,
        BinaryOp::Xor => "Xor"@,
        BinaryOp::Shl => "Shl"@,
        BinaryOp::Sar => "Sar"@,
        BinaryOp::Shr => "Shr"@,
    }
}

/// Unary operation types.
#[derive(Debug, Clone, Copy, PartialEq, Eq, Structural)]
pub enum UnaryOp {
    /// Negation (-)
    Neg,
    /// Bitwise NOT (!)
    Not,
}

/// Comparison operation types.
#[derive(Debug, Clone, Copy, PartialEq, Eq, Structural)]
pub enum CompareOp {
    /// Equal (==)
    Eq,
    /// Not equal (!=)
    Ne,
    /// Less than (<)
    Lt,
    /// Less than or equal (<=)
    Le,
    /// Greater than (>)
    Gt,
    /// Greater than or equal (>=)
    Ge,
}

/// Bytecode instruction.
///
/// The low-level instruction format: an operation together with its
/// operands (registers, labels, pool indices and the like).
#[derive(Debug, Clone)]
pub enum BytecodeInstr {
    // Control flow
    /// No-op
    Nop,
    /// Return without value
    Return,
    /// Return with value
    ReturnValue { value: Reg },
    /// Yield execution (cooperative scheduling)
    Yield,
    /// Spawn concurrent tasks from several closures, with per-task
    /// dependencies and resource names.
    Spawn { dst: Reg, closures: Vec<Reg>, task_deps: Vec<Vec<u32>>, task_resources: Vec<Vec<String>> },
    /// Spawn tasks from closures read out of a list register.
    SpawnFromList { dst: Reg, closures_list: Reg, task_deps: Vec<Vec<u32>>, task_resources: Vec<Vec<String>> },
    /// Unconditional jump
    Jmp { target: Label },
    /// Conditional jump (if true)
    JmpIf { cond: Reg, target: Label },
    /// Conditional jump (if false)
    JmpIfNot { cond: Reg, target: Label },
    /// Switch/case dispatch: (default_target, target) pairs
    Switch { value: Reg, targets: Vec<(Option<Label>, Label)> },
    // Register operations
    /// Register move
    Mov { dst: Reg, src: Reg },
    /// Load constant
    LoadConst { dst: Reg, const_idx: u16 },
    /// Load local variable
    LoadLocal { dst: Reg, local_idx: u8 },
    /// Store local variable
    StoreLocal { local_idx: u8, src: Reg },
    /// Load function argument
    LoadArg { dst: Reg, arg_idx: u8 },
    // Arithmetic
    BinaryOp { dst: Reg, lhs: Reg, rhs: Reg, op: BinaryOp },
    UnaryOp { dst: Reg, src: Reg, op: UnaryOp },
    Compare { dst: Reg, lhs: Reg, rhs: Reg, cmp: CompareOp },
    // Memory operations
    /// Stack allocation
    StackAlloc { dst: Reg, size: u16 },
    /// Heap allocation
    HeapAlloc { dst: Reg, type_id: u16 },
    /// Drop value
    Drop { value: Reg },
    /// Get struct field
    GetField { dst: Reg, src: Reg, field_idx: u16 },
    /// Set struct field
    SetField { src: Reg, field_idx: u16, value: Reg },
    /// Load element from array/list
    LoadElement { dst: Reg, array: Reg, index: Reg },
    /// Store element to array/list
    StoreElement { array: Reg, index: Reg, value: Reg },
    /// Create list with capacity
    NewListWithCap { dst: Reg, capacity: u16 },
    /// Create a struct instance
    CreateStruct { dst: Reg, struct_name: String, fields: Vec<Reg> },
    /// Create a dictionary instance
    NewDict { dst: Reg, keys: Vec<Reg>, values: Vec<Reg> },
    /// Create a tuple instance
    NewTuple { dst: Reg, items: Vec<Reg> },
    /// Create a range value
    NewRange { dst: Reg, start: Reg, end: Reg, step: Reg },
    /// Wrap a value as a variant of an existential group type
    CreateVariant { dst: Reg, group_idx: u16, variant: u32, payload: Reg },
    /// Read the variant number of an existential value
    VariantTag { dst: Reg, obj: Reg, group_idx: u16 },
    /// Read the payload of an existential value
    VariantPayload { dst: Reg, obj: Reg, group_idx: u16 },
    /// Fixed-length array filled with default elements
    NewArray { dst: Reg, count: u32 },
    /// Membership predicate: dst = elem in container
    Contains { dst: Reg, elem: Reg, container: Reg },
    // Reference counting
    ArcNew { dst: Reg, src: Reg },
    RcNew { dst: Reg, src: Reg },
    ArcClone { dst: Reg, src: Reg },
    ArcDrop { src: Reg },
    /// Create Weak from Arc
    WeakNew { dst: Reg, src: Reg },
    /// Upgrade Weak to Arc (yields an Option)
    WeakUpgrade { dst: Reg, src: Reg },
    // Borrow tokens
    /// Create borrow token (zero-sized; at run time close to a move)
    Borrow { dst: Reg, src: Reg, mutable: bool },
    /// Release borrow token (zero-sized; at run time close to a no-op)
    Release { src: Reg },
    // Calls
    /// Static dispatch call through the function table index
    CallStatic { dst: Option<Reg>, func: u32, args: Vec<Reg> },
    /// Native (FFI) call: function name, mechanism ("c" or "rs"), library, symbol
    CallNative { dst: Option<Reg>, func_name: String, mechanism: String, lib: String, symbol: String, args: Vec<Reg> },
    /// Virtual dispatch call
    CallVirt { dst: Option<Reg>, obj: Reg, method_idx: u16, args: Vec<Reg> },
    /// Dynamic dispatch call
    CallDyn { dst: Option<Reg>, obj: Reg, name_idx: u16, args: Vec<Reg> },
    /// Create closure over the function table index
    MakeClosure { dst: Reg, func: u32, env: Vec<Reg> },
    /// Tail call through the function table index: the base argument
    /// register and the argument count
    TailCall { func: u32, base: Reg, arg_count: u8 },
    /// Load upvalue
    LoadUpvalue { dst: Reg, upvalue_idx: u8 },
    /// Store upvalue
    StoreUpvalue { src: Reg, upvalue_idx: u8 },
    /// Close upvalue
    CloseUpvalue { src: Reg },
    // Strings
    StringLength { dst: Reg, src: Reg },
    StringConcat { dst: Reg, str1: Reg, str2: Reg },
    StringEqual { dst: Reg, str1: Reg, str2: Reg },
    StringGetChar { dst: Reg, src: Reg, index: Reg },
    StringFromInt { dst: Reg, src: Reg },
    StringFromFloat { dst: Reg, src: Reg },
    // Exceptions
    TryBegin { catch_target: Label },
    TryEnd,
    Throw { error: Reg },
    // Checks
    /// Bounds check (debug mode)
    BoundsCheck { array: Reg, index: Reg },
    /// Type check (debug mode)
    TypeCheck { value: Reg, type_id: u16 },
    /// Cast value to type
    Cast { dst: Reg, src: Reg, target_type_id: u16 },
    // Reflection
    TypeOf { dst: Reg, src: Reg },
}


/// The opcode byte that encodes an instruction of this kind.
pub open spec fn opcode_of(instr: BytecodeInstr) -> u8 {
    match instr {
        BytecodeInstr::Nop => opcode::NOP,
        BytecodeInstr::Return => opcode::RETURN,
        BytecodeInstr::ReturnValue { .. } => opcode::RETURN_VALUE,
        BytecodeInstr::Yield => opcode::YIELD,
        BytecodeInstr::Spawn { .. } => opcode::SPAWN,
        BytecodeInstr::SpawnFromList { .. } => opcode::SPAWN_FROM_LIST,
        BytecodeInstr::Jmp { .. } => opcode::JMP,
        BytecodeInstr::JmpIf { .. } => opcode::JMP_IF,
        BytecodeInstr::JmpIfNot { .. } => opcode::JMP_IF_NOT,
        BytecodeInstr::Switch { .. } => opcode::SWITCH,
        BytecodeInstr::Mov { .. } => opcode::MOV,
        BytecodeInstr::LoadConst { .. } => opcode::LOAD_CONST,
        BytecodeInstr::LoadLocal { .. } => opcode::LOAD_LOCAL,
        BytecodeInstr::StoreLocal { .. } => opcode::STORE_LOCAL,
        BytecodeInstr::LoadArg { .. } => opcode::LOAD_ARG,
        BytecodeInstr::BinaryOp { op, .. } => match op {
            BinaryOp::Add => opcode::I64_ADD,
            BinaryOp::Sub => opcode::I64_SUB,
            BinaryOp::Mul => opcode::I64_MUL,
            BinaryOp::Div => opcode::I64_DIV,
            BinaryOp::Rem => opcode::I64_REM,
            BinaryOp::And => opcode::I64_AND,
            BinaryOp::Or => opcode::I64_OR,
            BinaryOp::Xor => opcode::I64_XOR,
            BinaryOp::Shl => opcode::I64_SHL,
            BinaryOp::Sar => opcode::I64_SAR,
            BinaryOp::Shr => opcode::I64_SHR,
        },
        BytecodeInstr::UnaryOp { .. } => opcode::I64_NEG,
        BytecodeInstr::Compare { cmp, .. } => match cmp {
            CompareOp::Eq => opcode::I64_EQ,
            CompareOp::Ne => opcode::I64_NE,
            CompareOp::Lt => opcode::I64_LT,
            CompareOp::Le => opcode::I64_LE,
            CompareOp::Gt => opcode::I64_GT,
            CompareOp::Ge => opcode::I64_GE,
        },
        BytecodeInstr::StackAlloc { .. } => opcode::STACK_ALLOC,
        BytecodeInstr::HeapAlloc { .. } => opcode::HEAP_ALLOC,
        BytecodeInstr::Drop { .. } => opcode::DROP,
        BytecodeInstr::GetField { .. } => opcode::GET_FIELD,
        BytecodeInstr::SetField { .. } => opcode::SET_FIELD,
        BytecodeInstr::LoadElement { .. } => opcode::LOAD_ELEMENT,
        BytecodeInstr::StoreElement { .. } => opcode::STORE_ELEMENT,
        BytecodeInstr::NewListWithCap { .. } => opcode::NEW_LIST_WITH_CAP,
        BytecodeInstr::CreateStruct { .. } => opcode::CREATE_STRUCT,
        BytecodeInstr::NewDict { .. } => opcode::NEW_DICT,
        BytecodeInstr::NewTuple { .. } => opcode::NEW_TUPLE,
        BytecodeInstr::NewRange { .. } => opcode::NEW_RANGE,
        BytecodeInstr::CreateVariant { .. } => opcode::CREATE_VARIANT,
        BytecodeInstr::VariantTag { .. } => opcode::VARIANT_TAG,
        BytecodeInstr::VariantPayload { .. } => opcode::VARIANT_PAYLOAD,
        BytecodeInstr::NewArray { .. } => opcode::NEW_ARRAY,
        BytecodeInstr::Contains { .. } => opcode::CONTAINS,
        BytecodeInstr::ArcNew { .. } => opcode::ARC_NEW,
        BytecodeInstr::RcNew { .. } => opcode::RC_NEW,
        BytecodeInstr::ArcClone { .. } => opcode::ARC_CLONE,
        BytecodeInstr::ArcDrop { .. } => opcode::ARC_DROP,
        BytecodeInstr::WeakNew { .. } => opcode::WEAK_NEW,
        BytecodeInstr::WeakUpgrade { .. } => opcode::WEAK_UPGRADE,
        BytecodeInstr::Borrow { .. } => opcode::BORROW,
        BytecodeInstr::Release { .. } => opcode::RELEASE,
        BytecodeInstr::CallStatic { .. } => opcode::CALL_STATIC,
        BytecodeInstr::CallNative { .. } => opcode::CALL_NATIVE,
        BytecodeInstr::CallVirt { .. } => opcode::CALL_VIRT,
        BytecodeInstr::CallDyn { .. } => opcode::CALL_DYN,
        BytecodeInstr::MakeClosure { .. } => opcode::MAKE_CLOSURE,
        BytecodeInstr::TailCall { .. } => opcode::TAIL_CALL,
        BytecodeInstr::LoadUpvalue { .. } => opcode::LOAD_UPVALUE,
        BytecodeInstr::StoreUpvalue { .. } => opcode::STORE_UPVALUE,
        BytecodeInstr::CloseUpvalue { .. } => opcode::CLOSE_UPVALUE,
        BytecodeInstr::StringLength { .. } => opcode::STRING_LENGTH,
        BytecodeInstr::StringConcat { .. } => opcode::STRING_CONCAT,
        BytecodeInstr::StringEqual { .. } => opcode::STRING_EQUAL,
        BytecodeInstr::StringGetChar { .. } => opcode::STRING_GET_CHAR,
        BytecodeInstr::StringFromInt { .. } => opcode::STRING_FROM_INT,
        BytecodeInstr::StringFromFloat { .. } => opcode::STRING_FROM_FLOAT,
        BytecodeInstr::TryBegin { .. } => opcode::TRY_BEGIN,
        BytecodeInstr::TryEnd => opcode::TRY_END,
        BytecodeInstr::Throw { .. } => opcode::THROW,
        BytecodeInstr::BoundsCheck { .. } => opcode::BOUNDS_CHECK,
        BytecodeInstr::TypeCheck { .. } => opcode::TYPE_CHECK,
        BytecodeInstr::Cast { .. } => opcode::CAST,
        BytecodeInstr::TypeOf { .. } => opcode::TYPE_OF,
    }
}

impl BytecodeInstr {
    /// The opcode for this instruction.
    pub fn opcode(&self) -> (op: u8)
        ensures
            op == opcode_of(*self),
    {
        match self {
            BytecodeInstr::Nop => opcode::NOP,
            BytecodeInstr::Return => opcode::RETURN,
            BytecodeInstr::ReturnValue { .. } => opcode::RETURN_VALUE,
            BytecodeInstr::Yield => opcode::YIELD,
            BytecodeInstr::Spawn { .. } => opcode::SPAWN,
            BytecodeInstr::SpawnFromList { .. } => opcode::SPAWN_FROM_LIST,
            BytecodeInstr::Jmp { .. } => opcode::JMP,
            BytecodeInstr::JmpIf { .. } => opcode::JMP_IF,
            BytecodeInstr::JmpIfNot { .. } => opcode::JMP_IF_NOT,
            BytecodeInstr::Switch { .. } => opcode::SWITCH,
            BytecodeInstr::Mov { .. } => opcode::MOV,
            BytecodeInstr::LoadConst { .. } => opcode::LOAD_CONST,
            BytecodeInstr::LoadLocal { .. } => opcode::LOAD_LOCAL,
            BytecodeInstr::StoreLocal { .. } => opcode::STORE_LOCAL,
            BytecodeInstr::LoadArg { .. } => opcode::LOAD_ARG,
            BytecodeInstr::BinaryOp { op, .. } => match op {
                BinaryOp::Add => opcode::I64_ADD,
                BinaryOp::Sub => opcode::I64_SUB,
                BinaryOp::Mul => opcode::I64_MUL,
                BinaryOp::Div => opcode::I64_DIV,
                BinaryOp::Rem => opcode::I64_REM,
                BinaryOp::And => opcode::I64_AND,
                BinaryOp::Or => opcode::I64_OR,
                BinaryOp::Xor => opcode::I64_XOR,
                BinaryOp::Shl => opcode::I64_SHL,
                BinaryOp::Sar => opcode::I64_SAR,
                BinaryOp::Shr => opcode::I64_SHR,
            },
            BytecodeInstr::UnaryOp { .. } => opcode::I64_NEG,
            BytecodeInstr::Compare { cmp, .. } => match cmp {
                CompareOp::Eq => opcode::I64_EQ,
                CompareOp::Ne => opcode::I64_NE,
                CompareOp::Lt => opcode::I64_LT,
                CompareOp::Le => opcode::I64_LE,
                CompareOp::Gt => opcode::I64_GT,
                CompareOp::Ge => opcode::I64_GE,
            },
            BytecodeInstr::StackAlloc { .. } => opcode::STACK_ALLOC,
            BytecodeInstr::HeapAlloc { .. } => opcode::HEAP_ALLOC,
            BytecodeInstr::Drop { .. } => opcode::DROP,
            BytecodeInstr::GetField { .. } => opcode::GET_FIELD,
            BytecodeInstr::SetField { .. } => opcode::SET_FIELD,
            BytecodeInstr::LoadElement { .. } => opcode::LOAD_ELEMENT,
            BytecodeInstr::StoreElement { .. } => opcode::STORE_ELEMENT,
            BytecodeInstr::NewListWithCap { .. } => opcode::NEW_LIST_WITH_CAP,
            BytecodeInstr::CreateStruct { .. } => opcode::CREATE_STRUCT,
            BytecodeInstr::NewDict { .. } => opcode::NEW_DICT,
            BytecodeInstr::NewTuple { .. } => opcode::NEW_TUPLE,
            BytecodeInstr::NewRange { .. } => opcode::NEW_RANGE,
            BytecodeInstr::CreateVariant { .. } => opcode::CREATE_VARIANT,
            BytecodeInstr::VariantTag { .. } => opcode::VARIANT_TAG,
            BytecodeInstr::VariantPayload { .. } => opcode::VARIANT_PAYLOAD,
            BytecodeInstr::NewArray { .. } => opcode::NEW_ARRAY,
            BytecodeInstr::Contains { .. } => opcode::CONTAINS,
            BytecodeInstr::ArcNew { .. } => opcode::ARC_NEW,
            BytecodeInstr::RcNew { .. } => opcode::RC_NEW,
            BytecodeInstr::ArcClone { .. } => opcode::ARC_CLONE,
            BytecodeInstr::ArcDrop { .. } => opcode::ARC_DROP,
            BytecodeInstr::WeakNew { .. } => opcode::WEAK_NEW,
            BytecodeInstr::WeakUpgrade { .. } => opcode::WEAK_UPGRADE,
            BytecodeInstr::Borrow { .. } => opcode::BORROW,
            BytecodeInstr::Release { .. } => opcode::RELEASE,
            BytecodeInstr::CallStatic { .. } => opcode::CALL_STATIC,
            BytecodeInstr::CallNative { .. } => opcode::CALL_NATIVE,
            BytecodeInstr::CallVirt { .. } => opcode::CALL_VIRT,
            BytecodeInstr::CallDyn { .. } => opcode::CALL_DYN,
            BytecodeInstr::MakeClosure { .. } => opcode::MAKE_CLOSURE,
            BytecodeInstr::TailCall { .. } => opcode::TAIL_CALL,
            BytecodeInstr::LoadUpvalue { .. } => opcode::LOAD_UPVALUE,
            BytecodeInstr::StoreUpvalue { .. } => opcode::STORE_UPVALUE,
            BytecodeInstr::CloseUpvalue { .. } => opcode::CLOSE_UPVALUE,
            BytecodeInstr::StringLength { .. } => opcode::STRING_LENGTH,
            BytecodeInstr::StringConcat { .. } => opcode::STRING_CONCAT,
            BytecodeInstr::StringEqual { .. } => opcode::STRING_EQUAL,
            BytecodeInstr::StringGetChar { .. } => opcode::STRING_GET_CHAR,
            BytecodeInstr::StringFromInt { .. } => opcode::STRING_FROM_INT,
            BytecodeInstr::StringFromFloat { .. } => opcode::STRING_FROM_FLOAT,
            BytecodeInstr::TryBegin { .. } => opcode::TRY_BEGIN,
            BytecodeInstr::TryEnd => opcode::TRY_END,
            BytecodeInstr::Throw { .. } => opcode::THROW,
            BytecodeInstr::BoundsCheck { .. } => opcode::BOUNDS_CHECK,
            BytecodeInstr::TypeCheck { .. } => opcode::TYPE_CHECK,
            BytecodeInstr::Cast { .. } => opcode::CAST,
            BytecodeInstr::TypeOf { .. } => opcode::TYPE_OF,
        }
    }
}


/// Number of bytes in the UTF-8 encoding of a string.
pub open spec fn utf8_len(s: Seq<char>) -> nat {
    encode_utf8(s).len()
}

/// Encoded size of a list of per-task dependency lists: for each task a
/// 4-byte count followed by 4 bytes per dependency.
pub open spec fn deps_bytes(deps: Seq<Seq<u32>>) -> nat
    decreases deps.len(),
{
    if deps.len() == 0 {
        0
    } else {
        deps_bytes(deps.drop_last()) + 4 + 4 * deps.last().len()
    }
}

/// Encoded size of a list of strings: for each a 4-byte length followed by
/// its UTF-8 bytes.
pub open spec fn strings_bytes(strs: Seq<Seq<char>>) -> nat
    decreases strs.len(),
{
    if strs.len() == 0 {
        0
    } else {
        strings_bytes(strs.drop_last()) + 4 + utf8_len(strs.last())
    }
}

/// Encoded size of per-task resource name lists: for each task a 4-byte
/// count followed by its strings.
pub open spec fn resources_bytes(res: Seq<Seq<Seq<char>>>) -> nat
    decreases res.len(),
{
    if res.len() == 0 {
        0
    } else {
        resources_bytes(res.drop_last()) + 4 + strings_bytes(res.last())
    }
}

/// Size in bytes of the encoded instruction: one opcode byte plus its operands.
pub open spec fn encoded_size(instr: BytecodeInstr) -> nat {
    1 + match instr {
        BytecodeInstr::Nop => 0,
        BytecodeInstr::Return => 0,
        BytecodeInstr::ReturnValue { .. } => 2,
        BytecodeInstr::Yield => 0,
        BytecodeInstr::Spawn { closures, task_deps, task_resources, .. } => 4 + closures@.len() * 2 + 4 + deps_bytes(task_deps.deep_view()) + 4 + resources_bytes(task_resources.deep_view()),
        BytecodeInstr::SpawnFromList { task_deps, task_resources, .. } => 2 + 2 + 4 + deps_bytes(task_deps.deep_view()) + 4 + resources_bytes(task_resources.deep_view()),
        BytecodeInstr::Jmp { .. } => 4,
        BytecodeInstr::JmpIf { .. } => 4,
        BytecodeInstr::JmpIfNot { .. } => 4,
        BytecodeInstr::Switch { targets, .. } => 2 + targets@.len() * 4,
        BytecodeInstr::Mov { .. } => 4,
        BytecodeInstr::LoadConst { .. } => 4,
        BytecodeInstr::LoadLocal { .. } => 3,
        BytecodeInstr::StoreLocal { .. } => 3,
        BytecodeInstr::LoadArg { .. } => 3,
        BytecodeInstr::BinaryOp { .. } => 6,
        BytecodeInstr::UnaryOp { .. } => 4,
        BytecodeInstr::Compare { .. } => 6,
        BytecodeInstr::StackAlloc { .. } => 4,
        BytecodeInstr::HeapAlloc { .. } => 4,
        BytecodeInstr::Drop { .. } => 2,
        BytecodeInstr::GetField { .. } => 4,
        BytecodeInstr::SetField { .. } => 4,
        BytecodeInstr::LoadElement { .. } => 4,
        BytecodeInstr::StoreElement { .. } => 4,
        BytecodeInstr::NewListWithCap { .. } => 4,
        BytecodeInstr::CreateStruct { fields, struct_name, .. } => 6 + utf8_len(struct_name@) + fields@.len() * 2,
        BytecodeInstr::NewDict { keys, .. } => 6 + keys@.len() * 4,
        BytecodeInstr::NewTuple { items, .. } => 6 + items@.len() * 2,
        BytecodeInstr::NewRange { .. } => 8,
        BytecodeInstr::CreateVariant { .. } => 10,
        BytecodeInstr::VariantTag { .. } => 6,
        BytecodeInstr::VariantPayload { .. } => 6,
        BytecodeInstr::NewArray { .. } => 5,
        BytecodeInstr::Contains { .. } => 3,
        BytecodeInstr::ArcNew { .. } => 4,
        BytecodeInstr::RcNew { .. } => 4,
        BytecodeInstr::ArcClone { .. } => 4,
        BytecodeInstr::ArcDrop { .. } => 2,
        BytecodeInstr::WeakNew { .. } => 4,
        BytecodeInstr::WeakUpgrade { .. } => 4,
        BytecodeInstr::Borrow { .. } => 5,
        BytecodeInstr::Release { .. } => 2,
        BytecodeInstr::CallStatic { args, .. } => 4 + args@.len() * 2,
        BytecodeInstr::CallNative { args, func_name, mechanism, .. } => (if mechanism@.len() == 0 { 4 + utf8_len(func_name@) + args@.len() * 2 } else { 4 + utf8_len(func_name@) + args@.len() * 2 + 12 }),
        BytecodeInstr::CallVirt { args, .. } => 4 + args@.len() * 2,
        BytecodeInstr::CallDyn { args, .. } => 4 + args@.len() * 2,
        BytecodeInstr::MakeClosure { env, .. } => 4 + env@.len() * 2,
        BytecodeInstr::TailCall { .. } => 7,
        BytecodeInstr::LoadUpvalue { .. } => 3,
        BytecodeInstr::StoreUpvalue { .. } => 3,
        BytecodeInstr::CloseUpvalue { .. } => 2,
        BytecodeInstr::StringLength { .. } => 4,
        BytecodeInstr::StringConcat { .. } => 4,
        BytecodeInstr::StringEqual { .. } => 4,
        BytecodeInstr::StringGetChar { .. } => 4,
        BytecodeInstr::StringFromInt { .. } => 4,
        BytecodeInstr::StringFromFloat { .. } => 4,
        BytecodeInstr::TryBegin { .. } => 4,
        BytecodeInstr::TryEnd => 0,
        BytecodeInstr::Throw { .. } => 2,
        BytecodeInstr::BoundsCheck { .. } => 4,
        BytecodeInstr::TypeCheck { .. } => 4,
        BytecodeInstr::Cast { .. } => 4,
        BytecodeInstr::TypeOf { .. } => 4,
    }
}

fn deps_size(deps: &Vec<Vec<u32>>) -> (s: usize)
    requires
        deps_bytes(deps.deep_view()) <= usize::MAX,
    ensures
        s == deps_bytes(deps.deep_view()),
{
    let ghost dv = deps.deep_view();
    let mut s: usize = 0;
    let mut i: usize = 0;
    while i < deps.len()
        invariant
            dv == deps.deep_view(),
            deps_bytes(dv) <= usize::MAX,
            i <= deps.len(),
            s == deps_bytes(dv.take(i as int)),
        decreases deps.len() - i,
    {
        proof {
            lemma_deps_bytes_prefix(dv, i as int + 1);
            assert(dv.take(i as int + 1).drop_last() =~= dv.take(i as int));
            assert(dv[i as int] =~= deps[i as int]@);
        }
        s = s + 4 + deps[i].len() * 4;
        i = i + 1;
    }
    assert(dv.take(i as int) =~= dv);
    s
}

proof fn lemma_deps_bytes_prefix(d: Seq<Seq<u32>>, k: int)
    requires
        0 <= k <= d.len(),
    ensures
        deps_bytes(d.take(k)) <= deps_bytes(d),
    decreases d.len(),
{
    if k < d.len() {
        assert(d.drop_last().take(k) =~= d.take(k));
        lemma_deps_bytes_prefix(d.drop_last(), k);
    } else {
        assert(d.take(k) =~= d);
    }
}

proof fn lemma_strings_bytes_prefix(d: Seq<Seq<char>>, k: int)
    requires
        0 <= k <= d.len(),
    ensures
        strings_bytes(d.take(k)) <= strings_bytes(d),
    decreases d.len(),
{
    if k < d.len() {
        assert(d.drop_last().take(k) =~= d.take(k));
        lemma_strings_bytes_prefix(d.drop_last(), k);
    } else {
        assert(d.take(k) =~= d);
    }
}

proof fn lemma_resources_bytes_prefix(d: Seq<Seq<Seq<char>>>, k: int)
    requires
        0 <= k <= d.len(),
    ensures
        resources_bytes(d.take(k)) <= resources_bytes(d),
    decreases d.len(),
{
    if k < d.len() {
        assert(d.drop_last().take(k) =~= d.take(k));
        lemma_resources_bytes_prefix(d.drop_last(), k);
    } else {
        assert(d.take(k) =~= d);
    }
}

fn strings_size(strs: &Vec<String>) -> (s: usize)
    requires
        strings_bytes(strs.deep_view()) <= usize::MAX,
    ensures
        s == strings_bytes(strs.deep_view()),
{
    let ghost dv = strs.deep_view();
    let mut s: usize = 0;
    let mut i: usize = 0;
    while i < strs.len()
        invariant
            dv == strs.deep_view(),
            strings_bytes(dv) <= usize::MAX,
            i <= strs.len(),
            s == strings_bytes(dv.take(i as int)),
        decreases strs.len() - i,
    {
        proof {
            lemma_strings_bytes_prefix(dv, i as int + 1);
            assert(dv.take(i as int + 1).drop_last() =~= dv.take(i as int));
        }
        s = s + 4 + strs[i].as_str().len();
        i = i + 1;
    }
    assert(dv.take(i as int) =~= dv);
    s
}

fn resources_size(res: &Vec<Vec<String>>) -> (s: usize)
    requires
        resources_bytes(res.deep_view()) <= usize::MAX,
    ensures
        s == resources_bytes(res.deep_view()),
{
    let ghost dv = res.deep_view();
    let mut s: usize = 0;
    let mut i: usize = 0;
    while i < res.len()
        invariant
            dv == res.deep_view(),
            resources_bytes(dv) <= usize::MAX,
            i <= res.len(),
            s == resources_bytes(dv.take(i as int)),
        decreases res.len() - i,
    {
        proof {
            lemma_resources_bytes_prefix(dv, i as int + 1);
            assert(dv.take(i as int + 1).drop_last() =~= dv.take(i as int));
            assert(dv[i as int] == res[i as int].deep_view());
        }
        s = s + 4 + strings_size(&res[i]);
        i = i + 1;
    }
    assert(dv.take(i as int) =~= dv);
    s
}

impl BytecodeInstr {
    /// The instruction size in bytes (opcode byte plus operands).
    pub fn size(&self) -> (n: usize)
        requires
            encoded_size(*self) <= usize::MAX,
        ensures
            n == encoded_size(*self),
    {
        1 + match self {
            BytecodeInstr::Nop => 0,
            BytecodeInstr::Return => 0,
            BytecodeInstr::ReturnValue { .. } => 2,
            BytecodeInstr::Yield => 0,
            BytecodeInstr::Spawn { closures, task_deps, task_resources, .. } => {
                let mut s: usize = 4 + closures.len() * 2;
                s = s + 4;
                s = s + deps_size(task_deps);
                s = s + 4;
                s = s + resources_size(task_resources);
                s
            },
            BytecodeInstr::SpawnFromList { task_deps, task_resources, .. } => {
                let mut s: usize = 2 + 2;
                s = s + 4;
                s = s + deps_size(task_deps);
                s = s + 4;
                s = s + resources_size(task_resources);
                s
            },
            BytecodeInstr::Jmp { .. } => 4,
            BytecodeInstr::JmpIf { .. } => 4,
            BytecodeInstr::JmpIfNot { .. } => 4,
            BytecodeInstr::Switch { targets, .. } => 2 + targets.len() * 4,
            BytecodeInstr::Mov { .. } => 4,
            BytecodeInstr::LoadConst { .. } => 4,
            BytecodeInstr::LoadLocal { .. } => 3,
            BytecodeInstr::StoreLocal { .. } => 3,
            BytecodeInstr::LoadArg { .. } => 3,
            BytecodeInstr::BinaryOp { .. } => 6,
            BytecodeInstr::UnaryOp { .. } => 4,
            BytecodeInstr::Compare { .. } => 6,
            BytecodeInstr::StackAlloc { .. } => 4,
            BytecodeInstr::HeapAlloc { .. } => 4,
            BytecodeInstr::Drop { .. } => 2,
            BytecodeInstr::GetField { .. } => 4,
            BytecodeInstr::SetField { .. } => 4,
            BytecodeInstr::LoadElement { .. } => 4,
            BytecodeInstr::StoreElement { .. } => 4,
            BytecodeInstr::NewListWithCap { .. } => 4,
            BytecodeInstr::CreateStruct { fields, struct_name, .. } => 6 + struct_name.as_str().len() + fields.len() * 2,
            BytecodeInstr::NewDict { keys, .. } => 6 + keys.len() * 4,
            BytecodeInstr::NewTuple { items, .. } => 6 + items.len() * 2,
            BytecodeInstr::NewRange { .. } => 8,
            BytecodeInstr::CreateVariant { .. } => 10,
            BytecodeInstr::VariantTag { .. } => 6,
            BytecodeInstr::VariantPayload { .. } => 6,
            BytecodeInstr::NewArray { .. } => 5,
            BytecodeInstr::Contains { .. } => 3,
            BytecodeInstr::ArcNew { .. } => 4,
            BytecodeInstr::RcNew { .. } => 4,
            BytecodeInstr::ArcClone { .. } => 4,
            BytecodeInstr::ArcDrop { .. } => 2,
            BytecodeInstr::WeakNew { .. } => 4,
            BytecodeInstr::WeakUpgrade { .. } => 4,
            BytecodeInstr::Borrow { .. } => 5,
            BytecodeInstr::Release { .. } => 2,
            BytecodeInstr::CallStatic { args, .. } => 4 + args.len() * 2,
            BytecodeInstr::CallNative { args, func_name, mechanism, .. } => {
                let base = 4 + func_name.as_str().len() + args.len() * 2;
                if mechanism.as_str().is_empty() {
                    base
                } else {
                    base + 12
                }
            },
            BytecodeInstr::CallVirt { args, .. } => 4 + args.len() * 2,
            BytecodeInstr::CallDyn { args, .. } => 4 + args.len() * 2,
            BytecodeInstr::MakeClosure { env, .. } => 4 + env.len() * 2,
            BytecodeInstr::TailCall { .. } => 7,
            BytecodeInstr::LoadUpvalue { .. } => 3,
            BytecodeInstr::StoreUpvalue { .. } => 3,
            BytecodeInstr::CloseUpvalue { .. } => 2,
            BytecodeInstr::StringLength { .. } => 4,
            BytecodeInstr::StringConcat { .. } => 4,
            BytecodeInstr::StringEqual { .. } => 4,
            BytecodeInstr::StringGetChar { .. } => 4,
            BytecodeInstr::StringFromInt { .. } => 4,
            BytecodeInstr::StringFromFloat { .. } => 4,
            BytecodeInstr::TryBegin { .. } => 4,
            BytecodeInstr::TryEnd => 0,
            BytecodeInstr::Throw { .. } => 2,
            BytecodeInstr::BoundsCheck { .. } => 4,
            BytecodeInstr::TypeCheck { .. } => 4,
            BytecodeInstr::Cast { .. } => 4,
            BytecodeInstr::TypeOf { .. } => 4,
        }
    }
}


/// A decoded bytecode function.
#[derive(Debug)]
pub struct BytecodeFunction {
    /// Function name
    pub name: String,
    /// Parameter types
    pub params: Vec<Type>,
    /// Return type
    pub return_type: Type,
    /// Number of local variables
    pub local_count: usize,
    /// Number of upvalues
    pub upvalue_count: usize,
    /// Instructions
    pub instructions: Vec<BytecodeInstr>,
    /// Label id to instruction index
    pub labels: HashMap<u32, usize>,
    /// Exception handlers (try-catch blocks)
    pub exception_handlers: Vec<ExceptionHandler>,
    /// Instruction index to source position
    pub debug_map: HashMap<usize, DebugSpan>,
}

/// Exception handler information.
#[derive(Debug, Clone, Copy)]
pub struct ExceptionHandler {
    /// Try block start label
    pub try_start: Label,
    /// Try block end label
    pub try_end: Label,
    /// Catch block start label
    pub catch_start: Label,
    /// Exception type to catch (0 for all)
    pub exception_type: u16,
}

/// Global variable information.
#[derive(Debug, Clone)]
pub struct GlobalInfo {
    /// Variable name
    pub name: String,
    /// Variable type
    pub type_id: u16,
    /// Initial value (if compile-time constant)
    pub initializer: Option<ConstValue>,
    /// Is mutable
    pub is_mutable: bool,
}

/// A decoded bytecode module.
#[derive(Debug)]
pub struct BytecodeModule {
    /// Module name
    pub name: String,
    /// Constant pool
    pub constants: Vec<ConstValue>,
    /// Functions defined in this module
    pub functions: Vec<BytecodeFunction>,
    /// Type table
    pub type_table: Vec<Type>,
    /// Per type: the type name and its (bare method name, function index) pairs
    pub vtables: Vec<(String, Vec<(String, u32)>)>,
    /// Global variables
    pub globals: Vec<GlobalInfo>,
    /// Entry point function index
    pub entry_point: Option<usize>,
}

impl BytecodeModule {
    /// Create a new empty module.
    pub fn new(name: String) -> (m: Self)
        ensures
            m.name == name,
            m.constants@.len() == 0,
            m.functions@.len() == 0,
            m.type_table@.len() == 0,
            m.vtables@.len() == 0,
            m.globals@.len() == 0,
            m.entry_point is None,
    {
        BytecodeModule {
            name,
            constants: Vec::new(),
            functions: Vec::new(),
            type_table: Vec::new(),
            vtables: Vec::new(),
            globals: Vec::new(),
            entry_point: None,
        }
    }

    /// Add a constant and return its index (the pool length before, as a
    /// 16-bit index).
    pub fn add_constant(&mut self, value: ConstValue) -> (idx: u16)
        ensures
            idx == old(self).constants@.len() as u16,
            final(self).constants@ == old(self).constants@.push(value),
            final(self).name == old(self).name,
            final(self).functions == old(self).functions,
            final(self).type_table == old(self).type_table,
            final(self).vtables == old(self).vtables,
            final(self).globals == old(self).globals,
            final(self).entry_point == old(self).entry_point,
    {
        let idx = self.constants.len() as u16;
        self.constants.push(value);
        idx
    }

    /// Add a function and return its index.
    pub fn add_function(&mut self, func: BytecodeFunction) -> (idx: usize)
        ensures
            idx == old(self).functions@.len(),
            final(self).functions@ == old(self).functions@.push(func),
            final(self).name == old(self).name,
            final(self).constants == old(self).constants,
            final(self).type_table == old(self).type_table,
            final(self).vtables == old(self).vtables,
            final(self).globals == old(self).globals,
            final(self).entry_point == old(self).entry_point,
    {
        let idx = self.functions.len();
        self.functions.push(func);
        idx
    }
}

} // verus!
