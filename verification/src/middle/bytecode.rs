//! Bytecode intermediate representation over the symbolic opcode set.
//!
//! A low-level, platform-agnostic representation of compiled YaoXiang code
//! and the interface between the code generator and an execution backend.
//! Unlike the high-level IR it is close to the execution model and suitable
//! for serialization.
use vstd::prelude::*;
use std::collections::HashMap;
use crate::backends::common::Opcode;
use crate::util::decimal::{decimal, prefixed_decimal};
use crate::middle::passes::codegen::bytecode::{BytecodeFile, CodeSection, FunctionCode};
pub use crate::middle::core_ir::ir::{Type as IrType, ConstValue};

verus! {

/// Register index in the virtual machine.
#[derive(Debug, Clone, Copy, PartialEq, Eq, Hash, Structural)]
pub struct Reg(pub u16);

impl Reg {
    /// Create a new register.
    pub fn new(index: u16) -> (r: Self)
        ensures
            r.0 == index,
    {
        Reg(index)
    }

    /// The register index.
    pub fn index(&self) -> (i: u16)
        ensures
            i == self.0,
    {
        self.0
    }

    /// Display form: `r` followed by the index in decimal (`r15`).
    pub fn to_string(&self) -> (s: String)
        ensures
            s@ == seq!['r'] + decimal(self.0 as nat),
    {
        proof {
            reveal_strlit("r");
        }
        prefixed_decimal("r", self.0 as u64)
    }
}

/// Label for jump targets.
#[derive(Debug, Clone, Copy, PartialEq, Eq, Hash, Structural)]
pub struct Label(pub u32);

impl Label {
    /// Create a new label.
    pub fn new(id: u32) -> (l: Self)
        ensures
            l.0 == id,
    {
        Label(id)
    }

    /// The label id.
    pub fn id(&self) -> (i: u32)
        ensures
            i == self.0,
    {
        self.0
    }

    /// Display form: `L` followed by the id in decimal (`L10`).
    pub fn to_string(&self) -> (s: String)
        ensures
            s@ == seq!['L'] + decimal(self.0 as nat),
    {
        proof {
            reveal_strlit("L");
        }
        prefixed_decimal("L", self.0 as u64)
    }
}

/// Binary operation types.
#[derive(Debug, Clone, Copy, PartialEq, Eq, Structural)]
pub enum BinaryOp {
    /// Addition (+)
    Add,
    /// Subtraction (-)
    Sub,
    /// Multiplication (*)
    Mul,
    /// Division (/)
    Div,
    /// Modulo (%)
    Rem,
    /// Bitwise AND (&)
    And,
    /// Bitwise OR (|)
    Or,
    /// Bitwise XOR (^)
    Xor,
    /// Left shift (<<)
    Shl,
    /// Arithmetic right shift (>>)
    Sar,
    /// Logical right shift (>>>)
    Shr,
}

/// Unary operation types.
#[derive(Debug, Clone, Copy, PartialEq, Eq, Structural)]
pub enum UnaryOp {
    /// Negation (-)
    Neg,
    /// Bitwise NOT (!)
    Not,
}

/// Comparison operation types.
#[derive(Debug, Clone, Copy, PartialEq, Eq, Structural)]
pub enum CompareOp {
    /// Equal (==)
    Eq,
    /// Not equal (!=)
    Ne,
    /// Less than (<)
    Lt,
    /// Less than or equal (<=)
    Le,
    /// Greater than (>)
    Gt,
    /// Greater than or equal (>=)
    Ge,
}

/// Function reference.
#[derive(Debug, Clone)]
pub enum FunctionRef {
    /// By name; `module` is empty for the current module.
    Static { module: String, name: String },
    /// By index, after linking.
    Index(u32),
}

/// Bytecode instruction.
///
/// The low-level instruction format: an operation together with its
/// operands.
#[derive(Debug, Clone)]
pub enum BytecodeInstr {
    /// No-op
    Nop,
    /// Return without value
    Return,
    /// Return with value
    ReturnValue { value: Reg },
    /// Unconditional jump
    Jmp { target: Label },
    /// Conditional jump (if true)
    JmpIf { cond: Reg, target: Label },
    /// Conditional jump (if false)
    JmpIfNot { cond: Reg, target: Label },
    /// Switch/case dispatch: (default target, [(value, target), ...])
    Switch { value: Reg, targets: Vec<(Option<Label>, Label)> },
    /// Register move
    Mov { dst: Reg, src: Reg },
    /// Load constant
    LoadConst { dst: Reg, const_idx: u16 },
    /// Load local variable
    LoadLocal { dst: Reg, local_idx: u8 },
    /// Store local variable
    StoreLocal { local_idx: u8, src: Reg },
    /// Load function argument
    LoadArg { dst: Reg, arg_idx: u8 },
    /// Binary operation
    BinaryOp { dst: Reg, lhs: Reg, rhs: Reg, op: BinaryOp },
    /// Unary operation
    UnaryOp { dst: Reg, src: Reg, op: UnaryOp },
    /// Comparison
    Compare { dst: Reg, lhs: Reg, rhs: Reg, cmp: CompareOp },
    /// Stack allocation
    StackAlloc { dst: Reg, size: u16 },
    /// Heap allocation
    HeapAlloc { dst: Reg, type_id: u16 },
    /// Drop value
    Drop { value: Reg },
    /// Get struct field
    GetField { dst: Reg, src: Reg, field_idx: u16 },
    /// Set struct field
    SetField { src: Reg, field_idx: u16, value: Reg },
    /// Load element from array/list
    LoadElement { dst: Reg, array: Reg, index: Reg },
    /// Store element to array/list
    StoreElement { array: Reg, index: Reg, value: Reg },
    /// Create list with capacity
    NewListWithCap { dst: Reg, capacity: u16 },
    /// Wrap a value in an Arc
    ArcNew { dst: Reg, src: Reg },
    /// Clone an Arc
    ArcClone { dst: Reg, src: Reg },
    /// Drop an Arc
    ArcDrop { src: Reg },
    /// Static dispatch call
    CallStatic { dst: Option<Reg>, func: FunctionRef, args: Vec<Reg> },
    /// Virtual dispatch call
    CallVirt { dst: Option<Reg>, obj: Reg, method_idx: u16, args: Vec<Reg> },
    /// Dynamic dispatch call
    CallDyn { dst: Option<Reg>, obj: Reg, name_idx: u16, args: Vec<Reg> },
    /// Create closure
    MakeClosure { dst: Reg, func: FunctionRef, env: Vec<Reg> },
    /// Load upvalue
    LoadUpvalue { dst: Reg, upvalue_idx: u8 },
    /// Store upvalue
    StoreUpvalue { src: Reg, upvalue_idx: u8 },
    /// Close upvalue
    CloseUpvalue { src: Reg },
    /// String length
    StringLength { dst: Reg, src: Reg },
    /// String concatenation
    StringConcat { dst: Reg, str1: Reg, str2: Reg },
    /// String equality
    StringEqual { dst: Reg, str1: Reg, str2: Reg },
    /// Character at an index
    StringGetChar { dst: Reg, src: Reg, index: Reg },
    /// Integer to string
    StringFromInt { dst: Reg, src: Reg },
    /// Float to string
    StringFromFloat { dst: Reg, src: Reg },
    /// Enter a try block
    TryBegin { catch_target: Label },
    /// Leave a try block
    TryEnd,
    /// Throw an error
    Throw { error: Reg },
    /// Bounds check (debug mode only)
    BoundsCheck { array: Reg, index: Reg },
    /// Type check (debug mode only)
    TypeCheck { value: Reg, type_id: u16 },
    /// Cast value to type
    Cast { dst: Reg, src: Reg, target_type_id: u16 },
    /// Runtime type of a value
    TypeOf { dst: Reg, src: Reg },
}

/// The opcode of an instruction.
pub open spec fn opcode_of(instr: BytecodeInstr) -> Opcode {
    match instr {
        BytecodeInstr::Nop => Opcode::Nop,
        BytecodeInstr::Return => Opcode::Return,
        BytecodeInstr::ReturnValue { .. } => Opcode::ReturnValue,
        BytecodeInstr::Jmp { .. } => Opcode::Jmp,
        BytecodeInstr::JmpIf { .. } => Opcode::JmpIf,
        BytecodeInstr::JmpIfNot { .. } => Opcode::JmpIfNot,
        BytecodeInstr::Switch { .. } => Opcode::Switch,
        BytecodeInstr::Mov { .. } => Opcode::Mov,
        BytecodeInstr::LoadConst { .. } => Opcode::LoadConst,
        BytecodeInstr::LoadLocal { .. } => Opcode::LoadLocal,
        BytecodeInstr::StoreLocal { .. } => Opcode::StoreLocal,
        BytecodeInstr::LoadArg { .. } => Opcode::LoadArg,
        BytecodeInstr::BinaryOp { op, .. } => match op {
            BinaryOp::Add => Opcode::I64Add,
            BinaryOp::Sub => Opcode::I64Sub,
            BinaryOp::Mul => Opcode::I64Mul,
            BinaryOp::Div => Opcode::I64Div,
            BinaryOp::Rem => Opcode::I64Rem,
            BinaryOp::And => Opcode::I64And,
            BinaryOp::Or => Opcode::I64Or,
            BinaryOp::Xor => Opcode::I64Xor,
            BinaryOp::Shl => Opcode::I64Shl,
            BinaryOp::Sar => Opcode::I64Sar,
            BinaryOp::Shr => Opcode::I64Shr,
        },
        BytecodeInstr::UnaryOp { .. } => Opcode::I64Neg,
        BytecodeInstr::Compare { cmp, .. } => match cmp {
            CompareOp::Eq => Opcode::I64Eq,
            CompareOp::Ne => Opcode::I64Ne,
            CompareOp::Lt => Opcode::I64Lt,
            CompareOp::Le => Opcode::I64Le,
            CompareOp::Gt => Opcode::I64Gt,
            CompareOp::Ge => Opcode::I64Ge,
        },
        BytecodeInstr::StackAlloc { .. } => Opcode::StackAlloc,
        BytecodeInstr::HeapAlloc { .. } => Opcode::HeapAlloc,
        BytecodeInstr::Drop { .. } => Opcode::Drop,
        BytecodeInstr::GetField { .. } => Opcode::GetField,
        BytecodeInstr::SetField { .. } => Opcode::SetField,
        BytecodeInstr::LoadElement { .. } => Opcode::LoadElement,
        BytecodeInstr::StoreElement { .. } => Opcode::StoreElement,
        BytecodeInstr::NewListWithCap { .. } => Opcode::NewListWithCap,
        BytecodeInstr::ArcNew { .. } => Opcode::ArcNew,
        BytecodeInstr::ArcClone { .. } => Opcode::ArcClone,
        BytecodeInstr::ArcDrop { .. } => Opcode::ArcDrop,
        BytecodeInstr::CallStatic { .. } => Opcode::CallStatic,
        BytecodeInstr::CallVirt { .. } => Opcode::CallVirt,
        BytecodeInstr::CallDyn { .. } => Opcode::CallDyn,
        BytecodeInstr::MakeClosure { .. } => Opcode::MakeClosure,
        BytecodeInstr::LoadUpvalue { .. } => Opcode::LoadUpvalue,
        BytecodeInstr::StoreUpvalue { .. } => Opcode::StoreUpvalue,
        BytecodeInstr::CloseUpvalue { .. } => Opcode::CloseUpvalue,
        BytecodeInstr::StringLength { .. } => Opcode::StringLength,
        BytecodeInstr::StringConcat { .. } => Opcode::StringConcat,
        BytecodeInstr::StringEqual { .. } => Opcode::StringEqual,
        BytecodeInstr::StringGetChar { .. } => Opcode::StringGetChar,
        BytecodeInstr::StringFromInt { .. } => Opcode::StringFromInt,
        BytecodeInstr::StringFromFloat { .. } => Opcode::StringFromFloat,
        BytecodeInstr::TryBegin { .. } => Opcode::TryBegin,
        BytecodeInstr::TryEnd => Opcode::TryEnd,
        BytecodeInstr::Throw { .. } => Opcode::Throw,
        BytecodeInstr::BoundsCheck { .. } => Opcode::BoundsCheck,
        BytecodeInstr::TypeCheck { .. } => Opcode::TypeCheck,
        BytecodeInstr::Cast { .. } => Opcode::Cast,
        BytecodeInstr::TypeOf { .. } => Opcode::TypeOf,
    }
}

/// The encoded size of an instruction in bytes: one opcode byte and its
/// operands.
pub open spec fn instr_size(instr: BytecodeInstr) -> nat {
    1 + match instr {
        BytecodeInstr::Nop => 0,
        BytecodeInstr::Return => 0,
        BytecodeInstr::ReturnValue { .. } => 2,
        BytecodeInstr::Jmp { .. } => 4,
        BytecodeInstr::JmpIf { .. } => 4,
        BytecodeInstr::JmpIfNot { .. } => 4,
        BytecodeInstr::Switch { targets, .. } => 2 + targets@.len() * 4,
        BytecodeInstr::Mov { .. } => 4,
        BytecodeInstr::LoadConst { .. } => 4,
        BytecodeInstr::LoadLocal { .. } => 3,
        BytecodeInstr::StoreLocal { .. } => 3,
        BytecodeInstr::LoadArg { .. } => 3,
        BytecodeInstr::BinaryOp { .. } => 6,
        BytecodeInstr::UnaryOp { .. } => 4,
        BytecodeInstr::Compare { .. } => 6,
        BytecodeInstr::StackAlloc { .. } => 4,
        BytecodeInstr::HeapAlloc { .. } => 4,
        BytecodeInstr::Drop { .. } => 2,
        BytecodeInstr::GetField { .. } => 4,
        BytecodeInstr::SetField { .. } => 4,
        BytecodeInstr::LoadElement { .. } => 4,
        BytecodeInstr::StoreElement { .. } => 4,
        BytecodeInstr::NewListWithCap { .. } => 4,
        BytecodeInstr::ArcNew { .. } => 4,
        BytecodeInstr::ArcClone { .. } => 4,
        BytecodeInstr::ArcDrop { .. } => 2,
        BytecodeInstr::CallStatic { args, .. } => 4 + args@.len() * 2,
        BytecodeInstr::CallVirt { args, .. } => 4 + args@.len() * 2,
        BytecodeInstr::CallDyn { args, .. } => 4 + args@.len() * 2,
        BytecodeInstr::MakeClosure { env, .. } => 4 + env@.len() * 2,
        BytecodeInstr::LoadUpvalue { .. } => 3,
        BytecodeInstr::StoreUpvalue { .. } => 3,
        BytecodeInstr::CloseUpvalue { .. } => 2,
        BytecodeInstr::StringLength { .. } => 4,
        BytecodeInstr::StringConcat { .. } => 4,
        BytecodeInstr::StringEqual { .. } => 4,
        BytecodeInstr::StringGetChar { .. } => 4,
        BytecodeInstr::StringFromInt { .. } => 4,
        BytecodeInstr::StringFromFloat { .. } => 4,
        BytecodeInstr::TryBegin { .. } => 4,
        BytecodeInstr::TryEnd => 0,
        BytecodeInstr::Throw { .. } => 2,
        BytecodeInstr::BoundsCheck { .. } => 4,
        BytecodeInstr::TypeCheck { .. } => 4,
        BytecodeInstr::Cast { .. } => 4,
        BytecodeInstr::TypeOf { .. } => 4,
    }
}

impl BytecodeInstr {
    /// The opcode of this instruction.
    pub fn opcode(&self) -> (op: Opcode)
        ensures
            op == opcode_of(*self),
    {
        match self {
            BytecodeInstr::Nop => Opcode::Nop,
            BytecodeInstr::Return => Opcode::Return,
            BytecodeInstr::ReturnValue { .. } => Opcode::ReturnValue,
            BytecodeInstr::Jmp { .. } => Opcode::Jmp,
            BytecodeInstr::JmpIf { .. } => Opcode::JmpIf,
            BytecodeInstr::JmpIfNot { .. } => Opcode::JmpIfNot,
            BytecodeInstr::Switch { .. } => Opcode::Switch,
            BytecodeInstr::Mov { .. } => Opcode::Mov,
            BytecodeInstr::LoadConst { .. } => Opcode::LoadConst,
            BytecodeInstr::LoadLocal { .. } => Opcode::LoadLocal,
            BytecodeInstr::StoreLocal { .. } => Opcode::StoreLocal,
            BytecodeInstr::LoadArg { .. } => Opcode::LoadArg,
            BytecodeInstr::BinaryOp { op, .. } => match op {
                BinaryOp::Add => Opcode::I64Add,
                BinaryOp::Sub => Opcode::I64Sub,
                BinaryOp::Mul => Opcode::I64Mul,
                BinaryOp::Div => Opcode::I64Div,
                BinaryOp::Rem => Opcode::I64Rem,
                BinaryOp::And => Opcode::I64And,
                BinaryOp::Or => Opcode::I64Or,
                BinaryOp::Xor => Opcode::I64Xor,
                BinaryOp::Shl => Opcode::I64Shl,
                BinaryOp::Sar => Opcode::I64Sar,
                BinaryOp::Shr => Opcode::I64Shr,
            },
            BytecodeInstr::UnaryOp { .. } => Opcode::I64Neg,
            BytecodeInstr::Compare { cmp, .. } => match cmp {
                CompareOp::Eq => Opcode::I64Eq,
                CompareOp::Ne => Opcode::I64Ne,
                CompareOp::Lt => Opcode::I64Lt,
                CompareOp::Le => Opcode::I64Le,
                CompareOp::Gt => Opcode::I64Gt,
                CompareOp::Ge => Opcode::I64Ge,
            },
            BytecodeInstr::StackAlloc { .. } => Opcode::StackAlloc,
            BytecodeInstr::HeapAlloc { .. } => Opcode::HeapAlloc,
            BytecodeInstr::Drop { .. } => Opcode::Drop,
            BytecodeInstr::GetField { .. } => Opcode::GetField,
            BytecodeInstr::SetField { .. } => Opcode::SetField,
            BytecodeInstr::LoadElement { .. } => Opcode::LoadElement,
            BytecodeInstr::StoreElement { .. } => Opcode::StoreElement,
            BytecodeInstr::NewListWithCap { .. } => Opcode::NewListWithCap,
            BytecodeInstr::ArcNew { .. } => Opcode::ArcNew,
            BytecodeInstr::ArcClone { .. } => Opcode::ArcClone,
            BytecodeInstr::ArcDrop { .. } => Opcode::ArcDrop,
            BytecodeInstr::CallStatic { .. } => Opcode::CallStatic,
            BytecodeInstr::CallVirt { .. } => Opcode::CallVirt,
            BytecodeInstr::CallDyn { .. } => Opcode::CallDyn,
            BytecodeInstr::MakeClosure { .. } => Opcode::MakeClosure,
            BytecodeInstr::LoadUpvalue { .. } => Opcode::LoadUpvalue,
            BytecodeInstr::StoreUpvalue { .. } => Opcode::StoreUpvalue,
            BytecodeInstr::CloseUpvalue { .. } => Opcode::CloseUpvalue,
            BytecodeInstr::StringLength { .. } => Opcode::StringLength,
            BytecodeInstr::StringConcat { .. } => Opcode::StringConcat,
            BytecodeInstr::StringEqual { .. } => Opcode::StringEqual,
            BytecodeInstr::StringGetChar { .. } => Opcode::StringGetChar,
            BytecodeInstr::StringFromInt { .. } => Opcode::StringFromInt,
            BytecodeInstr::StringFromFloat { .. } => Opcode::StringFromFloat,
            BytecodeInstr::TryBegin { .. } => Opcode::TryBegin,
            BytecodeInstr::TryEnd => Opcode::TryEnd,
            BytecodeInstr::Throw { .. } => Opcode::Throw,
            BytecodeInstr::BoundsCheck { .. } => Opcode::BoundsCheck,
            BytecodeInstr::TypeCheck { .. } => Opcode::TypeCheck,
            BytecodeInstr::Cast { .. } => Opcode::Cast,
            BytecodeInstr::TypeOf { .. } => Opcode::TypeOf,
        }
    }

    /// The encoded size of this instruction in bytes.
    pub fn size(&self) -> (n: usize)
        requires
            instr_size(*self) <= usize::MAX,
        ensures
            n == instr_size(*self),
    {
        match self {
            BytecodeInstr::Nop => 1,
            BytecodeInstr::Return => 1,
            BytecodeInstr::ReturnValue { .. } => 3,
            BytecodeInstr::Jmp { .. } => 5,
            BytecodeInstr::JmpIf { .. } => 5,
            BytecodeInstr::JmpIfNot { .. } => 5,
            BytecodeInstr::Switch { targets, .. } => 3 + targets.len() * 4,
            BytecodeInstr::Mov { .. } => 5,
            BytecodeInstr::LoadConst { .. } => 5,
            BytecodeInstr::LoadLocal { .. } => 4,
            BytecodeInstr::StoreLocal { .. } => 4,
            BytecodeInstr::LoadArg { .. } => 4,
            BytecodeInstr::BinaryOp { .. } => 7,
            BytecodeInstr::UnaryOp { .. } => 5,
            BytecodeInstr::Compare { .. } => 7,
            BytecodeInstr::StackAlloc { .. } => 5,
            BytecodeInstr::HeapAlloc { .. } => 5,
            BytecodeInstr::Drop { .. } => 3,
            BytecodeInstr::GetField { .. } => 5,
            BytecodeInstr::SetField { .. } => 5,
            BytecodeInstr::LoadElement { .. } => 5,
            BytecodeInstr::StoreElement { .. } => 5,
            BytecodeInstr::NewListWithCap { .. } => 5,
            BytecodeInstr::ArcNew { .. } => 5,
            BytecodeInstr::ArcClone { .. } => 5,
            BytecodeInstr::ArcDrop { .. } => 3,
            BytecodeInstr::CallStatic { args, .. } => 5 + args.len() * 2,
            BytecodeInstr::CallVirt { args, .. } => 5 + args.len() * 2,
            BytecodeInstr::CallDyn { args, .. } => 5 + args.len() * 2,
            BytecodeInstr::MakeClosure { env, .. } => 5 + env.len() * 2,
            BytecodeInstr::LoadUpvalue { .. } => 4,
            BytecodeInstr::StoreUpvalue { .. } => 4,
            BytecodeInstr::CloseUpvalue { .. } => 3,
            BytecodeInstr::StringLength { .. } => 5,
            BytecodeInstr::StringConcat { .. } => 5,
            BytecodeInstr::StringEqual { .. } => 5,
            BytecodeInstr::StringGetChar { .. } => 5,
            BytecodeInstr::StringFromInt { .. } => 5,
            BytecodeInstr::StringFromFloat { .. } => 5,
            BytecodeInstr::TryBegin { .. } => 5,
            BytecodeInstr::TryEnd => 1,
            BytecodeInstr::Throw { .. } => 3,
            BytecodeInstr::BoundsCheck { .. } => 5,
            BytecodeInstr::TypeCheck { .. } => 5,
            BytecodeInstr::Cast { .. } => 5,
            BytecodeInstr::TypeOf { .. } => 5,
        }
    }
}

/// Bytecode function.
#[derive(Debug)]
pub struct BytecodeFunction {
    /// Function name
    pub name: String,
    /// Parameter types
    pub params: Vec<IrType>,
    /// Return type
    pub return_type: IrType,
    /// Number of local variables
    pub local_count: usize,
    /// Number of upvalues
    pub upvalue_count: usize,
    /// Instructions
    pub instructions: Vec<BytecodeInstr>,
    /// Label id to instruction index
    pub labels: HashMap<u32, usize>,
    /// Exception handlers (try-catch blocks)
    pub exception_handlers: Vec<ExceptionHandler>,
}

/// Exception handler information.
#[derive(Debug, Clone, Copy)]
pub struct ExceptionHandler {
    /// Try block start label
    pub try_start: Label,
    /// Try block end label
    pub try_end: Label,
    /// Catch block start label
    pub catch_start: Label,
    /// Exception type to catch (0 for all)
    pub exception_type: u16,
}

/// Bytecode module.
#[derive(Debug)]
pub struct BytecodeModule {
    /// Module name
    pub name: String,
    /// Constant pool
    pub constants: Vec<ConstValue>,
    /// Functions defined in this module
    pub functions: Vec<BytecodeFunction>,
    /// Type table
    pub type_table: Vec<IrType>,
    /// Global variables
    pub globals: Vec<GlobalInfo>,
    /// Entry point function index
    pub entry_point: Option<usize>,
}

/// Global variable information.
#[derive(Debug, Clone)]
pub struct GlobalInfo {
    /// Variable name
    pub name: String,
    /// Variable type
    pub type_id: u16,
    /// Initial value (if a compile-time constant)
    pub initializer: Option<ConstValue>,
    /// Whether the global is mutable
    pub is_mutable: bool,
}

impl BytecodeModule {
    /// A module with the given name and nothing in it.
    pub fn new(name: String) -> (m: Self)
        ensures
            m.name == name,
            m.constants@.len() == 0,
            m.functions@.len() == 0,
            m.type_table@.len() == 0,
            m.globals@.len() == 0,
            m.entry_point is None,
    {
        BytecodeModule {
            name,
            constants: Vec::new(),
            functions: Vec::new(),
            type_table: Vec::new(),
            globals: Vec::new(),
            entry_point: None,
        }
    }

    /// Add a constant and return its index (the pool length before, as a
    /// 16-bit index).
    pub fn add_constant(&mut self, value: ConstValue) -> (idx: u16)
        ensures
            idx == old(self).constants@.len() as u16,
            final(self).constants@ == old(self).constants@.push(value),
            final(self).name == old(self).name,
            final(self).functions == old(self).functions,
            final(self).type_table == old(self).type_table,
            final(self).globals == old(self).globals,
            final(self).entry_point == old(self).entry_point,
    {
        let idx = self.constants.len() as u16;
        self.constants.push(value);
        idx
    }

    /// Add a function and return its index.
    pub fn add_function(&mut self, func: BytecodeFunction) -> (idx: usize)
        ensures
            idx == old(self).functions@.len(),
            final(self).functions@ == old(self).functions@.push(func),
            final(self).name == old(self).name,
            final(self).constants == old(self).constants,
            final(self).type_table == old(self).type_table,
            final(self).globals == old(self).globals,
            final(self).entry_point == old(self).entry_point,
    {
        let idx = self.functions.len();
        self.functions.push(func);
        idx
    }
}

/// The module read from an encoded file, without decoding its code: each
/// function keeps its name and local count, has no instructions, labels or
/// handlers yet, and every parameter, return and table type is recorded as
/// `Void`; the entry point is the header's when it is positive.
pub open spec fn module_read(file: BytecodeFile, m: BytecodeModule) -> bool {
    &&& m.name@ == "main"@
    &&& m.constants == file.const_pool
    &&& m.functions@.len() == file.code_section.functions@.len()
    &&& forall|i: int| 0 <= i < m.functions@.len() ==> {
        let f = #[trigger] m.functions@[i];
        let src = file.code_section.functions@[i];
        &&& f.name == src.name
        &&& f.params@.len() == src.params@.len()
        &&& forall|k: int| 0 <= k < f.params@.len() ==> f.params@[k] == IrType::Void
        &&& f.return_type == IrType::Void
        &&& f.local_count == src.local_count
        &&& f.upvalue_count == 0
        &&& f.instructions@.len() == 0
        &&& f.labels@ == Map::<u32, usize>::empty()
        &&& f.exception_handlers@.len() == 0
    }
    &&& m.type_table@.len() == file.type_table@.len()
    &&& forall|k: int| 0 <= k < m.type_table@.len() ==> m.type_table@[k] == IrType::Void
    &&& m.globals@.len() == 0
    &&& m.entry_point == (if file.header.entry_point > 0 {
        Some(file.header.entry_point as usize)
    } else {
        None
    })
}

/// `n` void types.
fn void_types(n: usize) -> (v: Vec<IrType>)
    ensures
        v@.len() == n,
        forall|k: int| 0 <= k < n ==> v@[k] == IrType::Void,
{
    let mut v: Vec<IrType> = Vec::new();
    let mut i: usize = 0;
    while i < n
        invariant
            i <= n,
            v@.len() == i,
            forall|k: int| 0 <= k < i ==> v@[k] == IrType::Void,
        decreases n - i,
    {
        v.push(IrType::Void);
        i = i + 1;
    }
    v
}

impl BytecodeModule {
    /// Reads a module from an encoded file (see [`module_read`]).
    pub fn from_file(file: BytecodeFile) -> (m: BytecodeModule)
        ensures
            module_read(file, m),
    {
        let ghost orig = file;
        let BytecodeFile { header, type_table, const_pool, code_section, vtables: _ } = file;
        let CodeSection { functions: codes } = code_section;
        let ghost src = codes@;
        let mut rest = codes;
        let mut functions: Vec<BytecodeFunction> = Vec::new();
        while rest.len() > 0
            invariant
                functions@.len() + rest@.len() == src.len(),
                rest@ == src.skip(functions@.len() as int),
                forall|i: int| 0 <= i < functions@.len() ==> {
                    let f = #[trigger] functions@[i];
                    &&& f.name == src[i].name
                    &&& f.params@.len() == src[i].params@.len()
                    &&& forall|k: int| 0 <= k < f.params@.len() ==> f.params@[k] == IrType::Void
                    &&& f.return_type == IrType::Void
                    &&& f.local_count == src[i].local_count
                    &&& f.upvalue_count == 0
                    &&& f.instructions@.len() == 0
                    &&& f.labels@ == Map::<u32, usize>::empty()
                    &&& f.exception_handlers@.len() == 0
                },
            decreases rest@.len(),
        {
            let code = rest.remove(0);
            assert(code == src[functions@.len() as int]);
            let FunctionCode { name, params, return_type: _, instructions: _, local_count, debug_map: _ } = code;
            let f = BytecodeFunction {
                name,
                params: void_types(params.len()),
                return_type: IrType::Void,
                local_count,
                upvalue_count: 0,
                instructions: Vec::new(),
                labels: HashMap::new(),
                exception_handlers: Vec::new(),
            };
            functions.push(f);
            assert(rest@ =~= src.skip(functions@.len() as int));
        }
        let entry_point = if header.entry_point > 0 {
            Some(header.entry_point as usize)
        } else {
            None
        };
        BytecodeModule {
            name: String::from_str("main"),
            constants: const_pool,
            functions,
            type_table: void_types(type_table.len()),
            globals: Vec::new(),
            entry_point,
        }
    }
}

} // verus!
