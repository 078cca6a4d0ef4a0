//! High-level intermediate representation: types, constants, operands,
//! instructions, basic blocks and functions.
use vstd::prelude::*;
use crate::frontend::typecheck::MonoType;
use crate::frontend::symbol::DefId;
use crate::util::span::Span;
use crate::util::str_map::StrMap;

verus! {

/// Types as the IR and the bytecode tables record them.
#[derive(Debug)]
pub enum Type {
    Void,
    Bool,
    Char,
    Int(usize),
    Float(usize),
    String,
    Bytes,
    Tuple(Vec<Type>),
    Fn { params: Vec<Type>, return_type: Box<Type> },
}

/// Constant value.
///
/// A floating-point constant is held by its IEEE-754 bit pattern, which is
/// also what its equality and hashing go by.
#[derive(Debug, Clone, PartialEq, Eq, Hash)]
pub enum ConstValue {
    Void,
    Bool(bool),
    Int(i128),
    Float(u64),
    Char(char),
    String(String),
    Bytes(Vec<u8>),
    LibraryRef { mechanism: String, lib: String },
    ExternRef { mechanism: String, lib: String, symbol: String },
}


/// `t` is the IR type that the monomorphic type `m` lowers to.
///
/// Integers, floats, booleans, chars, void and function types map to their
/// IR counterparts; the generic applications `String`, `Bytes` and `Tuple`
/// map to `String`, `Bytes` and a tuple of the lowered arguments. Every
/// other form (structs, enums, references, type variables, unions, the
/// older dedicated container forms, other generics) has no IR form and
/// lowers to `Void`.
pub open spec fn lowers_to(m: MonoType, t: Type) -> bool
    decreases m,
{
    match m {
        MonoType::Int(w) => t == Type::Int(w),
        MonoType::Float(w) => t == Type::Float(w),
        MonoType::Bool => t == Type::Bool,
        MonoType::Char => t == Type::Char,
        MonoType::Void => t == Type::Void,
        MonoType::Fn { params, return_type } => {
            &&& t matches Type::Fn { params: tps, return_type: tr }
            &&& tps@.len() == params@.len()
            &&& forall|i: int| 0 <= i < params@.len() ==> lowers_to(#[trigger] params@[i], tps@[i])
            &&& lowers_to(*return_type, *tr)
        },
        MonoType::Generic { name, args } => {
            if name@ == "String"@ {
                t == Type::String
            } else if name@ == "Bytes"@ {
                t == Type::Bytes
            } else if name@ == "Tuple"@ {
                &&& t matches Type::Tuple(items)
                &&& items@.len() == args@.len()
                &&& forall|i: int| 0 <= i < args@.len() ==> lowers_to(#[trigger] args@[i], items@[i])
            } else {
                t == Type::Void
            }
        },
        _ => t == Type::Void,
    }
}

impl Type {
    /// Lower a monomorphic type to its IR type.
    pub fn from_mono(ty: MonoType) -> (t: Type)
        ensures
            lowers_to(ty, t),
        decreases ty,
    {
        let ghost whole = ty;
        match ty {
            MonoType::Int(w) => Type::Int(w),
            MonoType::Float(w) => Type::Float(w),
            MonoType::Bool => Type::Bool,
            MonoType::Char => Type::Char,
            MonoType::Void => Type::Void,
            MonoType::Fn { params, return_type } => {
                let tps = Self::from_mono_list(params, Ghost(whole));
                let tr = Self::from_mono(*return_type);
                Type::Fn { params: tps, return_type: Box::new(tr) }
            },
            MonoType::Generic { name, args } => {
                if name == String::from_str("String") {
                    Type::String
                } else if name == String::from_str("Bytes") {
                    Type::Bytes
                } else if name == String::from_str("Tuple") {
                    Type::Tuple(Self::from_mono_list(args, Ghost(whole)))
                } else {
                    Type::Void
                }
            },
            _ => Type::Void,
        }
    }

    /// Lower a list of monomorphic types, element by element.
    pub fn lower_all(items: Vec<MonoType>) -> (out: Vec<Type>)
        ensures
            out@.len() == items@.len(),
            forall|i: int| 0 <= i < items@.len() ==> lowers_to(#[trigger] items@[i], out@[i]),
    {
        let ghost orig = items@;
        let mut rest = items;
        let mut out: Vec<Type> = Vec::new();
        while rest.len() > 0
            invariant
                out@.len() + rest@.len() == orig.len(),
                rest@ == orig.skip(out@.len() as int),
                forall|i: int| 0 <= i < out@.len() ==> lowers_to(#[trigger] orig[i], out@[i]),
            decreases rest@.len(),
        {
            let x = rest.remove(0);
            assert(x == orig[out@.len() as int]);
            let t = Self::from_mono(x);
            out.push(t);
            assert(rest@ =~= orig.skip(out@.len() as int));
        }
        out
    }

    fn from_mono_list(items: Vec<MonoType>, Ghost(whole): Ghost<MonoType>) -> (out: Vec<Type>)
        requires
            (whole matches MonoType::Fn { params, .. } && params == items)
                || (whole matches MonoType::Generic { args, .. } && args == items),
        ensures
            out@.len() == items@.len(),
            forall|i: int| 0 <= i < items@.len() ==> lowers_to(#[trigger] items@[i], out@[i]),
        decreases whole, 0nat,
    {
        let ghost orig = items@;
        let mut rest = items;
        let mut out: Vec<Type> = Vec::new();
        while rest.len() > 0
            invariant
                (whole matches MonoType::Fn { params, .. } && params@ == orig)
                    || (whole matches MonoType::Generic { args, .. } && args@ == orig),
                out@.len() + rest@.len() == orig.len(),
                rest@ == orig.skip(out@.len() as int),
                forall|i: int| 0 <= i < out@.len() ==> lowers_to(#[trigger] orig[i], out@[i]),
            decreases rest@.len(),
        {
            let x = rest.remove(0);
            proof {
                assert(x == orig[out@.len() as int]);
                assert(decreases_to!(whole => x));
            }
            let t = Self::from_mono(x);
            out.push(t);
            assert(rest@ =~= orig.skip(out@.len() as int));
        }
        out
    }
}


/// Instruction operand.
#[derive(Debug, Clone, PartialEq, Eq, Hash)]
pub enum Operand {
    Const(ConstValue),
    Local(usize),
    Arg(usize),
    Temp(usize),
    Global(usize),
    Label(usize),
    Register(u8),
}

/// A group of tasks that may run in parallel; groups run one after another.
#[derive(Debug, Clone)]
pub struct TaskGroup {
    /// Indices of this group's tasks in the closure list.
    pub task_indices: Vec<usize>,
}

/// Compile-time execution plan of a spawn block.
///
/// `groups` is in topological order (group 0 runs first); `task_deps[i]`
/// lists the tasks task `i` depends on, `task_resources[i]` the resource
/// variables it uses.
#[derive(Debug, Clone)]
pub struct ExecutionPlan {
    pub groups: Vec<TaskGroup>,
    pub task_deps: Vec<Vec<usize>>,
    pub task_resources: Vec<Vec<String>>,
}

/// IR instruction; each carries the source span it was generated from.
#[derive(Debug)]
pub enum Instruction {
    Move { dst: Operand, src: Operand, span: Span },
    Load { dst: Operand, src: Operand, span: Span },
    Store { dst: Operand, src: Operand, span: Span },
    Push { src: Operand, span: Span },
    Pop { dst: Operand, span: Span },
    Dup { span: Span },
    Swap { span: Span },
    Add { dst: Operand, lhs: Operand, rhs: Operand, span: Span },
    Sub { dst: Operand, lhs: Operand, rhs: Operand, span: Span },
    Mul { dst: Operand, lhs: Operand, rhs: Operand, span: Span },
    Div { dst: Operand, lhs: Operand, rhs: Operand, span: Span },
    Mod { dst: Operand, lhs: Operand, rhs: Operand, span: Span },
    And { dst: Operand, lhs: Operand, rhs: Operand, span: Span },
    Or { dst: Operand, lhs: Operand, rhs: Operand, span: Span },
    Xor { dst: Operand, lhs: Operand, rhs: Operand, span: Span },
    Shl { dst: Operand, lhs: Operand, rhs: Operand, span: Span },
    Shr { dst: Operand, lhs: Operand, rhs: Operand, span: Span },
    Sar { dst: Operand, lhs: Operand, rhs: Operand, span: Span },
    Neg { dst: Operand, src: Operand, span: Span },
    Not { dst: Operand, src: Operand, span: Span },
    Eq { dst: Operand, lhs: Operand, rhs: Operand, span: Span },
    Ne { dst: Operand, lhs: Operand, rhs: Operand, span: Span },
    Lt { dst: Operand, lhs: Operand, rhs: Operand, span: Span },
    Le { dst: Operand, lhs: Operand, rhs: Operand, span: Span },
    Gt { dst: Operand, lhs: Operand, rhs: Operand, span: Span },
    Ge { dst: Operand, lhs: Operand, rhs: Operand, span: Span },
    Jmp { target: usize, span: Span },
    JmpIf { cond: Operand, target: usize, span: Span },
    JmpIfNot { cond: Operand, target: usize, span: Span },
    Call { dst: Option<Operand>, func: Operand, args: Vec<Operand>, def: Option<DefId>, span: Span },
    CallVirt { dst: Option<Operand>, obj: Operand, method_name: String, args: Vec<Operand>, span: Span },
    CallDyn { dst: Option<Operand>, func: Operand, args: Vec<Operand>, span: Span },
    TailCall { func: Operand, args: Vec<Operand>, def: Option<DefId>, span: Span },
    Ret { value: Option<Operand>, span: Span },
    Alloc { dst: Operand, size: Operand, span: Span },
    Free { src: Operand, span: Span },
    AllocArray { dst: Operand, size: Operand, elem_size: Operand, span: Span },
    AllocFixedArray { dst: Operand, count: usize, span: Span },
    LoadField { dst: Operand, src: Operand, field: usize, span: Span },
    StoreField { dst: Operand, field: usize, src: Operand, struct_name: Option<String>, field_name: Option<String>, span: Span },
    LoadIndex { dst: Operand, src: Operand, index: Operand, span: Span },
    StoreIndex { dst: Operand, index: Operand, src: Operand, span: Span },
    Contains { dst: Operand, elem: Operand, container: Operand, span: Span },
    Cast { dst: Operand, src: Operand, target_type: Type, span: Span },
    TypeTest { src: Operand, ty: Type, span: Span },
    Spawn { closures: Vec<Operand>, plan: ExecutionPlan, result: Operand, span: Span },
    SpawnFromList { closures_list: Operand, plan: ExecutionPlan, result: Operand, span: Span },
    Yield { span: Span },
    HeapAlloc { dst: Operand, type_id: usize, span: Span },
    CreateStruct { dst: Operand, struct_name: String, fields: Vec<Operand>, span: Span },
    NewDict { dst: Operand, keys: Vec<Operand>, values: Vec<Operand>, span: Span },
    NewTuple { dst: Operand, items: Vec<Operand>, span: Span },
    NewRange { dst: Operand, start: Operand, end: Operand, step: Operand, span: Span },
    CreateVariant { dst: Operand, group: String, variant: u32, payload: Operand, span: Span },
    VariantTag { dst: Operand, obj: Operand, group: String, span: Span },
    VariantPayload { dst: Operand, obj: Operand, group: String, span: Span },
    MakeClosure { dst: Operand, func: String, def: Option<DefId>, env: Vec<Operand>, span: Span },
    Drop { src: Operand, span: Span },
    ArcNew { dst: Operand, src: Operand, span: Span },
    RcNew { dst: Operand, src: Operand, span: Span },
    ArcClone { dst: Operand, src: Operand, span: Span },
    ArcDrop { src: Operand, span: Span },
    UnsafeBlockStart { span: Span },
    UnsafeBlockEnd { span: Span },
    PtrFromRef { dst: Operand, src: Operand, span: Span },
    PtrDeref { dst: Operand, src: Operand, span: Span },
    PtrStore { dst: Operand, src: Operand, span: Span },
    PtrLoad { dst: Operand, src: Operand, span: Span },
    StringLength { dst: Operand, src: Operand, span: Span },
    StringConcat { dst: Operand, lhs: Operand, rhs: Operand, span: Span },
    StringGetChar { dst: Operand, src: Operand, index: Operand, span: Span },
    StringFromInt { dst: Operand, src: Operand, span: Span },
    StringFromFloat { dst: Operand, src: Operand, span: Span },
    LoadUpvalue { dst: Operand, upvalue_idx: usize, span: Span },
    StoreUpvalue { src: Operand, upvalue_idx: usize, span: Span },
    CloseUpvalue { src: Operand, span: Span },
}

/// The source span an instruction carries.
pub open spec fn span_of(instr: Instruction) -> Span {
    match instr {
        Instruction::Move { span, .. } => span,
        Instruction::Load { span, .. } => span,
        Instruction::Store { span, .. } => span,
        Instruction::Push { span, .. } => span,
        Instruction::Pop { span, .. } => span,
        Instruction::Dup { span, .. } => span,
        Instruction::Swap { span, .. } => span,
        Instruction::Add { span, .. } => span,
        Instruction::Sub { span, .. } => span,
        Instruction::Mul { span, .. } => span,
        Instruction::Div { span, .. } => span,
        Instruction::Mod { span, .. } => span,
        Instruction::And { span, .. } => span,
        Instruction::Or { span, .. } => span,
        Instruction::Xor { span, .. } => span,
        Instruction::Shl { span, .. } => span,
        Instruction::Shr { span, .. } => span,
        Instruction::Sar { span, .. } => span,
        Instruction::Neg { span, .. } => span,
        Instruction::Not { span, .. } => span,
        Instruction::Eq { span, .. } => span,
        Instruction::Ne { span, .. } => span,
        Instruction::Lt { span, .. } => span,
        Instruction::Le { span, .. } => span,
        Instruction::Gt { span, .. } => span,
        Instruction::Ge { span, .. } => span,
        Instruction::Jmp { span, .. } => span,
        Instruction::JmpIf { span, .. } => span,
        Instruction::JmpIfNot { span, .. } => span,
        Instruction::Call { span, .. } => span,
        Instruction::CallVirt { span, .. } => span,
        Instruction::CallDyn { span, .. } => span,
        Instruction::TailCall { span, .. } => span,
        Instruction::Ret { span, .. } => span,
        Instruction::Alloc { span, .. } => span,
        Instruction::Free { span, .. } => span,
        Instruction::AllocArray { span, .. } => span,
        Instruction::AllocFixedArray { span, .. } => span,
        Instruction::LoadField { span, .. } => span,
        Instruction::StoreField { span, .. } => span,
        Instruction::LoadIndex { span, .. } => span,
        Instruction::StoreIndex { span, .. } => span,
        Instruction::Contains { span, .. } => span,
        Instruction::Cast { span, .. } => span,
        Instruction::TypeTest { span, .. } => span,
        Instruction::Spawn { span, .. } => span,
        Instruction::SpawnFromList { span, .. } => span,
        Instruction::Yield { span, .. } => span,
        Instruction::HeapAlloc { span, .. } => span,
        Instruction::CreateStruct { span, .. } => span,
        Instruction::NewDict { span, .. } => span,
        Instruction::NewTuple { span, .. } => span,
        Instruction::NewRange { span, .. } => span,
        Instruction::CreateVariant { span, .. } => span,
        Instruction::VariantTag { span, .. } => span,
        Instruction::VariantPayload { span, .. } => span,
        Instruction::MakeClosure { span, .. } => span,
        Instruction::Drop { span, .. } => span,
        Instruction::ArcNew { span, .. } => span,
        Instruction::RcNew { span, .. } => span,
        Instruction::ArcClone { span, .. } => span,
        Instruction::ArcDrop { span, .. } => span,
        Instruction::UnsafeBlockStart { span, .. } => span,
        Instruction::UnsafeBlockEnd { span, .. } => span,
        Instruction::PtrFromRef { span, .. } => span,
        Instruction::PtrDeref { span, .. } => span,
        Instruction::PtrStore { span, .. } => span,
        Instruction::PtrLoad { span, .. } => span,
        Instruction::StringLength { span, .. } => span,
        Instruction::StringConcat { span, .. } => span,
        Instruction::StringGetChar { span, .. } => span,
        Instruction::StringFromInt { span, .. } => span,
        Instruction::StringFromFloat { span, .. } => span,
        Instruction::LoadUpvalue { span, .. } => span,
        Instruction::StoreUpvalue { span, .. } => span,
        Instruction::CloseUpvalue { span, .. } => span,
    }
}

impl Instruction {
    /// The instruction's source span.
    pub fn span(&self) -> (s: Span)
        ensures
            s == span_of(*self),
    {
        match self {
            Instruction::Move { span, .. } => *span,
            Instruction::Load { span, .. } => *span,
            Instruction::Store { span, .. } => *span,
            Instruction::Push { span, .. } => *span,
            Instruction::Pop { span, .. } => *span,
            Instruction::Dup { span, .. } => *span,
            Instruction::Swap { span, .. } => *span,
            Instruction::Add { span, .. } => *span,
            Instruction::Sub { span, .. } => *span,
            Instruction::Mul { span, .. } => *span,
            Instruction::Div { span, .. } => *span,
            Instruction::Mod { span, .. } => *span,
            Instruction::And { span, .. } => *span,
            Instruction::Or { span, .. } => *span,
            Instruction::Xor { span, .. } => *span,
            Instruction::Shl { span, .. } => *span,
            Instruction::Shr { span, .. } => *span,
            Instruction::Sar { span, .. } => *span,
            Instruction::Neg { span, .. } => *span,
            Instruction::Not { span, .. } => *span,
            Instruction::Eq { span, .. } => *span,
            Instruction::Ne { span, .. } => *span,
            Instruction::Lt { span, .. } => *span,
            Instruction::Le { span, .. } => *span,
            Instruction::Gt { span, .. } => *span,
            Instruction::Ge { span, .. } => *span,
            Instruction::Jmp { span, .. } => *span,
            Instruction::JmpIf { span, .. } => *span,
            Instruction::JmpIfNot { span, .. } => *span,
            Instruction::Call { span, .. } => *span,
            Instruction::CallVirt { span, .. } => *span,
            Instruction::CallDyn { span, .. } => *span,
            Instruction::TailCall { span, .. } => *span,
            Instruction::Ret { span, .. } => *span,
            Instruction::Alloc { span, .. } => *span,
            Instruction::Free { span, .. } => *span,
            Instruction::AllocArray { span, .. } => *span,
            Instruction::AllocFixedArray { span, .. } => *span,
            Instruction::LoadField { span, .. } => *span,
            Instruction::StoreField { span, .. } => *span,
            Instruction::LoadIndex { span, .. } => *span,
            Instruction::StoreIndex { span, .. } => *span,
            Instruction::Contains { span, .. } => *span,
            Instruction::Cast { span, .. } => *span,
            Instruction::TypeTest { span, .. } => *span,
            Instruction::Spawn { span, .. } => *span,
            Instruction::SpawnFromList { span, .. } => *span,
            Instruction::Yield { span, .. } => *span,
            Instruction::HeapAlloc { span, .. } => *span,
            Instruction::CreateStruct { span, .. } => *span,
            Instruction::NewDict { span, .. } => *span,
            Instruction::NewTuple { span, .. } => *span,
            Instruction::NewRange { span, .. } => *span,
            Instruction::CreateVariant { span, .. } => *span,
            Instruction::VariantTag { span, .. } => *span,
            Instruction::VariantPayload { span, .. } => *span,
            Instruction::MakeClosure { span, .. } => *span,
            Instruction::Drop { span, .. } => *span,
            Instruction::ArcNew { span, .. } => *span,
            Instruction::RcNew { span, .. } => *span,
            Instruction::ArcClone { span, .. } => *span,
            Instruction::ArcDrop { span, .. } => *span,
            Instruction::UnsafeBlockStart { span, .. } => *span,
            Instruction::UnsafeBlockEnd { span, .. } => *span,
            Instruction::PtrFromRef { span, .. } => *span,
            Instruction::PtrDeref { span, .. } => *span,
            Instruction::PtrStore { span, .. } => *span,
            Instruction::PtrLoad { span, .. } => *span,
            Instruction::StringLength { span, .. } => *span,
            Instruction::StringConcat { span, .. } => *span,
            Instruction::StringGetChar { span, .. } => *span,
            Instruction::StringFromInt { span, .. } => *span,
            Instruction::StringFromFloat { span, .. } => *span,
            Instruction::LoadUpvalue { span, .. } => *span,
            Instruction::StoreUpvalue { span, .. } => *span,
            Instruction::CloseUpvalue { span, .. } => *span,
        }
    }
}

/// Basic block.
#[derive(Debug)]
pub struct BasicBlock {
    pub label: usize,
    pub instructions: Vec<Instruction>,
    pub successors: Vec<usize>,
}

/// The body of a function: code (when it returns a value) or a type
/// literal (when it returns a type).
#[derive(Debug)]
pub enum FunctionBody {
    /// Code: basic blocks, the entry block and the local slots.
    Code { blocks: Vec<BasicBlock>, entry: usize, locals: Vec<LocalSlot> },
    /// A type literal (field or variant list).
    TypeDecl { definition: Type },
}

/// A local variable slot: type, source name and scope depth.
///
/// `name` is `None` for a compiler temporary with no source variable.
#[derive(Debug)]
pub struct LocalSlot {
    /// Source variable name; `None` for a temporary
    pub name: Option<String>,
    pub ty: MonoType,
    /// Scope depth (0 = the parameter level)
    pub scope_depth: usize,
}

impl LocalSlot {
    /// An unnamed slot (a compiler temporary) at depth 0.
    pub fn temp(ty: MonoType) -> (s: Self)
        ensures
            s.name is None,
            s.ty == ty,
            s.scope_depth == 0,
    {
        LocalSlot { name: None, ty, scope_depth: 0 }
    }
}

/// The instructions of a list of blocks, block after block.
pub open spec fn block_instructions(blocks: Seq<BasicBlock>) -> Seq<Instruction>
    decreases blocks.len(),
{
    if blocks.len() == 0 {
        Seq::empty()
    } else {
        block_instructions(blocks.drop_last()) + blocks.last().instructions@
    }
}

/// Function IR.
#[derive(Debug)]
pub struct FunctionIR {
    pub name: String,
    /// Binding identity, where one was assigned
    pub def: Option<DefId>,
    pub params: Vec<MonoType>,
    pub return_type: MonoType,
    pub body: FunctionBody,
    /// Generic parameter names of a generic definition; `None` for an
    /// ordinary or specialised function
    pub generic_params: Option<Vec<String>>,
}

impl FunctionIR {
    /// The basic blocks of a code body; none for a type declaration.
    pub open spec fn spec_blocks(&self) -> Seq<BasicBlock> {
        match self.body {
            FunctionBody::Code { blocks, .. } => blocks@,
            FunctionBody::TypeDecl { .. } => Seq::empty(),
        }
    }

    /// All instructions, block after block; none for a type declaration.
    pub fn all_instructions(&self) -> (out: Vec<&Instruction>)
        ensures
            out@.unref() == block_instructions(self.spec_blocks()),
    {
        let mut out: Vec<&Instruction> = Vec::new();
        match &self.body {
            FunctionBody::Code { blocks, .. } => {
                let mut b: usize = 0;
                while b < blocks.len()
                    invariant
                        b <= blocks@.len(),
                        blocks@ == self.spec_blocks(),
                        out@.unref() == block_instructions(blocks@.take(b as int)),
                    decreases blocks@.len() - b,
                {
                    let block = &blocks[b];
                    let ghost before = out@.unref();
                    let mut i: usize = 0;
                    while i < block.instructions.len()
                        invariant
                            i <= block.instructions@.len(),
                            out@.unref() == before + block.instructions@.take(i as int),
                        decreases block.instructions@.len() - i,
                    {
                        let ghost prev = out@;
                        out.push(&block.instructions[i]);
                        assert(out@.unref() =~= prev.unref().push(block.instructions@[i as int]));
                        assert(block.instructions@.take(i + 1) =~= block.instructions@.take(
                            i as int,
                        ).push(block.instructions@[i as int]));
                        i = i + 1;
                    }
                    assert(blocks@.take(b + 1).drop_last() =~= blocks@.take(b as int));
                    assert(block.instructions@.take(i as int) =~= block.instructions@);
                    b = b + 1;
                }
                assert(blocks@.take(b as int) =~= blocks@);
            },
            FunctionBody::TypeDecl { .. } => {},
        }
        out
    }

    /// The basic blocks of a code body; none for a type declaration.
    pub fn blocks(&self) -> (r: &[BasicBlock])
        ensures
            r@ == self.spec_blocks(),
    {
        match &self.body {
            FunctionBody::Code { blocks, .. } => blocks.as_slice(),
            FunctionBody::TypeDecl { .. } => &[],
        }
    }

    /// Mutable access to the basic blocks of a code body.
    pub fn blocks_mut(&mut self) -> (r: &mut Vec<BasicBlock>)
        requires
            old(self).body is Code,
        ensures
            *r == old(self).body->blocks,
            final(self).body == (FunctionBody::Code {
                blocks: *final(r),
                entry: old(self).body->entry,
                locals: old(self).body->locals,
            }),
            final(self).name == old(self).name,
            final(self).def == old(self).def,
            final(self).params == old(self).params,
            final(self).return_type == old(self).return_type,
            final(self).generic_params == old(self).generic_params,
    {
        match &mut self.body {
            FunctionBody::Code { blocks, .. } => blocks,
            FunctionBody::TypeDecl { .. } => vstd::pervasive::unreached(),
        }
    }

    /// The local slots of a code body; none for a type declaration.
    pub fn locals(&self) -> (r: &[LocalSlot])
        ensures
            r@ == match self.body {
                FunctionBody::Code { locals, .. } => locals@,
                FunctionBody::TypeDecl { .. } => Seq::<LocalSlot>::empty(),
            },
    {
        match &self.body {
            FunctionBody::Code { locals, .. } => locals.as_slice(),
            FunctionBody::TypeDecl { .. } => &[],
        }
    }

    /// The entry block index of a code body; 0 for a type declaration.
    pub fn entry(&self) -> (e: usize)
        ensures
            e == match self.body {
                FunctionBody::Code { entry, .. } => entry,
                FunctionBody::TypeDecl { .. } => 0,
            },
    {
        match &self.body {
            FunctionBody::Code { entry, .. } => *entry,
            FunctionBody::TypeDecl { .. } => 0,
        }
    }

    /// Whether the body is a type declaration rather than code.
    pub fn is_type_decl(&self) -> (b: bool)
        ensures
            b == (self.body is TypeDecl),
    {
        match &self.body {
            FunctionBody::TypeDecl { .. } => true,
            FunctionBody::Code { .. } => false,
        }
    }
}

/// An external library linked at compile time.
#[derive(Debug, Clone)]
pub struct FfiLibBinding {
    pub id: usize,
    pub mechanism: String,
    pub lib_name: String,
}

/// A binding to an opaque external type or an external function.
#[derive(Debug, Clone)]
pub enum FfiBinding {
    /// Opaque type bound to a library symbol.
    TypeBinding { bound_type: String, lib_id: usize, symbol: String },
    /// Function bound to a library symbol.
    FuncBinding { func_name: String, lib_id: usize, symbol: String },
}

/// A module-level global slot (a top-level binding), read through
/// `Operand::Global(index)`.
#[derive(Debug)]
pub struct GlobalSlot {
    /// Binding name (qualified as `{module}.{name}` across files)
    pub name: String,
    pub ty: MonoType,
    /// Absolute slot number
    pub index: usize,
}

/// Module IR.
#[derive(Debug)]
pub struct ModuleIR {
    /// Global slots; the index is the `Operand::Global` slot number.
    pub globals: Vec<GlobalSlot>,
    pub functions: Vec<FunctionIR>,
    /// Initialisation sequence writing the global slots, in dependency order.
    pub init: Vec<Instruction>,
    pub ffi_libs: Vec<FfiLibBinding>,
    pub ffi_bindings: Vec<FfiBinding>,
    /// Qualified name of the entry function; `None` means `main`.
    pub entry_function: Option<String>,
    /// Source files in discovery order; the index is a span's file id.
    pub source_files: Vec<String>,
    /// Function name to source file index.
    pub function_files: StrMap<usize>,
}

impl Default for ModuleIR {
    fn default() -> (m: Self)
        ensures
            m.globals@.len() == 0,
            m.functions@.len() == 0,
            m.init@.len() == 0,
            m.ffi_libs@.len() == 0,
            m.ffi_bindings@.len() == 0,
            m.entry_function is None,
            m.source_files@.len() == 0,
            m.function_files.wf(),
            m.function_files@ == Map::<Seq<char>, usize>::empty(),
    {
        ModuleIR {
            globals: Vec::new(),
            functions: Vec::new(),
            init: Vec::new(),
            ffi_libs: Vec::new(),
            ffi_bindings: Vec::new(),
            entry_function: None,
            source_files: Vec::new(),
            function_files: StrMap::new(),
        }
    }
}

} // verus!
