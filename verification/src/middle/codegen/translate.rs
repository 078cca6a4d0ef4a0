//! Translation of IR instructions into encoded bytecode records.
use vstd::prelude::*;
use crate::backends::common::opcode;
use crate::middle::codegen::{CodegenContext, CodegenError};
use crate::middle::core_ir::ir::{ConstValue, Instruction, Operand};
use crate::middle::passes::codegen::bytecode::BytecodeInstruction;
use crate::middle::core_ir::bytecode::{BinaryOp, BytecodeInstr, CompareOp, Reg, UnaryOp};
use crate::middle::core_ir::decode::{compare_instr, decoded_ok, Decoded};

verus! {

/// The register byte of an operand: locals, temporaries and arguments are
/// registers numbered by their id (as 8 bits); other operands are none.
pub open spec fn reg_of(o: Operand) -> Option<u8> {
    match o {
        Operand::Local(id) => Some(id as u8),
        Operand::Temp(id) => Some(id as u8),
        Operand::Arg(id) => Some(id as u8),
        _ => None,
    }
}

/// Little-endian bytes of a 16-bit value.
pub open spec fn bytes16(n: u16) -> Seq<u8> {
    seq![(n % 256) as u8, (n / 256) as u8]
}

/// Little-endian bytes of a 32-bit value.
pub open spec fn bytes32(n: u32) -> Seq<u8> {
    seq![(n % 256) as u8, ((n / 256) % 256) as u8, ((n / 65536) % 256) as u8, (n / 16777216) as u8]
}

/// What translating an instruction gives.
pub enum Translation {
    /// An encoded record: opcode and operand bytes.
    Encoded(u8, Seq<u8>),
    /// An operand that should be a register is not one.
    InvalidOperand,
    /// An instruction kind without an encoding, by name.
    Unsupported(Seq<char>),
}

/// One register operand followed by `tail`.
pub open spec fn enc1(op: u8, a: Operand, tail: Seq<u8>) -> Translation {
    match reg_of(a) {
        Some(x) => Translation::Encoded(op, seq![x] + tail),
        None => Translation::InvalidOperand,
    }
}

/// Two register operands followed by `tail`.
pub open spec fn enc2(op: u8, a: Operand, b: Operand, tail: Seq<u8>) -> Translation {
    match (reg_of(a), reg_of(b)) {
        (Some(x), Some(y)) => Translation::Encoded(op, seq![x, y] + tail),
        _ => Translation::InvalidOperand,
    }
}

/// Three register operands followed by `tail`.
pub open spec fn enc3(op: u8, a: Operand, b: Operand, c: Operand, tail: Seq<u8>) -> Translation {
    match (reg_of(a), reg_of(b), reg_of(c)) {
        (Some(x), Some(y), Some(z)) => Translation::Encoded(op, seq![x, y, z] + tail),
        _ => Translation::InvalidOperand,
    }
}

/// The base argument register of a call: the first argument's, or 0 when
/// there are no arguments.
pub open spec fn base_reg(args: Seq<Operand>) -> Option<u8> {
    if args.len() == 0 {
        Some(0u8)
    } else {
        reg_of(args[0])
    }
}

/// The destination register of a call: 0 when the result is dropped.
pub open spec fn call_dst_reg(dst: Option<Operand>) -> Option<u8> {
    match dst {
        Some(d) => reg_of(d),
        None => Some(0u8),
    }
}

/// The function id of a call: an integer constant (as 32 bits); a string
/// constant (a function name) is added to the constant pool, at index
/// `pool_len`, and its index used; anything else is 0.
pub open spec fn call_func_id(func: Operand, pool_len: nat) -> u32 {
    match func {
        Operand::Const(ConstValue::Int(i)) => i as u32,
        Operand::Const(ConstValue::String(_)) => pool_len as u32,
        _ => 0,
    }
}

/// The function id of a closure: the index recorded for its function's
/// name (as 32 bits), or 0 when none is.
pub open spec fn closure_func_id(functions: Map<Seq<char>, usize>, name: Seq<char>) -> u32 {
    if functions.contains_key(name) {
        functions[name] as u32
    } else {
        0
    }
}

/// The encoded record of an instruction, given the constant pool's length
/// and the function indices.
pub open spec fn translation(instr: Instruction, pool_len: nat, functions: Map<Seq<char>, usize>) -> Translation {
    match instr {
        Instruction::Load { dst, src, .. } => match src {
            Operand::Const(_) => match reg_of(dst) {
                Some(d) => Translation::Encoded(
                    opcode::LOAD_CONST,
                    seq![d, (pool_len % 256) as u8, ((pool_len / 256) % 256) as u8],
                ),
                None => Translation::InvalidOperand,
            },
            Operand::Local(i) => enc1(opcode::LOAD_LOCAL, dst, seq![i as u8]),
            Operand::Arg(i) => enc1(opcode::LOAD_ARG, dst, seq![i as u8]),
            _ => enc2(opcode::MOV, dst, src, seq![]),
        },
        Instruction::Store { dst, src, .. } => match dst {
            Operand::Local(i) => match reg_of(src) {
                Some(s) => Translation::Encoded(opcode::STORE_LOCAL, seq![i as u8, s]),
                None => Translation::InvalidOperand,
            },
            _ => Translation::InvalidOperand,
        },
        Instruction::StoreField { dst, field, src, .. } => match (reg_of(dst), reg_of(src)) {
            (Some(d), Some(s)) => Translation::Encoded(
                opcode::SET_FIELD,
                seq![d] + bytes16(field as u16) + seq![s],
            ),
            _ => Translation::InvalidOperand,
        },
        Instruction::Call { dst, func, args, .. } => match (call_dst_reg(dst), base_reg(args@)) {
            (Some(d), Some(b)) => Translation::Encoded(
                opcode::CALL_STATIC,
                seq![d] + bytes32(call_func_id(func, pool_len)) + seq![b, args@.len() as u8],
            ),
            _ => Translation::InvalidOperand,
        },
        Instruction::TailCall { func, args, .. } => match base_reg(args@) {
            Some(b) => Translation::Encoded(
                opcode::TAIL_CALL,
                bytes32(
                    match func {
                        Operand::Const(ConstValue::Int(i)) => i as u32,
                        _ => 0u32,
                    },
                ) + seq![b, args@.len() as u8],
            ),
            None => Translation::InvalidOperand,
        },
        Instruction::MakeClosure { dst, func, .. } => enc1(
            opcode::MAKE_CLOSURE,
            dst,
            bytes32(closure_func_id(functions, func@)) + seq![0u8],
        ),
        Instruction::Move { dst, src, .. } => enc2(opcode::MOV, dst, src, seq![]),
        Instruction::Push { src, .. } => enc1(opcode::MOV, src, seq![]),
        Instruction::Pop { dst, .. } => enc1(opcode::MOV, dst, seq![]),
        Instruction::Dup { .. } => Translation::Encoded(opcode::NOP, seq![]),
        Instruction::Swap { .. } => Translation::Encoded(opcode::NOP, seq![]),
        Instruction::Add { dst, lhs, rhs, .. } => enc3(opcode::I64_ADD, dst, lhs, rhs, seq![]),
        Instruction::Sub { dst, lhs, rhs, .. } => enc3(opcode::I64_SUB, dst, lhs, rhs, seq![]),
        Instruction::Mul { dst, lhs, rhs, .. } => enc3(opcode::I64_MUL, dst, lhs, rhs, seq![]),
        Instruction::Div { dst, lhs, rhs, .. } => enc3(opcode::I64_DIV, dst, lhs, rhs, seq![]),
        Instruction::Mod { dst, lhs, rhs, .. } => enc3(opcode::I64_REM, dst, lhs, rhs, seq![]),
        Instruction::And { dst, lhs, rhs, .. } => enc3(opcode::I64_AND, dst, lhs, rhs, seq![]),
        Instruction::Or { dst, lhs, rhs, .. } => enc3(opcode::I64_OR, dst, lhs, rhs, seq![]),
        Instruction::Xor { dst, lhs, rhs, .. } => enc3(opcode::I64_XOR, dst, lhs, rhs, seq![]),
        Instruction::Shl { dst, lhs, rhs, .. } => enc3(opcode::I64_SHL, dst, lhs, rhs, seq![]),
        Instruction::Shr { dst, lhs, rhs, .. } => enc3(opcode::I64_SHR, dst, lhs, rhs, seq![]),
        Instruction::Sar { dst, lhs, rhs, .. } => enc3(opcode::I64_SAR, dst, lhs, rhs, seq![]),
        Instruction::Eq { dst, lhs, rhs, .. } => enc3(opcode::I64_EQ, dst, lhs, rhs, seq![]),
        Instruction::Ne { dst, lhs, rhs, .. } => enc3(opcode::I64_NE, dst, lhs, rhs, seq![]),
        Instruction::Lt { dst, lhs, rhs, .. } => enc3(opcode::I64_LT, dst, lhs, rhs, seq![]),
        Instruction::Le { dst, lhs, rhs, .. } => enc3(opcode::I64_LE, dst, lhs, rhs, seq![]),
        Instruction::Gt { dst, lhs, rhs, .. } => enc3(opcode::I64_GT, dst, lhs, rhs, seq![]),
        Instruction::Ge { dst, lhs, rhs, .. } => enc3(opcode::I64_GE, dst, lhs, rhs, seq![]),
        Instruction::Neg { dst, src, .. } => enc2(opcode::I64_NEG, dst, src, seq![]),
        Instruction::Jmp { target, .. } => Translation::Encoded(opcode::JMP, bytes32(target as u32)),
        Instruction::JmpIf { cond, target, .. } => enc1(opcode::JMP_IF, cond, bytes16(target as u16)),
        Instruction::JmpIfNot { cond, target, .. } => enc1(opcode::JMP_IF_NOT, cond, bytes16(target as u16)),
        Instruction::Ret { value: None, .. } => Translation::Encoded(opcode::RETURN, seq![]),
        Instruction::Ret { value: Some(v), .. } => enc1(opcode::RETURN_VALUE, v, seq![]),
        Instruction::Alloc { dst, .. } => enc1(opcode::STACK_ALLOC, dst, seq![]),
        Instruction::Free { .. } => Translation::Encoded(opcode::NOP, seq![]),
        Instruction::AllocArray { dst, .. } => enc1(opcode::NEW_LIST_WITH_CAP, dst, seq![0u8, 0u8]),
        Instruction::LoadField { dst, src, field, .. } => enc2(opcode::GET_FIELD, dst, src, bytes16(field as u16)),
        Instruction::LoadIndex { dst, src, index, .. } => enc3(opcode::LOAD_ELEMENT, dst, src, index, seq![]),
        Instruction::StoreIndex { .. } => Translation::Encoded(opcode::STORE_ELEMENT, seq![0u8, 0u8, 0u8]),
        Instruction::Cast { dst, src, .. } => enc2(opcode::CAST, dst, src, seq![0u8, 0u8]),
        Instruction::TypeTest { .. } => Translation::Encoded(opcode::TYPE_CHECK, seq![0u8, 0u8, 0u8]),
        Instruction::Spawn { .. } => Translation::Encoded(opcode::NOP, seq![]),
        Instruction::Yield { .. } => Translation::Encoded(opcode::YIELD, seq![]),
        Instruction::HeapAlloc { dst, .. } => enc1(opcode::HEAP_ALLOC, dst, seq![0u8, 0u8]),
        Instruction::Drop { src, .. } => enc1(opcode::DROP, src, seq![]),
        Instruction::ArcNew { dst, src, .. } => enc2(opcode::ARC_NEW, dst, src, seq![]),
        Instruction::ArcClone { dst, src, .. } => enc2(opcode::ARC_CLONE, dst, src, seq![]),
        Instruction::ArcDrop { src, .. } => enc1(opcode::ARC_DROP, src, seq![]),
        Instruction::StringLength { dst, src, .. } => enc2(opcode::STRING_LENGTH, dst, src, seq![]),
        Instruction::StringConcat { dst, lhs, rhs, .. } => enc3(opcode::STRING_CONCAT, dst, lhs, rhs, seq![]),
        Instruction::StringGetChar { dst, src, index, .. } => enc3(opcode::STRING_GET_CHAR, dst, src, index, seq![]),
        Instruction::StringFromInt { dst, src, .. } => enc2(opcode::STRING_FROM_INT, dst, src, seq![]),
        Instruction::StringFromFloat { dst, src, .. } => enc2(opcode::STRING_FROM_FLOAT, dst, src, seq![]),
        Instruction::LoadUpvalue { dst, upvalue_idx, .. } => enc1(opcode::LOAD_UPVALUE, dst, seq![upvalue_idx as u8]),
        Instruction::StoreUpvalue { src, upvalue_idx, .. } => enc1(opcode::STORE_UPVALUE, src, seq![upvalue_idx as u8]),
        Instruction::CloseUpvalue { src, .. } => enc1(opcode::CLOSE_UPVALUE, src, seq![]),
        Instruction::Not { .. } => Translation::Unsupported("Not"@),
        Instruction::CallVirt { .. } => Translation::Unsupported("CallVirt"@),
        Instruction::CallDyn { .. } => Translation::Unsupported("CallDyn"@),
        Instruction::AllocFixedArray { .. } => Translation::Unsupported("AllocFixedArray"@),
        Instruction::Contains { .. } => Translation::Unsupported("Contains"@),
        Instruction::SpawnFromList { .. } => Translation::Unsupported("SpawnFromList"@),
        Instruction::CreateStruct { .. } => Translation::Unsupported("CreateStruct"@),
        Instruction::NewDict { .. } => Translation::Unsupported("NewDict"@),
        Instruction::NewTuple { .. } => Translation::Unsupported("NewTuple"@),
        Instruction::NewRange { .. } => Translation::Unsupported("NewRange"@),
        Instruction::CreateVariant { .. } => Translation::Unsupported("CreateVariant"@),
        Instruction::VariantTag { .. } => Translation::Unsupported("VariantTag"@),
        Instruction::VariantPayload { .. } => Translation::Unsupported("VariantPayload"@),
        Instruction::RcNew { .. } => Translation::Unsupported("RcNew"@),
        Instruction::UnsafeBlockStart { .. } => Translation::Unsupported("UnsafeBlockStart"@),
        Instruction::UnsafeBlockEnd { .. } => Translation::Unsupported("UnsafeBlockEnd"@),
        Instruction::PtrFromRef { .. } => Translation::Unsupported("PtrFromRef"@),
        Instruction::PtrDeref { .. } => Translation::Unsupported("PtrDeref"@),
        Instruction::PtrStore { .. } => Translation::Unsupported("PtrStore"@),
        Instruction::PtrLoad { .. } => Translation::Unsupported("PtrLoad"@),
    }
}

/// The constant a translation adds to the pool, if any: the constant a
/// load reads (once its destination is a register), or the name a call
/// goes by (once its destination is a register or dropped).
pub open spec fn pushed_constant(instr: Instruction) -> Option<ConstValue> {
    match instr {
        Instruction::Load { dst, src: Operand::Const(c), .. } => if reg_of(dst) is Some {
            Some(c)
        } else {
            None
        },
        Instruction::Call { dst, func: Operand::Const(ConstValue::String(name)), .. } => if call_dst_reg(
            dst,
        ) is Some {
            Some(ConstValue::String(name))
        } else {
            None
        },
        _ => None,
    }
}

/// `a` holds the same constant as `b` (byte strings compared by content).
pub open spec fn same_constant(a: ConstValue, b: ConstValue) -> bool {
    match (a, b) {
        (ConstValue::Bytes(x), ConstValue::Bytes(y)) => x@ == y@,
        _ => a == b,
    }
}

/// `r` is what the translation `t` describes.
pub open spec fn outcome_matches(t: Translation, r: Result<BytecodeInstruction, CodegenError>) -> bool {
    match r {
        Ok(b) => t matches Translation::Encoded(op, bytes) && b.opcode == op && b.operands@ == bytes,
        Err(e) => match t {
            Translation::InvalidOperand => e == CodegenError::InvalidOperand,
            Translation::Unsupported(name) => e matches CodegenError::UnimplementedStmt { stmt_type }
                && stmt_type@ == name,
            Translation::Encoded(_, _) => false,
        },
    }
}

fn bytes16_vec(n: u16) -> (v: Vec<u8>)
    ensures
        v@ == bytes16(n),
{
    let v = vec![(n % 256) as u8, (n / 256) as u8];
    assert(v@ =~= bytes16(n));
    v
}

fn bytes32_vec(n: u32) -> (v: Vec<u8>)
    ensures
        v@ == bytes32(n),
{
    let v = vec![(n % 256) as u8, ((n / 256) % 256) as u8, ((n / 65536) % 256) as u8, (n / 16777216) as u8];
    assert(v@ =~= bytes32(n));
    v
}

fn tail1(x: u8) -> (v: Vec<u8>)
    ensures
        v@ == seq![x],
{
    let v = vec![x];
    assert(v@ =~= seq![x]);
    v
}

fn tail2(x: u8, y: u8) -> (v: Vec<u8>)
    ensures
        v@ == seq![x, y],
{
    let v = vec![x, y];
    assert(v@ =~= seq![x, y]);
    v
}

fn tail3(x: u8, y: u8, z: u8) -> (v: Vec<u8>)
    ensures
        v@ == seq![x, y, z],
{
    let v = vec![x, y, z];
    assert(v@ =~= seq![x, y, z]);
    v
}

fn clone_constant(c: &ConstValue) -> (r: ConstValue)
    ensures
        same_constant(r, *c),
{
    match c {
        ConstValue::Void => ConstValue::Void,
        ConstValue::Bool(b) => ConstValue::Bool(*b),
        ConstValue::Int(i) => ConstValue::Int(*i),
        ConstValue::Float(f) => ConstValue::Float(*f),
        ConstValue::Char(ch) => ConstValue::Char(*ch),
        ConstValue::String(s) => ConstValue::String(s.clone()),
        ConstValue::Bytes(b) => {
            let v = b.clone();
            assert(v@ =~= b@);
            ConstValue::Bytes(v)
        },
        ConstValue::LibraryRef { mechanism, lib } => ConstValue::LibraryRef {
            mechanism: mechanism.clone(),
            lib: lib.clone(),
        },
        ConstValue::ExternRef { mechanism, lib, symbol } => ConstValue::ExternRef {
            mechanism: mechanism.clone(),
            lib: lib.clone(),
            symbol: symbol.clone(),
        },
    }
}

impl CodegenContext {
    /// The register byte of an operand (see [`reg_of`]); other operands are
    /// refused.
    pub fn operand_to_reg(&self, operand: &Operand) -> (r: Result<u8, CodegenError>)
        ensures
            match r {
                Ok(x) => reg_of(*operand) == Some(x),
                Err(e) => reg_of(*operand) is None && e == CodegenError::InvalidOperand,
            },
    {
        match operand {
            Operand::Local(id) => Ok(*id as u8),
            Operand::Temp(id) => Ok(*id as u8),
            Operand::Arg(id) => Ok(*id as u8),
            _ => Err(CodegenError::InvalidOperand),
        }
    }

    fn emit1(&self, op: u8, a: &Operand, tail: Vec<u8>) -> (r: Result<BytecodeInstruction, CodegenError>)
        ensures
            outcome_matches(enc1(op, *a, tail@), r),
    {
        let x = self.operand_to_reg(a)?;
        let mut v = vec![x];
        let mut t = tail;
        let ghost tv = t@;
        v.append(&mut t);
        assert(v@ =~= seq![x] + tv);
        Ok(BytecodeInstruction::new(op, v))
    }

    fn emit2(&self, op: u8, a: &Operand, b: &Operand, tail: Vec<u8>) -> (r: Result<
        BytecodeInstruction,
        CodegenError,
    >)
        ensures
            outcome_matches(enc2(op, *a, *b, tail@), r),
    {
        let x = self.operand_to_reg(a)?;
        let y = self.operand_to_reg(b)?;
        let mut v = vec![x, y];
        let mut t = tail;
        let ghost tv = t@;
        v.append(&mut t);
        assert(v@ =~= seq![x, y] + tv);
        Ok(BytecodeInstruction::new(op, v))
    }

    fn emit3(&self, op: u8, a: &Operand, b: &Operand, c: &Operand, tail: Vec<u8>) -> (r: Result<
        BytecodeInstruction,
        CodegenError,
    >)
        ensures
            outcome_matches(enc3(op, *a, *b, *c, tail@), r),
    {
        let x = self.operand_to_reg(a)?;
        let y = self.operand_to_reg(b)?;
        let z = self.operand_to_reg(c)?;
        let mut v = vec![x, y, z];
        let mut t = tail;
        let ghost tv = t@;
        v.append(&mut t);
        assert(v@ =~= seq![x, y, z] + tv);
        Ok(BytecodeInstruction::new(op, v))
    }

    /// Translates one IR instruction into an encoded record (see
    /// [`translation`]): operands that must be registers are refused when
    /// they are not, and instruction kinds without an encoding are refused
    /// by name. A constant that a load reads, or the name a call goes by, is
    /// added to the constant pool (see [`pushed_constant`]).
    pub fn translate_instruction(&mut self, instr: &Instruction) -> (r: Result<BytecodeInstruction, CodegenError>)
        requires
            old(self).flow.wf(),
        ensures
            outcome_matches(
                translation(*instr, old(self).const_pool@.len(), old(self).flow@.function_indices),
                r,
            ),
            match pushed_constant(*instr) {
                Some(c) => {
                    &&& final(self).const_pool@.len() == old(self).const_pool@.len() + 1
                    &&& final(self).const_pool@.drop_last() == old(self).const_pool@
                    &&& same_constant(final(self).const_pool@.last(), c)
                },
                None => final(self).const_pool@ == old(self).const_pool@,
            },
            final(self).module == old(self).module,
            final(self).current_function == old(self).current_function,
            final(self).symbols == old(self).symbols,
            final(self).flow == old(self).flow,
            final(self).config == old(self).config,
    {
        let ghost pool_len = self.const_pool@.len();
        let ghost fns = self.flow@.function_indices;
        match instr {
            Instruction::Load { dst, src, .. } => {
                let d = self.operand_to_reg(dst)?;
                match src {
                    Operand::Const(c) => {
                        let idx = self.add_constant(clone_constant(c));
                        let ops = vec![d, (idx % 256) as u8, ((idx / 256) % 256) as u8];
                        assert(ops@ =~= seq![d, (pool_len % 256) as u8, ((pool_len / 256) % 256) as u8]);
                        Ok(BytecodeInstruction::new(opcode::LOAD_CONST, ops))
                    },
                    Operand::Local(i) => {
                        let ops = vec![d, *i as u8];
                        assert(ops@ =~= seq![d] + seq![*i as u8]);
                        Ok(BytecodeInstruction::new(opcode::LOAD_LOCAL, ops))
                    },
                    Operand::Arg(i) => {
                        let ops = vec![d, *i as u8];
                        assert(ops@ =~= seq![d] + seq![*i as u8]);
                        Ok(BytecodeInstruction::new(opcode::LOAD_ARG, ops))
                    },
                    _ => self.emit2(opcode::MOV, dst, src, Vec::new()),
                }
            },
            Instruction::Store { dst, src, .. } => match dst {
                Operand::Local(i) => {
                    let s = self.operand_to_reg(src)?;
                    Ok(BytecodeInstruction::new(opcode::STORE_LOCAL, vec![*i as u8, s]))
                },
                _ => Err(CodegenError::InvalidOperand),
            },
            Instruction::StoreField { dst, field, src, .. } => {
                let d = self.operand_to_reg(dst)?;
                let s = self.operand_to_reg(src)?;
                let f = bytes16_vec(*field as u16);
                let ops = vec![d, f[0], f[1], s];
                assert(ops@ =~= seq![d] + bytes16(*field as u16) + seq![s]);
                Ok(BytecodeInstruction::new(opcode::SET_FIELD, ops))
            },
            Instruction::Call { dst, func, args, .. } => {
                let d: u8 = match dst {
                    Some(o) => self.operand_to_reg(o)?,
                    None => 0,
                };
                let func_id: u32 = match func {
                    Operand::Const(ConstValue::Int(i)) => *i as u32,
                    Operand::Const(ConstValue::String(name)) => {
                        let idx = self.add_constant(ConstValue::String(name.clone()));
                        idx as u32
                    },
                    _ => 0,
                };
                let b: u8 = if args.len() > 0 {
                    self.operand_to_reg(&args[0])?
                } else {
                    0
                };
                let f = bytes32_vec(func_id);
                let ops = vec![d, f[0], f[1], f[2], f[3], b, args.len() as u8];
                assert(ops@ =~= seq![d] + bytes32(func_id) + seq![b, args@.len() as u8]);
                Ok(BytecodeInstruction::new(opcode::CALL_STATIC, ops))
            },
            Instruction::TailCall { func, args, .. } => {
                let func_id: u32 = match func {
                    Operand::Const(ConstValue::Int(i)) => *i as u32,
                    _ => 0,
                };
                let b: u8 = if args.len() > 0 {
                    self.operand_to_reg(&args[0])?
                } else {
                    0
                };
                let f = bytes32_vec(func_id);
                let ops = vec![f[0], f[1], f[2], f[3], b, args.len() as u8];
                assert(ops@ =~= bytes32(func_id) + seq![b, args@.len() as u8]);
                Ok(BytecodeInstruction::new(opcode::TAIL_CALL, ops))
            },
            Instruction::MakeClosure { dst, func, .. } => {
                let func_id: u32 = match self.flow.get_function_index(func.as_str()) {
                    Some(i) => *i as u32,
                    None => 0,
                };
                let mut tail = bytes32_vec(func_id);
                tail.push(0u8);
                assert(tail@ =~= bytes32(closure_func_id(self.flow@.function_indices, func@)) + seq![0u8]);
                self.emit1(opcode::MAKE_CLOSURE, dst, tail)
            },
            Instruction::Move { dst, src, .. } => self.emit2(opcode::MOV, dst, src, Vec::new()),
            Instruction::Push { src, .. } => self.emit1(opcode::MOV, src, Vec::new()),
            Instruction::Pop { dst, .. } => self.emit1(opcode::MOV, dst, Vec::new()),
            Instruction::Dup { .. } => Ok(BytecodeInstruction::new(opcode::NOP, Vec::new())),
            Instruction::Swap { .. } => Ok(BytecodeInstruction::new(opcode::NOP, Vec::new())),
            Instruction::Add { dst, lhs, rhs, .. } => self.emit3(opcode::I64_ADD, dst, lhs, rhs, Vec::new()),
            Instruction::Sub { dst, lhs, rhs, .. } => self.emit3(opcode::I64_SUB, dst, lhs, rhs, Vec::new()),
            Instruction::Mul { dst, lhs, rhs, .. } => self.emit3(opcode::I64_MUL, dst, lhs, rhs, Vec::new()),
            Instruction::Div { dst, lhs, rhs, .. } => self.emit3(opcode::I64_DIV, dst, lhs, rhs, Vec::new()),
            Instruction::Mod { dst, lhs, rhs, .. } => self.emit3(opcode::I64_REM, dst, lhs, rhs, Vec::new()),
            Instruction::And { dst, lhs, rhs, .. } => self.emit3(opcode::I64_AND, dst, lhs, rhs, Vec::new()),
            Instruction::Or { dst, lhs, rhs, .. } => self.emit3(opcode::I64_OR, dst, lhs, rhs, Vec::new()),
            Instruction::Xor { dst, lhs, rhs, .. } => self.emit3(opcode::I64_XOR, dst, lhs, rhs, Vec::new()),
            Instruction::Shl { dst, lhs, rhs, .. } => self.emit3(opcode::I64_SHL, dst, lhs, rhs, Vec::new()),
            Instruction::Shr { dst, lhs, rhs, .. } => self.emit3(opcode::I64_SHR, dst, lhs, rhs, Vec::new()),
            Instruction::Sar { dst, lhs, rhs, .. } => self.emit3(opcode::I64_SAR, dst, lhs, rhs, Vec::new()),
            Instruction::Eq { dst, lhs, rhs, .. } => self.emit3(opcode::I64_EQ, dst, lhs, rhs, Vec::new()),
            Instruction::Ne { dst, lhs, rhs, .. } => self.emit3(opcode::I64_NE, dst, lhs, rhs, Vec::new()),
            Instruction::Lt { dst, lhs, rhs, .. } => self.emit3(opcode::I64_LT, dst, lhs, rhs, Vec::new()),
            Instruction::Le { dst, lhs, rhs, .. } => self.emit3(opcode::I64_LE, dst, lhs, rhs, Vec::new()),
            Instruction::Gt { dst, lhs, rhs, .. } => self.emit3(opcode::I64_GT, dst, lhs, rhs, Vec::new()),
            Instruction::Ge { dst, lhs, rhs, .. } => self.emit3(opcode::I64_GE, dst, lhs, rhs, Vec::new()),
            Instruction::Neg { dst, src, .. } => self.emit2(opcode::I64_NEG, dst, src, Vec::new()),
            Instruction::Jmp { target, .. } => Ok(BytecodeInstruction::new(opcode::JMP, bytes32_vec(*target as u32))),
            Instruction::JmpIf { cond, target, .. } => self.emit1(opcode::JMP_IF, cond, bytes16_vec(*target as u16)),
            Instruction::JmpIfNot { cond, target, .. } => self.emit1(opcode::JMP_IF_NOT, cond, bytes16_vec(*target as u16)),
            Instruction::Ret { value: None, .. } => Ok(BytecodeInstruction::new(opcode::RETURN, Vec::new())),
            Instruction::Ret { value: Some(v), .. } => self.emit1(opcode::RETURN_VALUE, v, Vec::new()),
            Instruction::Alloc { dst, .. } => self.emit1(opcode::STACK_ALLOC, dst, Vec::new()),
            Instruction::Free { .. } => Ok(BytecodeInstruction::new(opcode::NOP, Vec::new())),
            Instruction::AllocArray { dst, .. } => self.emit1(opcode::NEW_LIST_WITH_CAP, dst, tail2(0u8, 0u8)),
            Instruction::LoadField { dst, src, field, .. } => self.emit2(opcode::GET_FIELD, dst, src, bytes16_vec(*field as u16)),
            Instruction::LoadIndex { dst, src, index, .. } => self.emit3(opcode::LOAD_ELEMENT, dst, src, index, Vec::new()),
            Instruction::StoreIndex { .. } => Ok(BytecodeInstruction::new(opcode::STORE_ELEMENT, tail3(0u8, 0u8, 0u8))),
            Instruction::Cast { dst, src, .. } => self.emit2(opcode::CAST, dst, src, tail2(0u8, 0u8)),
            Instruction::TypeTest { .. } => Ok(BytecodeInstruction::new(opcode::TYPE_CHECK, tail3(0u8, 0u8, 0u8))),
            Instruction::Spawn { .. } => Ok(BytecodeInstruction::new(opcode::NOP, Vec::new())),
            Instruction::Yield { .. } => Ok(BytecodeInstruction::new(opcode::YIELD, Vec::new())),
            Instruction::HeapAlloc { dst, .. } => self.emit1(opcode::HEAP_ALLOC, dst, tail2(0u8, 0u8)),
            Instruction::Drop { src, .. } => self.emit1(opcode::DROP, src, Vec::new()),
            Instruction::ArcNew { dst, src, .. } => self.emit2(opcode::ARC_NEW, dst, src, Vec::new()),
            Instruction::ArcClone { dst, src, .. } => self.emit2(opcode::ARC_CLONE, dst, src, Vec::new()),
            Instruction::ArcDrop { src, .. } => self.emit1(opcode::ARC_DROP, src, Vec::new()),
            Instruction::StringLength { dst, src, .. } => self.emit2(opcode::STRING_LENGTH, dst, src, Vec::new()),
            Instruction::StringConcat { dst, lhs, rhs, .. } => self.emit3(opcode::STRING_CONCAT, dst, lhs, rhs, Vec::new()),
            Instruction::StringGetChar { dst, src, index, .. } => self.emit3(opcode::STRING_GET_CHAR, dst, src, index, Vec::new()),
            Instruction::StringFromInt { dst, src, .. } => self.emit2(opcode::STRING_FROM_INT, dst, src, Vec::new()),
            Instruction::StringFromFloat { dst, src, .. } => self.emit2(opcode::STRING_FROM_FLOAT, dst, src, Vec::new()),
            Instruction::LoadUpvalue { dst, upvalue_idx, .. } => self.emit1(opcode::LOAD_UPVALUE, dst, tail1(*upvalue_idx as u8)),
            Instruction::StoreUpvalue { src, upvalue_idx, .. } => self.emit1(opcode::STORE_UPVALUE, src, tail1(*upvalue_idx as u8)),
            Instruction::CloseUpvalue { src, .. } => self.emit1(opcode::CLOSE_UPVALUE, src, Vec::new()),
            Instruction::Not { .. } => Err(CodegenError::UnimplementedStmt { stmt_type: String::from_str("Not") }),
            Instruction::CallVirt { .. } => Err(CodegenError::UnimplementedStmt { stmt_type: String::from_str("CallVirt") }),
            Instruction::CallDyn { .. } => Err(CodegenError::UnimplementedStmt { stmt_type: String::from_str("CallDyn") }),
            Instruction::AllocFixedArray { .. } => Err(CodegenError::UnimplementedStmt { stmt_type: String::from_str("AllocFixedArray") }),
            Instruction::Contains { .. } => Err(CodegenError::UnimplementedStmt { stmt_type: String::from_str("Contains") }),
            Instruction::SpawnFromList { .. } => Err(CodegenError::UnimplementedStmt { stmt_type: String::from_str("SpawnFromList") }),
            Instruction::CreateStruct { .. } => Err(CodegenError::UnimplementedStmt { stmt_type: String::from_str("CreateStruct") }),
            Instruction::NewDict { .. } => Err(CodegenError::UnimplementedStmt { stmt_type: String::from_str("NewDict") }),
            Instruction::NewTuple { .. } => Err(CodegenError::UnimplementedStmt { stmt_type: String::from_str("NewTuple") }),
            Instruction::NewRange { .. } => Err(CodegenError::UnimplementedStmt { stmt_type: String::from_str("NewRange") }),
            Instruction::CreateVariant { .. } => Err(CodegenError::UnimplementedStmt { stmt_type: String::from_str("CreateVariant") }),
            Instruction::VariantTag { .. } => Err(CodegenError::UnimplementedStmt { stmt_type: String::from_str("VariantTag") }),
            Instruction::VariantPayload { .. } => Err(CodegenError::UnimplementedStmt { stmt_type: String::from_str("VariantPayload") }),
            Instruction::RcNew { .. } => Err(CodegenError::UnimplementedStmt { stmt_type: String::from_str("RcNew") }),
            Instruction::UnsafeBlockStart { .. } => Err(CodegenError::UnimplementedStmt { stmt_type: String::from_str("UnsafeBlockStart") }),
            Instruction::UnsafeBlockEnd { .. } => Err(CodegenError::UnimplementedStmt { stmt_type: String::from_str("UnsafeBlockEnd") }),
            Instruction::PtrFromRef { .. } => Err(CodegenError::UnimplementedStmt { stmt_type: String::from_str("PtrFromRef") }),
            Instruction::PtrDeref { .. } => Err(CodegenError::UnimplementedStmt { stmt_type: String::from_str("PtrDeref") }),
            Instruction::PtrStore { .. } => Err(CodegenError::UnimplementedStmt { stmt_type: String::from_str("PtrStore") }),
            Instruction::PtrLoad { .. } => Err(CodegenError::UnimplementedStmt { stmt_type: String::from_str("PtrLoad") }),
        }
    }
}

/// The bytecode arithmetic instruction an IR instruction means, over the
/// registers of its operands.
pub open spec fn arith_meaning(op: BinaryOp, dst: Operand, lhs: Operand, rhs: Operand) -> Option<BytecodeInstr> {
    match (reg_of(dst), reg_of(lhs), reg_of(rhs)) {
        (Some(d), Some(l), Some(r)) => Some(
            BytecodeInstr::BinaryOp { dst: Reg(d as u16), lhs: Reg(l as u16), rhs: Reg(r as u16), op },
        ),
        _ => None,
    }
}

/// The bytecode comparison an IR instruction means, over the registers of
/// its operands.
pub open spec fn compare_meaning(c: CompareOp, dst: Operand, lhs: Operand, rhs: Operand) -> Option<BytecodeInstr> {
    match (reg_of(dst), reg_of(lhs), reg_of(rhs)) {
        (Some(d), Some(l), Some(r)) => Some(compare_instr(Reg(d as u16), Reg(l as u16), Reg(r as u16), c)),
        _ => None,
    }
}

/// The bytecode instruction an IR arithmetic or comparison instruction
/// stands for: the same operator on the same registers.
pub open spec fn bytecode_meaning(i: Instruction) -> Option<BytecodeInstr> {
    match i {
        Instruction::Add { dst, lhs, rhs, .. } => arith_meaning(BinaryOp::Add, dst, lhs, rhs),
        Instruction::Sub { dst, lhs, rhs, .. } => arith_meaning(BinaryOp::Sub, dst, lhs, rhs),
        Instruction::Mul { dst, lhs, rhs, .. } => arith_meaning(BinaryOp::Mul, dst, lhs, rhs),
        Instruction::Div { dst, lhs, rhs, .. } => arith_meaning(BinaryOp::Div, dst, lhs, rhs),
        Instruction::Mod { dst, lhs, rhs, .. } => arith_meaning(BinaryOp::Rem, dst, lhs, rhs),
        Instruction::And { dst, lhs, rhs, .. } => arith_meaning(BinaryOp::And, dst, lhs, rhs),
        Instruction::Or { dst, lhs, rhs, .. } => arith_meaning(BinaryOp::Or, dst, lhs, rhs),
        Instruction::Xor { dst, lhs, rhs, .. } => arith_meaning(BinaryOp::Xor, dst, lhs, rhs),
        Instruction::Shl { dst, lhs, rhs, .. } => arith_meaning(BinaryOp::Shl, dst, lhs, rhs),
        Instruction::Shr { dst, lhs, rhs, .. } => arith_meaning(BinaryOp::Shr, dst, lhs, rhs),
        Instruction::Sar { dst, lhs, rhs, .. } => arith_meaning(BinaryOp::Sar, dst, lhs, rhs),
        Instruction::Eq { dst, lhs, rhs, .. } => compare_meaning(CompareOp::Eq, dst, lhs, rhs),
        Instruction::Ne { dst, lhs, rhs, .. } => compare_meaning(CompareOp::Ne, dst, lhs, rhs),
        Instruction::Lt { dst, lhs, rhs, .. } => compare_meaning(CompareOp::Lt, dst, lhs, rhs),
        Instruction::Le { dst, lhs, rhs, .. } => compare_meaning(CompareOp::Le, dst, lhs, rhs),
        Instruction::Gt { dst, lhs, rhs, .. } => compare_meaning(CompareOp::Gt, dst, lhs, rhs),
        Instruction::Ge { dst, lhs, rhs, .. } => compare_meaning(CompareOp::Ge, dst, lhs, rhs),
        _ => None,
    }
}

/// The register of an operand, as the bytecode names it.
pub open spec fn breg(o: Operand) -> Reg {
    Reg(reg_of(o)->Some_0 as u16)
}

/// The bytecode instruction an IR data-movement, unary, string, reference
/// counting or upvalue instruction stands for: the same operation on the
/// same registers and indices (where its operands are registers).
pub open spec fn move_meaning(i: Instruction) -> Option<BytecodeInstr> {
    match i {
        Instruction::Move { dst, src, .. } => if reg_of(dst) is Some && reg_of(src) is Some {
            Some(BytecodeInstr::Mov { dst: breg(dst), src: breg(src) })
        } else {
            None
        },
        Instruction::Load { dst, src: Operand::Local(n), .. } => if reg_of(dst) is Some {
            Some(BytecodeInstr::LoadLocal { dst: breg(dst), local_idx: n as u8 })
        } else {
            None
        },
        Instruction::Load { dst, src: Operand::Arg(n), .. } => if reg_of(dst) is Some {
            Some(BytecodeInstr::LoadArg { dst: breg(dst), arg_idx: n as u8 })
        } else {
            None
        },
        Instruction::Store { dst: Operand::Local(n), src, .. } => if reg_of(src) is Some {
            Some(BytecodeInstr::StoreLocal { local_idx: n as u8, src: breg(src) })
        } else {
            None
        },
        Instruction::Neg { dst, src, .. } => if reg_of(dst) is Some && reg_of(src) is Some {
            Some(BytecodeInstr::UnaryOp { dst: breg(dst), src: breg(src), op: UnaryOp::Neg })
        } else {
            None
        },
        Instruction::Ret { value: None, .. } => Some(BytecodeInstr::Return),
        Instruction::Ret { value: Some(v), .. } => if reg_of(v) is Some {
            Some(BytecodeInstr::ReturnValue { value: breg(v) })
        } else {
            None
        },
        Instruction::LoadField { dst, src, field, .. } => if reg_of(dst) is Some && reg_of(src) is Some {
            Some(BytecodeInstr::GetField { dst: breg(dst), src: breg(src), field_idx: field as u16 })
        } else {
            None
        },
        Instruction::LoadIndex { dst, src, index, .. } => if reg_of(dst) is Some && reg_of(src) is Some
            && reg_of(index) is Some {
            Some(BytecodeInstr::LoadElement { dst: breg(dst), array: breg(src), index: breg(index) })
        } else {
            None
        },
        Instruction::ArcNew { dst, src, .. } => if reg_of(dst) is Some && reg_of(src) is Some {
            Some(BytecodeInstr::ArcNew { dst: breg(dst), src: breg(src) })
        } else {
            None
        },
        Instruction::ArcClone { dst, src, .. } => if reg_of(dst) is Some && reg_of(src) is Some {
            Some(BytecodeInstr::ArcClone { dst: breg(dst), src: breg(src) })
        } else {
            None
        },
        Instruction::ArcDrop { src, .. } => if reg_of(src) is Some {
            Some(BytecodeInstr::ArcDrop { src: breg(src) })
        } else {
            None
        },
        Instruction::Drop { src, .. } => if reg_of(src) is Some {
            Some(BytecodeInstr::Drop { value: breg(src) })
        } else {
            None
        },
        Instruction::StringLength { dst, src, .. } => if reg_of(dst) is Some && reg_of(src) is Some {
            Some(BytecodeInstr::StringLength { dst: breg(dst), src: breg(src) })
        } else {
            None
        },
        Instruction::StringFromInt { dst, src, .. } => if reg_of(dst) is Some && reg_of(src) is Some {
            Some(BytecodeInstr::StringFromInt { dst: breg(dst), src: breg(src) })
        } else {
            None
        },
        Instruction::StringFromFloat { dst, src, .. } => if reg_of(dst) is Some && reg_of(src) is Some {
            Some(BytecodeInstr::StringFromFloat { dst: breg(dst), src: breg(src) })
        } else {
            None
        },
        Instruction::StringConcat { dst, lhs, rhs, .. } => if reg_of(dst) is Some && reg_of(lhs) is Some
            && reg_of(rhs) is Some {
            Some(BytecodeInstr::StringConcat { dst: breg(dst), str1: breg(lhs), str2: breg(rhs) })
        } else {
            None
        },
        Instruction::StringGetChar { dst, src, index, .. } => if reg_of(dst) is Some && reg_of(src) is Some
            && reg_of(index) is Some {
            Some(BytecodeInstr::StringGetChar { dst: breg(dst), src: breg(src), index: breg(index) })
        } else {
            None
        },
        Instruction::LoadUpvalue { dst, upvalue_idx, .. } => if reg_of(dst) is Some {
            Some(BytecodeInstr::LoadUpvalue { dst: breg(dst), upvalue_idx: upvalue_idx as u8 })
        } else {
            None
        },
        Instruction::StoreUpvalue { src, upvalue_idx, .. } => if reg_of(src) is Some {
            Some(BytecodeInstr::StoreUpvalue { src: breg(src), upvalue_idx: upvalue_idx as u8 })
        } else {
            None
        },
        Instruction::CloseUpvalue { src, .. } => if reg_of(src) is Some {
            Some(BytecodeInstr::CloseUpvalue { src: breg(src) })
        } else {
            None
        },
        _ => None,
    }
}

/// Translation keeps the operator: the record an IR arithmetic or
/// comparison instruction is translated into decodes back to the bytecode
/// instruction of that same operator on the same registers (so a
/// subtraction never becomes an addition, and `<` never `>`).
pub proof fn law_translation_decodes_to_same_operator(
    instr: Instruction,
    pool_len: nat,
    functions: Map<Seq<char>, usize>,
    op: u8,
    bytes: Seq<u8>,
    pool: Seq<ConstValue>,
    dec: Decoded,
)
    requires
        bytecode_meaning(instr) is Some,
        translation(instr, pool_len, functions) == Translation::Encoded(op, bytes),
        decoded_ok(op, bytes, pool, dec),
    ensures
        dec == Decoded::Instr(bytecode_meaning(instr)->Some_0),
{
    match instr {
        Instruction::Add { .. } => {},
        Instruction::Sub { .. } => {},
        Instruction::Mul { .. } => {},
        Instruction::Div { .. } => {},
        Instruction::Mod { .. } => {},
        Instruction::And { .. } => {},
        Instruction::Or { .. } => {},
        Instruction::Xor { .. } => {},
        Instruction::Shl { .. } => {},
        Instruction::Shr { .. } => {},
        Instruction::Sar { .. } => {},
        Instruction::Eq { .. } => {},
        Instruction::Ne { .. } => {},
        Instruction::Lt { .. } => {},
        Instruction::Le { .. } => {},
        Instruction::Gt { .. } => {},
        Instruction::Ge { .. } => {},
        _ => {},
    }
}

/// Translation keeps the meaning of data movement, negation, returns,
/// field and element reads, reference counting, string and upvalue
/// instructions: their record decodes back to the bytecode instruction of
/// the same operation on the same registers and indices.
pub proof fn law_translation_decodes_to_same_operation(
    instr: Instruction,
    pool_len: nat,
    functions: Map<Seq<char>, usize>,
    op: u8,
    bytes: Seq<u8>,
    pool: Seq<ConstValue>,
    dec: Decoded,
)
    requires
        move_meaning(instr) is Some,
        translation(instr, pool_len, functions) == Translation::Encoded(op, bytes),
        decoded_ok(op, bytes, pool, dec),
    ensures
        dec == Decoded::Instr(move_meaning(instr)->Some_0),
{
    match instr {
        Instruction::Move { .. } => {},
        Instruction::Load { .. } => {},
        Instruction::Store { .. } => {},
        Instruction::Neg { .. } => {},
        Instruction::Ret { .. } => {},
        Instruction::LoadField { .. } => {},
        Instruction::LoadIndex { .. } => {},
        Instruction::ArcNew { .. } => {},
        Instruction::ArcClone { .. } => {},
        Instruction::ArcDrop { .. } => {},
        Instruction::Drop { .. } => {},
        Instruction::StringLength { .. } => {},
        Instruction::StringFromInt { .. } => {},
        Instruction::StringFromFloat { .. } => {},
        Instruction::StringConcat { .. } => {},
        Instruction::StringGetChar { .. } => {},
        Instruction::LoadUpvalue { .. } => {},
        Instruction::StoreUpvalue { .. } => {},
        Instruction::CloseUpvalue { .. } => {},
        _ => {},
    }
}

} // verus!
