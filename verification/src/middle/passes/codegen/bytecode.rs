//! The encoded bytecode file produced by the code generator: per function a
//! list of raw instructions, each an opcode byte and its operand bytes.
use vstd::prelude::*;
use crate::frontend::typecheck::MonoType;
use crate::middle::core_ir::ir::ConstValue;
use crate::util::span::DebugSpan;
use std::collections::HashMap;

verus! {

/// One encoded instruction: the opcode byte and the operand bytes after it.
#[derive(Debug, Clone)]
pub struct BytecodeInstruction {
    pub opcode: u8,
    pub operands: Vec<u8>,
}

impl BytecodeInstruction {
    /// Create an encoded instruction.
    pub fn new(opcode: u8, operands: Vec<u8>) -> (r: Self)
        ensures
            r.opcode == opcode,
            r.operands == operands,
    {
        BytecodeInstruction { opcode, operands }
    }
}

/// The code of one function.
#[derive(Debug)]
pub struct FunctionCode {
    pub name: String,
    pub params: Vec<MonoType>,
    pub return_type: MonoType,
    pub instructions: Vec<BytecodeInstruction>,
    pub local_count: usize,
    /// Instruction index to source position.
    pub debug_map: HashMap<usize, DebugSpan>,
}

/// The code section: all functions of the file.
#[derive(Debug)]
pub struct CodeSection {
    pub functions: Vec<FunctionCode>,
}

/// File header.
#[derive(Debug, Clone, Copy, PartialEq, Eq, Structural)]
pub struct FileHeader {
    /// File magic number.
    pub magic: u32,
    /// Bytecode format version.
    pub version: u32,
    /// Feature flags.
    pub flags: u32,
    /// Index of the entry function.
    pub entry_point: u32,
    /// Number of sections.
    pub section_count: u32,
    /// File size in bytes (0 when not yet known).
    pub file_size: u32,
    /// Checksum (0 when not computed).
    pub checksum: u32,
}

impl Default for FileHeader {
    fn default() -> (h: Self)
        ensures
            h == (FileHeader {
                magic: 0,
                version: 0,
                flags: 0,
                entry_point: 0,
                section_count: 0,
                file_size: 0,
                checksum: 0,
            }),
    {
        FileHeader {
            magic: 0,
            version: 0,
            flags: 0,
            entry_point: 0,
            section_count: 0,
            file_size: 0,
            checksum: 0,
        }
    }
}

/// An encoded bytecode file.
#[derive(Debug)]
pub struct BytecodeFile {
    pub header: FileHeader,
    pub type_table: Vec<MonoType>,
    pub const_pool: Vec<ConstValue>,
    pub code_section: CodeSection,
    /// Per type: the type name and its (method name, function index) pairs.
    pub vtables: Vec<(String, Vec<(String, u32)>)>,
}

} // verus!
