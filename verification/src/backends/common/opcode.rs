//! Numeric opcodes of the binary bytecode format.
//!
//! Every instruction in an encoded function starts with one of these bytes;
//! the operand bytes that follow are laid out per opcode (see the decoder in
//! `middle::core_ir::decode`).
use vstd::prelude::*;

verus! {

// Control flow
pub const NOP: u8 = 0x00;
pub const RETURN: u8 = 0x01;
pub const RETURN_VALUE: u8 = 0x02;
pub const JMP: u8 = 0x03;
pub const JMP_IF: u8 = 0x04;
pub const JMP_IF_NOT: u8 = 0x05;
pub const SWITCH: u8 = 0x06;
pub const LABEL: u8 = 0x07;
pub const YIELD: u8 = 0x08;
pub const SPAWN: u8 = 0x09;
pub const SPAWN_FROM_LIST: u8 = 0x0A;

// Register moves and loads
pub const MOV: u8 = 0x10;
pub const LOAD_CONST: u8 = 0x11;
pub const LOAD_LOCAL: u8 = 0x12;
pub const STORE_LOCAL: u8 = 0x13;
pub const LOAD_ARG: u8 = 0x14;

// 64-bit integer arithmetic
pub const I64_ADD: u8 = 0x20;
pub const I64_SUB: u8 = 0x21;
pub const I64_MUL: u8 = 0x22;
pub const I64_DIV: u8 = 0x23;
pub const I64_REM: u8 = 0x24;
pub const I64_AND: u8 = 0x25;
pub const I64_OR: u8 = 0x26;
pub const I64_XOR: u8 = 0x27;
pub const I64_SHL: u8 = 0x28;
pub const I64_SAR: u8 = 0x29;
pub const I64_SHR: u8 = 0x2A;
pub const I64_NEG: u8 = 0x2B;

// 64-bit integer comparison
pub const I64_EQ: u8 = 0x30;
pub const I64_NE: u8 = 0x31;
pub const I64_LT: u8 = 0x32;
pub const I64_LE: u8 = 0x33;
pub const I64_GT: u8 = 0x34;
pub const I64_GE: u8 = 0x35;

// Memory and aggregates
pub const STACK_ALLOC: u8 = 0x50;
pub const HEAP_ALLOC: u8 = 0x51;
pub const DROP: u8 = 0x52;
pub const GET_FIELD: u8 = 0x53;
pub const SET_FIELD: u8 = 0x54;
pub const LOAD_ELEMENT: u8 = 0x55;
pub const STORE_ELEMENT: u8 = 0x56;
pub const NEW_LIST_WITH_CAP: u8 = 0x57;
pub const CREATE_STRUCT: u8 = 0x58;
pub const NEW_DICT: u8 = 0x59;
pub const NEW_TUPLE: u8 = 0x5A;
pub const NEW_RANGE: u8 = 0x5B;
pub const CREATE_VARIANT: u8 = 0x5C;
pub const VARIANT_TAG: u8 = 0x5D;
pub const VARIANT_PAYLOAD: u8 = 0x5E;
pub const NEW_ARRAY: u8 = 0x5F;
pub const CONTAINS: u8 = 0x60;

// Calls and closures
pub const CALL_STATIC: u8 = 0x70;
pub const CALL_NATIVE: u8 = 0x71;
pub const CALL_VIRT: u8 = 0x72;
pub const CALL_DYN: u8 = 0x73;
pub const MAKE_CLOSURE: u8 = 0x74;
pub const LOAD_UPVALUE: u8 = 0x75;
pub const STORE_UPVALUE: u8 = 0x76;
pub const CLOSE_UPVALUE: u8 = 0x77;
pub const TAIL_CALL: u8 = 0x78;

// Reference counting and borrow tokens
pub const ARC_NEW: u8 = 0x80;
pub const ARC_CLONE: u8 = 0x81;
pub const ARC_DROP: u8 = 0x82;
pub const WEAK_NEW: u8 = 0x83;
pub const WEAK_UPGRADE: u8 = 0x84;
pub const BORROW: u8 = 0x85;
pub const RELEASE: u8 = 0x86;
pub const RC_NEW: u8 = 0x89;

// Strings
pub const STRING_LENGTH: u8 = 0x90;
pub const STRING_CONCAT: u8 = 0x91;
pub const STRING_EQUAL: u8 = 0x92;
pub const STRING_GET_CHAR: u8 = 0x93;
pub const STRING_FROM_INT: u8 = 0x94;
pub const STRING_FROM_FLOAT: u8 = 0x95;

// Exceptions
pub const TRY_BEGIN: u8 = 0xA0;
pub const TRY_END: u8 = 0xA1;
pub const THROW: u8 = 0xA2;

// Checks, casts and reflection
pub const BOUNDS_CHECK: u8 = 0xB0;
pub const TYPE_CHECK: u8 = 0xB1;
pub const CAST: u8 = 0xB2;
pub const TYPE_OF: u8 = 0xB3;

} // verus!
