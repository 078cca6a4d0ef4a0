//! Decoding of encoded instructions (opcode byte + operand bytes) into
//! [`BytecodeInstr`] values.
//!
//! Registers are one byte wide unless the layout below says otherwise;
//! multi-byte fields are little-endian.
use vstd::prelude::*;
use crate::backends::common::opcode;
use crate::middle::core_ir::bytecode::{encoded_size, opcode_of, BinaryOp, BytecodeInstr, CompareOp, Label, Reg, UnaryOp};
use crate::middle::core_ir::ir::{lowers_to, ConstValue, Type};
use crate::middle::core_ir::bytecode::{BytecodeFunction, BytecodeModule};
use crate::middle::passes::codegen::bytecode::{BytecodeFile, BytecodeInstruction, FunctionCode};
use std::collections::HashMap;
use crate::util::decimal::decimal;

verus! {

broadcast use vstd::std_specs::hash::group_hash_axioms;

// ---------------------------------------------------------------------
// Byte-level reading
// ---------------------------------------------------------------------

/// Little-endian 16-bit value at `off`.
pub open spec fn le16(ops: Seq<u8>, off: int) -> u16 {
    (ops[off] as int + 256 * ops[off + 1] as int) as u16
}

/// Little-endian 32-bit value at `off`.
pub open spec fn le32(ops: Seq<u8>, off: int) -> u32 {
    (ops[off] as int + 256 * ops[off + 1] as int + 65536 * ops[off + 2] as int + 16777216
        * ops[off + 3] as int) as u32
}

/// The 16-bit field at `off`, or 0 where the operands end first.
pub open spec fn le16_or_zero(ops: Seq<u8>, off: int) -> u16 {
    if 0 <= off && off + 2 <= ops.len() {
        le16(ops, off)
    } else {
        0
    }
}

/// The 32-bit field at `off`, or 0 where the operands end first.
pub open spec fn le32_or_zero(ops: Seq<u8>, off: int) -> u32 {
    if 0 <= off && off + 4 <= ops.len() {
        le32(ops, off)
    } else {
        0
    }
}

/// The one-byte register at `off`.
pub open spec fn reg8(ops: Seq<u8>, off: int) -> Reg {
    Reg(ops[off] as u16)
}

/// Reads a little-endian `u16` at `off`; `None` where fewer than two bytes remain.
pub fn op_u16(operands: &[u8], off: usize) -> (r: Option<u16>)
    ensures
        r == (if off + 2 <= operands@.len() { Some(le16(operands@, off as int)) } else { None::<u16> }),
{
    if off <= operands.len() && operands.len() - off >= 2 {
        Some(operands[off] as u16 + (operands[off + 1] as u16) * 256)
    } else {
        None
    }
}

/// Reads a little-endian `u32` at `off`; `None` where fewer than four bytes remain.
pub fn op_u32(operands: &[u8], off: usize) -> (r: Option<u32>)
    ensures
        r == (if off + 4 <= operands@.len() { Some(le32(operands@, off as int)) } else { None::<u32> }),
{
    if off <= operands.len() && operands.len() - off >= 4 {
        Some(
            operands[off] as u32 + (operands[off + 1] as u32) * 256 + (operands[off + 2] as u32)
                * 65536 + (operands[off + 3] as u32) * 16777216,
        )
    } else {
        None
    }
}

fn u16_or_zero(operands: &[u8], off: usize) -> (v: u16)
    ensures
        v == le16_or_zero(operands@, off as int),
{
    match op_u16(operands, off) {
        Some(v) => v,
        None => 0,
    }
}

fn u32_or_zero(operands: &[u8], off: usize) -> (v: u32)
    ensures
        v == le32_or_zero(operands@, off as int),
{
    match op_u32(operands, off) {
        Some(v) => v,
        None => 0,
    }
}

// ---------------------------------------------------------------------
// Register lists
// ---------------------------------------------------------------------

/// How many two-byte fields fit in the operands from `start` on.
pub open spec fn fit16(len: int, start: int) -> int {
    if len > start {
        (len - start) / 2
    } else {
        0
    }
}

/// Up to `count` registers of two bytes each from `start`, as many as the
/// operands hold.
pub open spec fn regs16(ops: Seq<u8>, start: int, count: int) -> Seq<Reg> {
    let n = if count < fit16(ops.len() as int, start) {
        count
    } else {
        fit16(ops.len() as int, start)
    };
    Seq::new(n as nat, |i: int| Reg(le16(ops, start + 2 * i)))
}

/// Up to `count` one-byte registers from `start`, stopping before the last
/// operand byte (which holds the count itself).
pub open spec fn regs8_before_last(ops: Seq<u8>, start: int, count: int) -> Seq<Reg> {
    let room = if ops.len() - 1 > start {
        ops.len() - 1 - start
    } else {
        0
    };
    let n = if count < room {
        count
    } else {
        room
    };
    Seq::new(n as nat, |i: int| Reg(ops[start + i] as u16))
}

fn read_regs16(ops: &[u8], start: u64, count: u64) -> (r: Vec<Reg>)
    requires
        start <= 0x1_0000_0000_0,
        count <= 0x1_0000_0000,
    ensures
        r@ == regs16(ops@, start as int, count as int),
{
    let len = ops.len() as u64;
    let mut out: Vec<Reg> = Vec::new();
    let mut i: u64 = 0;
    while i < count && start + 2 * i < len && len - (start + 2 * i) >= 2
        invariant
            start <= 0x1_0000_0000_0,
            count <= 0x1_0000_0000,
            len == ops@.len(),
            i <= count,
            start + 2 * i <= len || i == 0,
            out@.len() == i,
            forall|j: int| 0 <= j < i ==> out@[j] == Reg(le16(ops@, start + 2 * j)),
        decreases count - i,
    {
        let off = (start + 2 * i) as usize;
        out.push(Reg(ops[off] as u16 + (ops[off + 1] as u16) * 256));
        i = i + 1;
    }
    assert(out@ =~= regs16(ops@, start as int, count as int));
    out
}

fn read_regs8_before_last(ops: &[u8], start: usize, count: usize) -> (r: Vec<Reg>)
    requires
        ops@.len() >= 1,
        start <= 8,
    ensures
        r@ == regs8_before_last(ops@, start as int, count as int),
{
    let mut out: Vec<Reg> = Vec::new();
    let mut i: usize = 0;
    while i < count && start < ops.len() - 1 && i < ops.len() - 1 - start
        invariant
            ops@.len() >= 1,
            start <= 8,
            i <= count,
            start + i <= ops@.len() - 1 || i == 0,
            out@.len() == i,
            forall|j: int| 0 <= j < i ==> out@[j] == Reg(ops@[start + j] as u16),
        decreases count - i,
    {
        out.push(Reg(ops[start + i] as u16));
        i = i + 1;
    }
    assert(out@ =~= regs8_before_last(ops@, start as int, count as int));
    out
}


// ---------------------------------------------------------------------
// Constant pool strings
// ---------------------------------------------------------------------

/// The string stored at `idx` of the constant pool, if that entry is a string.
pub open spec fn pool_string(pool: Seq<ConstValue>, idx: int) -> Option<Seq<char>> {
    if 0 <= idx < pool.len() {
        match pool[idx] {
            ConstValue::String(s) => Some(s@),
            _ => None,
        }
    } else {
        None
    }
}

/// The pool string at `idx`, or the empty string.
pub open spec fn pool_string_or_empty(pool: Seq<ConstValue>, idx: int) -> Seq<char> {
    match pool_string(pool, idx) {
        Some(s) => s,
        None => seq![],
    }
}

/// The pool string at `idx`, or `prefix` followed by `idx` in decimal.
pub open spec fn pool_string_or_named(pool: Seq<ConstValue>, idx: nat, prefix: Seq<char>) -> Seq<
    char,
> {
    match pool_string(pool, idx as int) {
        Some(s) => s,
        None => prefix + decimal(idx),
    }
}

fn pool_lookup(pool: &Vec<ConstValue>, idx: u32) -> (r: Option<String>)
    ensures
        match r {
            Some(s) => pool_string(pool@, idx as int) == Some(s@),
            None => pool_string(pool@, idx as int) is None,
        },
{
    let i = idx as usize;
    if i < pool.len() {
        match &pool[i] {
            ConstValue::String(s) => Some(s.clone()),
            _ => None,
        }
    } else {
        None
    }
}

/// Resolves a string from the constant pool; the empty string where entry
/// `idx` is missing or not a string.
pub fn resolve_const_string(pool: &Vec<ConstValue>, idx: u32) -> (s: String)
    ensures
        s@ == pool_string_or_empty(pool@, idx as int),
{
    match pool_lookup(pool, idx) {
        Some(s) => s,
        None => String::new(),
    }
}

fn resolve_named(pool: &Vec<ConstValue>, idx: u32, prefix: &str) -> (s: String)
    ensures
        s@ == pool_string_or_named(pool@, idx as nat, prefix@),
{
    match pool_lookup(pool, idx) {
        Some(s) => s,
        None => crate::util::decimal::prefixed_decimal(prefix, idx as u64),
    }
}

// ---------------------------------------------------------------------
// Task metadata of spawn instructions
// ---------------------------------------------------------------------

/// What `String::from_utf8_lossy` produces from a byte sequence.
pub uninterp spec fn utf8_lossy(bytes: Seq<u8>) -> Seq<char>;

/// Calls `String::from_utf8_lossy` and owns the result. The result is named
/// by [`utf8_lossy`]; for valid UTF-8 input it is the decoded text, as the
/// std documentation states (invalid sequences become U+FFFD, which is left
/// unstated here).
#[verifier::external_body]
fn string_from_utf8_lossy(bytes: &[u8]) -> (s: String)
    ensures
        s@ == utf8_lossy(bytes@),
        vstd::utf8::valid_utf8(bytes@) ==> s@ == vstd::utf8::decode_utf8(bytes@),
{
    String::from_utf8_lossy(bytes).to_string()
}

/// `pos + 4 <= len`, i.e. a 32-bit field starts at `pos`.
pub open spec fn word_at(ops: Seq<u8>, pos: int) -> bool {
    pos + 3 < ops.len()
}

/// Up to `n` 32-bit values from `pos`, stopping where fewer than four bytes
/// remain; also the position after them.
pub open spec fn u32_list(ops: Seq<u8>, pos: int, n: nat) -> (Seq<u32>, int)
    decreases n,
{
    if n == 0 || !word_at(ops, pos) {
        (seq![], pos)
    } else {
        let r = u32_list(ops, pos + 4, (n - 1) as nat);
        (seq![le32(ops, pos)] + r.0, r.1)
    }
}

/// Up to `n` dependency lists (each a 32-bit count followed by that many
/// 32-bit task indices) from `pos`.
pub open spec fn dep_lists(ops: Seq<u8>, pos: int, n: nat) -> (Seq<Seq<u32>>, int)
    decreases n,
{
    if n == 0 || !word_at(ops, pos) {
        (seq![], pos)
    } else {
        let d = u32_list(ops, pos + 4, le32(ops, pos) as nat);
        let r = dep_lists(ops, d.1, (n - 1) as nat);
        (seq![d.0] + r.0, r.1)
    }
}

/// The task dependency table at `pos`: a 32-bit task count and the lists.
pub open spec fn task_deps_at(ops: Seq<u8>, pos: int) -> (Seq<Seq<u32>>, int) {
    if word_at(ops, pos) {
        dep_lists(ops, pos + 4, le32(ops, pos) as nat)
    } else {
        (seq![], pos)
    }
}

/// Up to `n` strings (each a 32-bit byte length followed by the bytes) from
/// `pos`. A string whose bytes run past the end is skipped.
pub open spec fn string_list(ops: Seq<u8>, pos: int, n: nat) -> (Seq<Seq<char>>, int)
    decreases n,
{
    if n == 0 || !word_at(ops, pos) {
        (seq![], pos)
    } else {
        let l = le32(ops, pos) as int;
        let p = pos + 4;
        if p + l <= ops.len() {
            let r = string_list(ops, p + l, (n - 1) as nat);
            (seq![utf8_lossy(ops.subrange(p, p + l))] + r.0, r.1)
        } else {
            string_list(ops, p, (n - 1) as nat)
        }
    }
}

/// Up to `n` resource lists (each a 32-bit count followed by strings) from `pos`.
pub open spec fn resource_lists(ops: Seq<u8>, pos: int, n: nat) -> (Seq<Seq<Seq<char>>>, int)
    decreases n,
{
    if n == 0 || !word_at(ops, pos) {
        (seq![], pos)
    } else {
        let d = string_list(ops, pos + 4, le32(ops, pos) as nat);
        let r = resource_lists(ops, d.1, (n - 1) as nat);
        (seq![d.0] + r.0, r.1)
    }
}

/// The task resource table at `pos`: a 32-bit task count and the lists.
pub open spec fn task_resources_at(ops: Seq<u8>, pos: int) -> (Seq<Seq<Seq<char>>>, int) {
    if word_at(ops, pos) {
        resource_lists(ops, pos + 4, le32(ops, pos) as nat)
    } else {
        (seq![], pos)
    }
}

fn has_word(ops: &[u8], pos: u64) -> (b: bool)
    ensures
        b == word_at(ops@, pos as int),
{
    let len = ops.len() as u64;
    pos < len && len - pos > 3
}

fn read_word(ops: &[u8], pos: u64) -> (v: u32)
    requires
        word_at(ops@, pos as int),
    ensures
        v == le32(ops@, pos as int),
{
    let p = pos as usize;
    ops[p] as u32 + (ops[p + 1] as u32) * 256 + (ops[p + 2] as u32) * 65536 + (ops[p + 3] as u32)
        * 16777216
}

fn read_u32_list(ops: &[u8], pos: u64, n: u32) -> (r: (Vec<u32>, u64))
    requires
        pos <= ops@.len() || !word_at(ops@, pos as int),
    ensures
        (r.0@, r.1 as int) == u32_list(ops@, pos as int, n as nat),
        r.1 <= ops@.len() || r.1 == pos,
{
    let mut out: Vec<u32> = Vec::new();
    let mut p = pos;
    let mut k: u32 = 0;
    let total = ops.len();
    while k < n && has_word(ops, p)
        invariant
            total == ops@.len(),
            k <= n,
            p == pos || p <= ops@.len(),
            pos <= ops@.len() || !word_at(ops@, pos as int),
            ({
                let rest = u32_list(ops@, p as int, (n - k) as nat);
                u32_list(ops@, pos as int, n as nat) == (out@ + rest.0, rest.1)
            }),
        decreases n - k,
    {
        let ghost rest_before = u32_list(ops@, p as int, (n - k) as nat);
        let v = read_word(ops, p);
        out.push(v);
        p = p + 4;
        k = k + 1;
        proof {
            let rest = u32_list(ops@, p as int, (n - k) as nat);
            assert(rest_before.0 == seq![v] + rest.0);
            assert(out@ + rest.0 =~= out@.drop_last() + rest_before.0);
        }
    }
    proof {
        let rest = u32_list(ops@, p as int, (n - k) as nat);
        assert(rest.0 =~= seq![]);
        assert(out@ + rest.0 =~= out@);
    }
    (out, p)
}


fn read_dep_lists(ops: &[u8], pos: u64, n: u32) -> (r: (Vec<Vec<u32>>, u64))
    requires
        pos <= ops@.len() || !word_at(ops@, pos as int),
    ensures
        (r.0.deep_view(), r.1 as int) == dep_lists(ops@, pos as int, n as nat),
        r.1 <= ops@.len() || r.1 == pos,
{
    let mut out: Vec<Vec<u32>> = Vec::new();
    let mut p = pos;
    let mut k: u32 = 0;
    let total = ops.len();
    while k < n && has_word(ops, p)
        invariant
            total == ops@.len(),
            k <= n,
            p == pos || p <= ops@.len(),
            pos <= ops@.len() || !word_at(ops@, pos as int),
            ({
                let rest = dep_lists(ops@, p as int, (n - k) as nat);
                dep_lists(ops@, pos as int, n as nat) == (out.deep_view() + rest.0, rest.1)
            }),
        decreases n - k,
    {
        let ghost rest_before = dep_lists(ops@, p as int, (n - k) as nat);
        let ghost old_dv = out.deep_view();
        let count = read_word(ops, p);
        let (deps, next) = read_u32_list(ops, p + 4, count);
        proof {
            assert(deps.deep_view() =~= deps@);
        }
        out.push(deps);
        p = next;
        k = k + 1;
        proof {
            let rest = dep_lists(ops@, p as int, (n - k) as nat);
            assert(out.deep_view() =~= old_dv.push(deps@));
            assert(rest_before.0 == seq![deps@] + rest.0);
            assert(out.deep_view() + rest.0 =~= old_dv + rest_before.0);
        }
    }
    proof {
        let rest = dep_lists(ops@, p as int, (n - k) as nat);
        assert(rest.0 =~= seq![]);
        assert(out.deep_view() + rest.0 =~= out.deep_view());
    }
    (out, p)
}

fn read_task_deps(ops: &[u8], pos: u64) -> (r: (Vec<Vec<u32>>, u64))
    requires
        pos <= ops@.len() || !word_at(ops@, pos as int),
    ensures
        (r.0.deep_view(), r.1 as int) == task_deps_at(ops@, pos as int),
        r.1 <= ops@.len() || r.1 == pos,
{
    let total = ops.len();
    if has_word(ops, pos) {
        let n = read_word(ops, pos);
        read_dep_lists(ops, pos + 4, n)
    } else {
        let out: Vec<Vec<u32>> = Vec::new();
        assert(out.deep_view() =~= seq![]);
        (out, pos)
    }
}

fn read_string_list(ops: &[u8], pos: u64, n: u32) -> (r: (Vec<String>, u64))
    requires
        pos <= ops@.len() || !word_at(ops@, pos as int),
    ensures
        (r.0.deep_view(), r.1 as int) == string_list(ops@, pos as int, n as nat),
        r.1 <= ops@.len() || r.1 == pos,
{
    let mut out: Vec<String> = Vec::new();
    let mut p = pos;
    let mut k: u32 = 0;
    let total = ops.len();
    while k < n && has_word(ops, p)
        invariant
            total == ops@.len(),
            k <= n,
            p == pos || p <= ops@.len(),
            pos <= ops@.len() || !word_at(ops@, pos as int),
            ({
                let rest = string_list(ops@, p as int, (n - k) as nat);
                string_list(ops@, pos as int, n as nat) == (out.deep_view() + rest.0, rest.1)
            }),
        decreases n - k,
    {
        let ghost rest_before = string_list(ops@, p as int, (n - k) as nat);
        let ghost old_dv = out.deep_view();
        let l = read_word(ops, p);
        let start = p + 4;
        if (l as u64) <= (total as u64) - start {
            let end = start + l as u64;
            let bytes = vstd::slice::slice_subrange(ops, start as usize, end as usize);
            let s = string_from_utf8_lossy(bytes);
            let ghost sv = s@;
            out.push(s);
            p = end;
            k = k + 1;
            proof {
                let rest = string_list(ops@, p as int, (n - k) as nat);
                assert(out.deep_view() =~= old_dv.push(sv));
                assert(rest_before.0 == seq![sv] + rest.0);
                assert(out.deep_view() + rest.0 =~= old_dv + rest_before.0);
            }
        } else {
            p = start;
            k = k + 1;
        }
    }
    proof {
        let rest = string_list(ops@, p as int, (n - k) as nat);
        assert(rest.0 =~= seq![]);
        assert(out.deep_view() + rest.0 =~= out.deep_view());
    }
    (out, p)
}

fn read_resource_lists(ops: &[u8], pos: u64, n: u32) -> (r: (Vec<Vec<String>>, u64))
    requires
        pos <= ops@.len() || !word_at(ops@, pos as int),
    ensures
        (r.0.deep_view(), r.1 as int) == resource_lists(ops@, pos as int, n as nat),
        r.1 <= ops@.len() || r.1 == pos,
{
    let mut out: Vec<Vec<String>> = Vec::new();
    let mut p = pos;
    let mut k: u32 = 0;
    let total = ops.len();
    while k < n && has_word(ops, p)
        invariant
            total == ops@.len(),
            k <= n,
            p == pos || p <= ops@.len(),
            pos <= ops@.len() || !word_at(ops@, pos as int),
            ({
                let rest = resource_lists(ops@, p as int, (n - k) as nat);
                resource_lists(ops@, pos as int, n as nat) == (out.deep_view() + rest.0, rest.1)
            }),
        decreases n - k,
    {
        let ghost rest_before = resource_lists(ops@, p as int, (n - k) as nat);
        let ghost old_dv = out.deep_view();
        let count = read_word(ops, p);
        let (strs, next) = read_string_list(ops, p + 4, count);
        let ghost sdv = strs.deep_view();
        out.push(strs);
        p = next;
        k = k + 1;
        proof {
            let rest = resource_lists(ops@, p as int, (n - k) as nat);
            assert(out.deep_view() =~= old_dv.push(sdv));
            assert(rest_before.0 == seq![sdv] + rest.0);
            assert(out.deep_view() + rest.0 =~= old_dv + rest_before.0);
        }
    }
    proof {
        let rest = resource_lists(ops@, p as int, (n - k) as nat);
        assert(rest.0 =~= seq![]);
        assert(out.deep_view() + rest.0 =~= out.deep_view());
    }
    (out, p)
}

fn read_task_resources(ops: &[u8], pos: u64) -> (r: Vec<Vec<String>>)
    requires
        pos <= ops@.len() || !word_at(ops@, pos as int),
    ensures
        r.deep_view() == task_resources_at(ops@, pos as int).0,
{
    let total = ops.len();
    if has_word(ops, pos) {
        let n = read_word(ops, pos);
        read_resource_lists(ops, pos + 4, n).0
    } else {
        let out: Vec<Vec<String>> = Vec::new();
        assert(out.deep_view() =~= seq![]);
        out
    }
}


/// The comparison instruction with the given operands.
pub open spec fn compare_instr(dst: Reg, lhs: Reg, rhs: Reg, c: CompareOp) -> BytecodeInstr {
    BytecodeInstr::Compare { dst, lhs, rhs, cmp: c }
}

fn make_compare(dst: Reg, lhs: Reg, rhs: Reg, c: CompareOp) -> (i: BytecodeInstr)
    ensures
        i == compare_instr(dst, lhs, rhs, c),
{
    BytecodeInstr::Compare { dst, lhs, rhs, cmp: c }
}


// ---------------------------------------------------------------------
// Instruction decoding
// ---------------------------------------------------------------------

/// What one encoded record contributes to a decoded function.
#[derive(Debug, Clone)]
pub enum Decoded {
    /// A label definition: the label id (it marks the position of the next
    /// decoded instruction).
    Label(u32),
    /// A decoded instruction.
    Instr(BytecodeInstr),
    /// Nothing (the record is too short for its layout).
    Skip,
}

/// Whether a record with opcode `op` and `len` operand bytes decodes to an
/// instruction. Label records never do; a few opcodes contribute nothing
/// when their operands are too short, all others fall back to `Nop`.
pub open spec fn emits(op: u8, len: int) -> bool {
    if op == opcode::LABEL {
        false
    } else if op == opcode::JMP {
        len > 0
    } else if op == opcode::JMP_IF {
        len >= 5
    } else if op == opcode::JMP_IF_NOT {
        len >= 5
    } else if op == opcode::I64_SUB {
        len >= 3
    } else if op == opcode::I64_MUL {
        len >= 3
    } else if op == opcode::I64_DIV {
        len >= 3
    } else if op == opcode::I64_REM {
        len >= 3
    } else if op == opcode::I64_AND {
        len >= 3
    } else if op == opcode::I64_OR {
        len >= 3
    } else if op == opcode::I64_XOR {
        len >= 3
    } else if op == opcode::I64_SHL {
        len >= 3
    } else if op == opcode::I64_SAR {
        len >= 3
    } else if op == opcode::I64_SHR {
        len >= 3
    } else if op == opcode::I64_LT {
        len >= 3
    } else if op == opcode::I64_LE {
        len >= 3
    } else if op == opcode::I64_GT {
        len >= 3
    } else if op == opcode::I64_GE {
        len >= 3
    } else if op == opcode::I64_NE {
        len >= 3
    } else if op == opcode::I64_EQ {
        len >= 3
    } else if op == opcode::I64_NEG {
        len >= 2
    } else {
        true
    }
}

/// `op` has a decoding: every opcode of the encoding table except `SWITCH`,
/// which has none. Any other opcode byte makes decoding panic.
pub open spec fn decodable_opcode(op: u8) -> bool {
    ||| op == opcode::NOP
    ||| op == opcode::RETURN
    ||| op == opcode::RETURN_VALUE
    ||| op == opcode::JMP
    ||| op == opcode::JMP_IF
    ||| op == opcode::JMP_IF_NOT
    ||| op == opcode::LABEL
    ||| op == opcode::YIELD
    ||| op == opcode::SPAWN
    ||| op == opcode::SPAWN_FROM_LIST
    ||| op == opcode::MOV
    ||| op == opcode::LOAD_CONST
    ||| op == opcode::LOAD_LOCAL
    ||| op == opcode::STORE_LOCAL
    ||| op == opcode::LOAD_ARG
    ||| op == opcode::I64_ADD
    ||| op == opcode::I64_SUB
    ||| op == opcode::I64_MUL
    ||| op == opcode::I64_DIV
    ||| op == opcode::I64_REM
    ||| op == opcode::I64_AND
    ||| op == opcode::I64_OR
    ||| op == opcode::I64_XOR
    ||| op == opcode::I64_SHL
    ||| op == opcode::I64_SAR
    ||| op == opcode::I64_SHR
    ||| op == opcode::I64_NEG
    ||| op == opcode::I64_EQ
    ||| op == opcode::I64_NE
    ||| op == opcode::I64_LT
    ||| op == opcode::I64_LE
    ||| op == opcode::I64_GT
    ||| op == opcode::I64_GE
    ||| op == opcode::STACK_ALLOC
    ||| op == opcode::HEAP_ALLOC
    ||| op == opcode::DROP
    ||| op == opcode::GET_FIELD
    ||| op == opcode::SET_FIELD
    ||| op == opcode::LOAD_ELEMENT
    ||| op == opcode::STORE_ELEMENT
    ||| op == opcode::NEW_LIST_WITH_CAP
    ||| op == opcode::CREATE_STRUCT
    ||| op == opcode::NEW_DICT
    ||| op == opcode::NEW_TUPLE
    ||| op == opcode::NEW_RANGE
    ||| op == opcode::CREATE_VARIANT
    ||| op == opcode::VARIANT_TAG
    ||| op == opcode::VARIANT_PAYLOAD
    ||| op == opcode::NEW_ARRAY
    ||| op == opcode::CONTAINS
    ||| op == opcode::CALL_STATIC
    ||| op == opcode::CALL_NATIVE
    ||| op == opcode::CALL_VIRT
    ||| op == opcode::CALL_DYN
    ||| op == opcode::MAKE_CLOSURE
    ||| op == opcode::LOAD_UPVALUE
    ||| op == opcode::STORE_UPVALUE
    ||| op == opcode::CLOSE_UPVALUE
    ||| op == opcode::TAIL_CALL
    ||| op == opcode::ARC_NEW
    ||| op == opcode::ARC_CLONE
    ||| op == opcode::ARC_DROP
    ||| op == opcode::WEAK_NEW
    ||| op == opcode::WEAK_UPGRADE
    ||| op == opcode::BORROW
    ||| op == opcode::RELEASE
    ||| op == opcode::RC_NEW
    ||| op == opcode::STRING_LENGTH
    ||| op == opcode::STRING_CONCAT
    ||| op == opcode::STRING_EQUAL
    ||| op == opcode::STRING_GET_CHAR
    ||| op == opcode::STRING_FROM_INT
    ||| op == opcode::STRING_FROM_FLOAT
    ||| op == opcode::TRY_BEGIN
    ||| op == opcode::TRY_END
    ||| op == opcode::THROW
    ||| op == opcode::BOUNDS_CHECK
    ||| op == opcode::TYPE_CHECK
    ||| op == opcode::CAST
    ||| op == opcode::TYPE_OF
}

/// `i == v` where the layout's length condition `ok` holds, else `i` is `Nop`.
pub open spec fn or_nop(ok: bool, i: BytecodeInstr, v: BytecodeInstr) -> bool {
    if ok {
        i == v
    } else {
        i == BytecodeInstr::Nop
    }
}

/// A native call whose operand count does not match the plain layout carries
/// the FFI metadata words and its argument header, at least 19 bytes.
pub open spec fn native_layout_ok(op: u8, ops: Seq<u8>) -> bool {
    op == opcode::CALL_NATIVE && ops.len() >= 7 && 7 + 2 * ops[6] != ops.len() ==> ops.len()
        >= 19
}

/// The spawn record: dst(2) + closure count(4) + closures(2 each), then the
/// dependency and resource tables.
pub open spec fn spawn_ok(ops: Seq<u8>, i: BytecodeInstr) -> bool {
    let cc = le32(ops, 2) as int;
    let deps = task_deps_at(ops, 6 + 2 * cc);
    &&& i matches BytecodeInstr::Spawn { dst, closures, task_deps, task_resources }
    &&& dst == Reg(le16(ops, 0))
    &&& closures@ == regs16(ops, 6, cc)
    &&& task_deps.deep_view() == deps.0
    &&& task_resources.deep_view() == task_resources_at(ops, deps.1).0
}

/// The spawn-from-list record: dst(2) + list register(2), then the
/// dependency and resource tables.
pub open spec fn spawn_from_list_ok(ops: Seq<u8>, i: BytecodeInstr) -> bool {
    let deps = task_deps_at(ops, 4);
    &&& i matches BytecodeInstr::SpawnFromList { dst, closures_list, task_deps, task_resources }
    &&& dst == Reg(le16(ops, 0))
    &&& closures_list == Reg(le16(ops, 2))
    &&& task_deps.deep_view() == deps.0
    &&& task_resources.deep_view() == task_resources_at(ops, deps.1).0
}

/// The native call record: dst(1) + name index(4), then either
/// base(1) + count(1) + args(2 each), or mechanism, library and symbol
/// indices (4 each) + base(1) + count(1) + args(2 each).
pub open spec fn call_native_ok(ops: Seq<u8>, pool: Seq<ConstValue>, i: BytecodeInstr) -> bool {
    let name = pool_string_or_named(pool, le32(ops, 1) as nat, "native_"@);
    let count = ops[6] as int;
    &&& i matches BytecodeInstr::CallNative { dst, func_name, mechanism, lib, symbol, args }
    &&& dst == Some(reg8(ops, 0))
    &&& func_name@ == name
    &&& if 7 + 2 * count != ops.len() {
        &&& mechanism@ == pool_string_or_empty(pool, le32_or_zero(ops, 5) as int)
        &&& lib@ == pool_string_or_empty(pool, le32_or_zero(ops, 9) as int)
        &&& symbol@ == pool_string_or_empty(pool, le32_or_zero(ops, 13) as int)
        &&& args@ == regs16(ops, 19, ops[18] as int)
    } else {
        &&& mechanism@ == Seq::<char>::empty()
        &&& lib@ == Seq::<char>::empty()
        &&& symbol@ == name
        &&& args@ == regs16(ops, 7, count)
    }
}

/// `i` is the instruction that the record (`op`, `ops`) decodes to, given
/// that the record emits one (see [`emits`]).
pub open spec fn instr_ok(op: u8, ops: Seq<u8>, pool: Seq<ConstValue>, i: BytecodeInstr) -> bool {
    let len = ops.len() as int;
    if op == opcode::NOP {
        i == BytecodeInstr::Nop
    } else if op == opcode::RETURN {
        i == BytecodeInstr::Return
    } else if op == opcode::YIELD {
        i == BytecodeInstr::Yield
    } else if op == opcode::TRY_END {
        i == BytecodeInstr::TryEnd
    } else if op == opcode::RETURN_VALUE {
        if len >= 2 {
            i == BytecodeInstr::ReturnValue { value: Reg(le16(ops, 0)) }
        } else if len == 1 {
            i == BytecodeInstr::ReturnValue { value: Reg(ops[0] as u16) }
        } else {
            i == BytecodeInstr::Return
        }
    } else if op == opcode::JMP {
        i == BytecodeInstr::Jmp { target: Label(le32_or_zero(ops, 0)) }
    } else if op == opcode::JMP_IF {
        or_nop(len >= 5, i, BytecodeInstr::JmpIf { cond: Reg(ops[0] as u16), target: Label(le32(ops, 1)) })
    } else if op == opcode::JMP_IF_NOT {
        or_nop(len >= 5, i, BytecodeInstr::JmpIfNot { cond: Reg(ops[0] as u16), target: Label(le32(ops, 1)) })
    } else if op == opcode::MOV {
        or_nop(len >= 2, i, BytecodeInstr::Mov { dst: Reg(ops[0] as u16), src: Reg(ops[1] as u16) })
    } else if op == opcode::LOAD_CONST {
        or_nop(len >= 3, i, BytecodeInstr::LoadConst { dst: Reg(ops[0] as u16), const_idx: le16(ops, 1) })
    } else if op == opcode::LOAD_LOCAL {
        or_nop(len >= 2, i, BytecodeInstr::LoadLocal { dst: Reg(ops[0] as u16), local_idx: ops[1] })
    } else if op == opcode::STORE_LOCAL {
        or_nop(len >= 2, i, BytecodeInstr::StoreLocal { local_idx: ops[0], src: Reg(ops[1] as u16) })
    } else if op == opcode::LOAD_ARG {
        or_nop(len >= 2, i, BytecodeInstr::LoadArg { dst: Reg(ops[0] as u16), arg_idx: ops[1] })
    } else if op == opcode::NEW_LIST_WITH_CAP {
        or_nop(len >= 3, i, BytecodeInstr::NewListWithCap { dst: Reg(ops[0] as u16), capacity: le16(ops, 1) })
    } else if op == opcode::LOAD_ELEMENT {
        or_nop(len >= 3, i, BytecodeInstr::LoadElement { dst: Reg(ops[0] as u16), array: Reg(ops[1] as u16), index: Reg(ops[2] as u16) })
    } else if op == opcode::STORE_ELEMENT {
        or_nop(len >= 3, i, BytecodeInstr::StoreElement { array: Reg(ops[0] as u16), index: Reg(ops[1] as u16), value: Reg(ops[2] as u16) })
    } else if op == opcode::NEW_RANGE {
        or_nop(len >= 8, i, BytecodeInstr::NewRange { dst: Reg(le16(ops, 0)), start: Reg(le16(ops, 2)), end: Reg(le16(ops, 4)), step: Reg(le16(ops, 6)) })
    } else if op == opcode::CREATE_VARIANT {
        or_nop(len >= 10, i, BytecodeInstr::CreateVariant { dst: Reg(le16(ops, 0)), group_idx: le16(ops, 2), variant: le32(ops, 4), payload: Reg(le16(ops, 8)) })
    } else if op == opcode::VARIANT_TAG {
        or_nop(len >= 6, i, BytecodeInstr::VariantTag { dst: Reg(le16(ops, 0)), obj: Reg(le16(ops, 2)), group_idx: le16(ops, 4) })
    } else if op == opcode::VARIANT_PAYLOAD {
        or_nop(len >= 6, i, BytecodeInstr::VariantPayload { dst: Reg(le16(ops, 0)), obj: Reg(le16(ops, 2)), group_idx: le16(ops, 4) })
    } else if op == opcode::NEW_ARRAY {
        or_nop(len >= 5, i, BytecodeInstr::NewArray { dst: Reg(ops[0] as u16), count: le32(ops, 1) })
    } else if op == opcode::CONTAINS {
        or_nop(len >= 3, i, BytecodeInstr::Contains { dst: Reg(ops[0] as u16), elem: Reg(ops[1] as u16), container: Reg(ops[2] as u16) })
    } else if op == opcode::LOAD_UPVALUE {
        or_nop(len >= 2, i, BytecodeInstr::LoadUpvalue { dst: Reg(ops[0] as u16), upvalue_idx: ops[1] })
    } else if op == opcode::STORE_UPVALUE {
        or_nop(len >= 2, i, BytecodeInstr::StoreUpvalue { src: Reg(ops[0] as u16), upvalue_idx: ops[1] })
    } else if op == opcode::BORROW {
        or_nop(len >= 5, i, BytecodeInstr::Borrow { dst: Reg(le16(ops, 0)), src: Reg(le16(ops, 2)), mutable: ops[4] != 0 })
    } else if op == opcode::RELEASE {
        or_nop(len >= 2, i, BytecodeInstr::Release { src: Reg(le16(ops, 0)) })
    } else if op == opcode::GET_FIELD {
        or_nop(len >= 4, i, BytecodeInstr::GetField { dst: Reg(ops[0] as u16), src: Reg(ops[1] as u16), field_idx: le16(ops, 2) })
    } else if op == opcode::SET_FIELD {
        or_nop(len >= 4, i, BytecodeInstr::SetField { src: Reg(ops[0] as u16), field_idx: le16(ops, 1), value: Reg(ops[3] as u16) })
    } else if op == opcode::ARC_NEW {
        or_nop(len >= 2, i, BytecodeInstr::ArcNew { dst: Reg(ops[0] as u16), src: Reg(ops[1] as u16) })
    } else if op == opcode::RC_NEW {
        or_nop(len >= 2, i, BytecodeInstr::RcNew { dst: Reg(ops[0] as u16), src: Reg(ops[1] as u16) })
    } else if op == opcode::ARC_CLONE {
        or_nop(len >= 2, i, BytecodeInstr::ArcClone { dst: Reg(ops[0] as u16), src: Reg(ops[1] as u16) })
    } else if op == opcode::WEAK_NEW {
        or_nop(len >= 2, i, BytecodeInstr::WeakNew { dst: Reg(ops[0] as u16), src: Reg(ops[1] as u16) })
    } else if op == opcode::WEAK_UPGRADE {
        or_nop(len >= 2, i, BytecodeInstr::WeakUpgrade { dst: Reg(ops[0] as u16), src: Reg(ops[1] as u16) })
    } else if op == opcode::ARC_DROP {
        or_nop(len >= 1, i, BytecodeInstr::ArcDrop { src: Reg(ops[0] as u16) })
    } else if op == opcode::DROP {
        or_nop(len >= 1, i, BytecodeInstr::Drop { value: Reg(ops[0] as u16) })
    } else if op == opcode::CAST {
        or_nop(len >= 4, i, BytecodeInstr::Cast { dst: Reg(ops[0] as u16), src: Reg(ops[1] as u16), target_type_id: le16(ops, 2) })
    } else if op == opcode::HEAP_ALLOC {
        or_nop(len >= 3, i, BytecodeInstr::HeapAlloc { dst: Reg(ops[0] as u16), type_id: le16(ops, 1) })
    } else if op == opcode::STACK_ALLOC {
        or_nop(len >= 3, i, BytecodeInstr::StackAlloc { dst: Reg(ops[0] as u16), size: le16(ops, 1) })
    } else if op == opcode::TYPE_CHECK {
        or_nop(len >= 3, i, BytecodeInstr::TypeCheck { value: Reg(ops[0] as u16), type_id: le16(ops, 1) })
    } else if op == opcode::TYPE_OF {
        or_nop(len >= 2, i, BytecodeInstr::TypeOf { dst: Reg(ops[0] as u16), src: Reg(ops[1] as u16) })
    } else if op == opcode::BOUNDS_CHECK {
        or_nop(len >= 2, i, BytecodeInstr::BoundsCheck { array: Reg(ops[0] as u16), index: Reg(ops[1] as u16) })
    } else if op == opcode::CLOSE_UPVALUE {
        or_nop(len >= 1, i, BytecodeInstr::CloseUpvalue { src: Reg(ops[0] as u16) })
    } else if op == opcode::TAIL_CALL {
        or_nop(
            len >= 6,
            i,
            BytecodeInstr::TailCall { func: le32(ops, 0), base: Reg(ops[4] as u16), arg_count: ops[5] },
        )
    } else if op == opcode::STRING_LENGTH {
        or_nop(len >= 2, i, BytecodeInstr::StringLength { dst: Reg(ops[0] as u16), src: Reg(ops[1] as u16) })
    } else if op == opcode::STRING_FROM_INT {
        or_nop(len >= 2, i, BytecodeInstr::StringFromInt { dst: Reg(ops[0] as u16), src: Reg(ops[1] as u16) })
    } else if op == opcode::STRING_FROM_FLOAT {
        or_nop(len >= 2, i, BytecodeInstr::StringFromFloat { dst: Reg(ops[0] as u16), src: Reg(ops[1] as u16) })
    } else if op == opcode::STRING_CONCAT {
        or_nop(len >= 3, i, BytecodeInstr::StringConcat { dst: Reg(ops[0] as u16), str1: Reg(ops[1] as u16), str2: Reg(ops[2] as u16) })
    } else if op == opcode::STRING_EQUAL {
        or_nop(len >= 3, i, BytecodeInstr::StringEqual { dst: Reg(ops[0] as u16), str1: Reg(ops[1] as u16), str2: Reg(ops[2] as u16) })
    } else if op == opcode::STRING_GET_CHAR {
        or_nop(len >= 3, i, BytecodeInstr::StringGetChar { dst: Reg(ops[0] as u16), src: Reg(ops[1] as u16), index: Reg(ops[2] as u16) })
    } else if op == opcode::TRY_BEGIN {
        or_nop(len >= 4, i, BytecodeInstr::TryBegin { catch_target: Label(le32(ops, 0)) })
    } else if op == opcode::THROW {
        or_nop(len >= 1, i, BytecodeInstr::Throw { error: Reg(ops[0] as u16) })
    } else if op == opcode::I64_ADD {
        or_nop(len >= 3, i, BytecodeInstr::BinaryOp { dst: Reg(ops[0] as u16), lhs: Reg(ops[1] as u16), rhs: Reg(ops[2] as u16), op: BinaryOp::Add })
    } else if op == opcode::I64_SUB {
        or_nop(len >= 3, i, BytecodeInstr::BinaryOp { dst: Reg(ops[0] as u16), lhs: Reg(ops[1] as u16), rhs: Reg(ops[2] as u16), op: BinaryOp::Sub })
    } else if op == opcode::I64_MUL {
        or_nop(len >= 3, i, BytecodeInstr::BinaryOp { dst: Reg(ops[0] as u16), lhs: Reg(ops[1] as u16), rhs: Reg(ops[2] as u16), op: BinaryOp::Mul })
    } else if op == opcode::I64_DIV {
        or_nop(len >= 3, i, BytecodeInstr::BinaryOp { dst: Reg(ops[0] as u16), lhs: Reg(ops[1] as u16), rhs: Reg(ops[2] as u16), op: BinaryOp::Div })
    } else if op == opcode::I64_REM {
        or_nop(len >= 3, i, BytecodeInstr::BinaryOp { dst: Reg(ops[0] as u16), lhs: Reg(ops[1] as u16), rhs: Reg(ops[2] as u16), op: BinaryOp::Rem })
    } else if op == opcode::I64_AND {
        or_nop(len >= 3, i, BytecodeInstr::BinaryOp { dst: Reg(ops[0] as u16), lhs: Reg(ops[1] as u16), rhs: Reg(ops[2] as u16), op: BinaryOp::And })
    } else if op == opcode::I64_OR {
        or_nop(len >= 3, i, BytecodeInstr::BinaryOp { dst: Reg(ops[0] as u16), lhs: Reg(ops[1] as u16), rhs: Reg(ops[2] as u16), op: BinaryOp::Or })
    } else if op == opcode::I64_XOR {
        or_nop(len >= 3, i, BytecodeInstr::BinaryOp { dst: Reg(ops[0] as u16), lhs: Reg(ops[1] as u16), rhs: Reg(ops[2] as u16), op: BinaryOp::Xor })
    } else if op == opcode::I64_SHL {
        or_nop(len >= 3, i, BytecodeInstr::BinaryOp { dst: Reg(ops[0] as u16), lhs: Reg(ops[1] as u16), rhs: Reg(ops[2] as u16), op: BinaryOp::Shl })
    } else if op == opcode::I64_SAR {
        or_nop(len >= 3, i, BytecodeInstr::BinaryOp { dst: Reg(ops[0] as u16), lhs: Reg(ops[1] as u16), rhs: Reg(ops[2] as u16), op: BinaryOp::Sar })
    } else if op == opcode::I64_SHR {
        or_nop(len >= 3, i, BytecodeInstr::BinaryOp { dst: Reg(ops[0] as u16), lhs: Reg(ops[1] as u16), rhs: Reg(ops[2] as u16), op: BinaryOp::Shr })
    } else if op == opcode::I64_LT {
        or_nop(len >= 3, i, compare_instr(Reg(ops[0] as u16), Reg(ops[1] as u16), Reg(ops[2] as u16), CompareOp::Lt))
    } else if op == opcode::I64_LE {
        or_nop(len >= 3, i, compare_instr(Reg(ops[0] as u16), Reg(ops[1] as u16), Reg(ops[2] as u16), CompareOp::Le))
    } else if op == opcode::I64_GT {
        or_nop(len >= 3, i, compare_instr(Reg(ops[0] as u16), Reg(ops[1] as u16), Reg(ops[2] as u16), CompareOp::Gt))
    } else if op == opcode::I64_GE {
        or_nop(len >= 3, i, compare_instr(Reg(ops[0] as u16), Reg(ops[1] as u16), Reg(ops[2] as u16), CompareOp::Ge))
    } else if op == opcode::I64_NE {
        or_nop(len >= 3, i, compare_instr(Reg(ops[0] as u16), Reg(ops[1] as u16), Reg(ops[2] as u16), CompareOp::Ne))
    } else if op == opcode::I64_EQ {
        or_nop(len >= 3, i, compare_instr(Reg(ops[0] as u16), Reg(ops[1] as u16), Reg(ops[2] as u16), CompareOp::Eq))
    } else if op == opcode::I64_NEG {
        or_nop(len >= 2, i, BytecodeInstr::UnaryOp { dst: Reg(ops[0] as u16), src: Reg(ops[1] as u16), op: UnaryOp::Neg })
    } else if op == opcode::CALL_STATIC {
        if len >= 7 {
            &&& i matches BytecodeInstr::CallStatic { dst, func, args }
            &&& dst == Some(reg8(ops, 0))
            &&& func == le32(ops, 1)
            &&& args@ == regs16(ops, 7, ops[6] as int)
        } else {
            i == BytecodeInstr::Nop
        }
    } else if op == opcode::CALL_NATIVE {
        if len >= 7 {
            call_native_ok(ops, pool, i)
        } else {
            i == BytecodeInstr::Nop
        }
    } else if op == opcode::CALL_VIRT {
        if len >= 5 {
            &&& i matches BytecodeInstr::CallVirt { dst, obj, method_idx, args }
            &&& dst == Some(reg8(ops, 0))
            &&& obj == reg8(ops, 1)
            &&& method_idx == le16(ops, 2)
            &&& args@ == regs8_before_last(ops, 4, ops[len - 1] as int)
        } else {
            i == BytecodeInstr::Nop
        }
    } else if op == opcode::CALL_DYN {
        if len >= 5 {
            &&& i matches BytecodeInstr::CallDyn { dst, obj, name_idx, args }
            &&& dst == Some(reg8(ops, 0))
            &&& obj == reg8(ops, 1)
            &&& name_idx == le16(ops, 2)
            &&& args@ == regs8_before_last(ops, 4, ops[len - 1] as int)
        } else {
            i == BytecodeInstr::Nop
        }
    } else if op == opcode::MAKE_CLOSURE {
        if len >= 6 {
            &&& i matches BytecodeInstr::MakeClosure { dst, func, env }
            &&& dst == reg8(ops, 0)
            &&& func == le32(ops, 1)
            &&& env@ == regs16(ops, 6, ops[5] as int)
        } else {
            i == BytecodeInstr::Nop
        }
    } else if op == opcode::CREATE_STRUCT {
        if len >= 6 {
            &&& i matches BytecodeInstr::CreateStruct { dst, struct_name, fields }
            &&& dst == reg8(ops, 0)
            &&& struct_name@ == pool_string_or_named(pool, le32(ops, 1) as nat, "struct_"@)
            &&& fields@ == regs16(ops, 6, ops[5] as int)
        } else {
            i == BytecodeInstr::Nop
        }
    } else if op == opcode::NEW_DICT {
        if len >= 6 {
            let count = le32(ops, 2) as int;
            &&& i matches BytecodeInstr::NewDict { dst, keys, values }
            &&& dst == Reg(le16(ops, 0))
            &&& keys@ == regs16(ops, 6, count)
            &&& values@ == regs16(ops, 6 + 2 * count, count)
        } else {
            i == BytecodeInstr::Nop
        }
    } else if op == opcode::NEW_TUPLE {
        if len >= 6 {
            &&& i matches BytecodeInstr::NewTuple { dst, items }
            &&& dst == Reg(le16(ops, 0))
            &&& items@ == regs16(ops, 6, le32(ops, 2) as int)
        } else {
            i == BytecodeInstr::Nop
        }
    } else if op == opcode::SPAWN {
        if len >= 8 {
            spawn_ok(ops, i)
        } else {
            i == BytecodeInstr::Nop
        }
    } else if op == opcode::SPAWN_FROM_LIST {
        if len >= 4 {
            spawn_from_list_ok(ops, i)
        } else {
            i == BytecodeInstr::Nop
        }
    } else {
        false
    }
}

/// `d` is what the encoded record (`op`, `ops`) decodes to, with string
/// operands resolved in `pool`.
pub open spec fn decoded_ok(op: u8, ops: Seq<u8>, pool: Seq<ConstValue>, d: Decoded) -> bool {
    if op == opcode::LABEL {
        if ops.len() > 0 {
            d == Decoded::Label(le32_or_zero(ops, 0))
        } else {
            d == Decoded::Skip
        }
    } else if emits(op, ops.len() as int) {
        d matches Decoded::Instr(i) && instr_ok(op, ops, pool, i)
    } else {
        d == Decoded::Skip
    }
}

fn rd16(ops: &[u8], off: usize) -> (v: u16)
    requires
        off + 2 <= ops@.len(),
    ensures
        v == le16(ops@, off as int),
{
    ops[off] as u16 + (ops[off + 1] as u16) * 256
}

fn rd32(ops: &[u8], off: usize) -> (v: u32)
    requires
        off + 4 <= ops@.len(),
    ensures
        v == le32(ops@, off as int),
{
    ops[off] as u32 + (ops[off + 1] as u32) * 256 + (ops[off + 2] as u32) * 65536 + (ops[off
        + 3] as u32) * 16777216
}

fn decode_spawn(ops: &[u8]) -> (i: BytecodeInstr)
    requires
        ops@.len() >= 8,
    ensures
        spawn_ok(ops@, i),
{
    let dst = Reg(rd16(ops, 0));
    let cc = rd32(ops, 2) as u64;
    let closures = read_regs16(ops, 6, cc);
    let pos = 6 + 2 * cc;
    let (task_deps, next) = read_task_deps(ops, pos);
    let task_resources = read_task_resources(ops, next);
    BytecodeInstr::Spawn { dst, closures, task_deps, task_resources }
}

fn decode_spawn_from_list(ops: &[u8]) -> (i: BytecodeInstr)
    requires
        ops@.len() >= 4,
    ensures
        spawn_from_list_ok(ops@, i),
{
    let dst = Reg(rd16(ops, 0));
    let closures_list = Reg(rd16(ops, 2));
    let (task_deps, next) = read_task_deps(ops, 4);
    let task_resources = read_task_resources(ops, next);
    BytecodeInstr::SpawnFromList { dst, closures_list, task_deps, task_resources }
}

fn decode_call_native(ops: &[u8], pool: &Vec<ConstValue>) -> (i: BytecodeInstr)
    requires
        ops@.len() >= 7,
        native_layout_ok(opcode::CALL_NATIVE, ops@),
    ensures
        call_native_ok(ops@, pool@, i),
{
    let dst = Some(Reg(ops[0] as u16));
    let func_name = resolve_named(pool, rd32(ops, 1), "native_");
    let count = ops[6] as usize;
    if 7 + 2 * count != ops.len() {
        let mechanism = resolve_const_string(pool, u32_or_zero(ops, 5));
        let lib = resolve_const_string(pool, u32_or_zero(ops, 9));
        let symbol = resolve_const_string(pool, u32_or_zero(ops, 13));
        let args = read_regs16(ops, 19, ops[18] as u64);
        BytecodeInstr::CallNative { dst, func_name, mechanism, lib, symbol, args }
    } else {
        let symbol = func_name.clone();
        let args = read_regs16(ops, 7, count as u64);
        BytecodeInstr::CallNative { dst, func_name, mechanism: String::new(), lib: String::new(), symbol, args }
    }
}

fn decode_aggregate(op: u8, ops: &[u8], pool: &Vec<ConstValue>) -> (d: Decoded)
    requires
        op == opcode::CALL_STATIC || op == opcode::CALL_VIRT || op == opcode::CALL_DYN || op
            == opcode::MAKE_CLOSURE || op == opcode::CREATE_STRUCT || op == opcode::NEW_DICT || op
            == opcode::NEW_TUPLE,
    ensures
        decoded_ok(op, ops@, pool@, d),
{
    let len = ops.len();
    let nop = Decoded::Instr(BytecodeInstr::Nop);
    if op == opcode::CALL_STATIC {
        if len >= 7 {
            let args = read_regs16(ops, 7, ops[6] as u64);
            Decoded::Instr(BytecodeInstr::CallStatic { dst: Some(Reg(ops[0] as u16)), func: rd32(ops, 1), args })
        } else {
            nop
        }
    } else if op == opcode::CALL_VIRT {
        if len >= 5 {
            let args = read_regs8_before_last(ops, 4, ops[len - 1] as usize);
            Decoded::Instr(BytecodeInstr::CallVirt { dst: Some(Reg(ops[0] as u16)), obj: Reg(ops[1] as u16), method_idx: rd16(ops, 2), args })
        } else {
            nop
        }
    } else if op == opcode::CALL_DYN {
        if len >= 5 {
            let args = read_regs8_before_last(ops, 4, ops[len - 1] as usize);
            Decoded::Instr(BytecodeInstr::CallDyn { dst: Some(Reg(ops[0] as u16)), obj: Reg(ops[1] as u16), name_idx: rd16(ops, 2), args })
        } else {
            nop
        }
    } else if op == opcode::MAKE_CLOSURE {
        if len >= 6 {
            let env = read_regs16(ops, 6, ops[5] as u64);
            Decoded::Instr(BytecodeInstr::MakeClosure { dst: Reg(ops[0] as u16), func: rd32(ops, 1), env })
        } else {
            nop
        }
    } else if op == opcode::CREATE_STRUCT {
        if len >= 6 {
            let struct_name = resolve_named(pool, rd32(ops, 1), "struct_");
            let fields = read_regs16(ops, 6, ops[5] as u64);
            Decoded::Instr(BytecodeInstr::CreateStruct { dst: Reg(ops[0] as u16), struct_name, fields })
        } else {
            nop
        }
    } else if op == opcode::NEW_DICT {
        if len >= 6 {
            let count = rd32(ops, 2) as u64;
            let keys = read_regs16(ops, 6, count);
            let values = read_regs16(ops, 6 + 2 * count, count);
            Decoded::Instr(BytecodeInstr::NewDict { dst: Reg(rd16(ops, 0)), keys, values })
        } else {
            nop
        }
    } else {
        if len >= 6 {
            let items = read_regs16(ops, 6, rd32(ops, 2) as u64);
            Decoded::Instr(BytecodeInstr::NewTuple { dst: Reg(rd16(ops, 0)), items })
        } else {
            nop
        }
    }
}

fn decode_fixed(op: u8, ops: &[u8]) -> (d: Decoded)
    requires
        decodable_opcode(op),
        !(op == opcode::LABEL || op == opcode::CALL_STATIC || op == opcode::CALL_NATIVE || op
            == opcode::CALL_VIRT || op == opcode::CALL_DYN || op == opcode::MAKE_CLOSURE || op
            == opcode::CREATE_STRUCT || op == opcode::NEW_DICT || op == opcode::NEW_TUPLE || op
            == opcode::SPAWN || op == opcode::SPAWN_FROM_LIST),
    ensures
        decoded_ok(op, ops@, Seq::empty(), d),
{
    let len = ops.len();
    if op == opcode::NOP {
        Decoded::Instr(BytecodeInstr::Nop)
    } else if op == opcode::RETURN {
        Decoded::Instr(BytecodeInstr::Return)
    } else if op == opcode::YIELD {
        Decoded::Instr(BytecodeInstr::Yield)
    } else if op == opcode::TRY_END {
        Decoded::Instr(BytecodeInstr::TryEnd)
    } else if op == opcode::RETURN_VALUE {
        if len >= 2 {
            Decoded::Instr(BytecodeInstr::ReturnValue { value: Reg(rd16(ops, 0)) })
        } else if len == 1 {
            Decoded::Instr(BytecodeInstr::ReturnValue { value: Reg(ops[0] as u16) })
        } else {
            Decoded::Instr(BytecodeInstr::Return)
        }
    } else if op == opcode::JMP {
        if len > 0 {
            Decoded::Instr(BytecodeInstr::Jmp { target: Label(u32_or_zero(ops, 0)) })
        } else {
            Decoded::Skip
        }
    } else if op == opcode::JMP_IF {
        if len >= 5 {
            Decoded::Instr(BytecodeInstr::JmpIf { cond: Reg(ops[0] as u16), target: Label(rd32(ops, 1)) })
        } else {
            Decoded::Skip
        }
    } else if op == opcode::JMP_IF_NOT {
        if len >= 5 {
            Decoded::Instr(BytecodeInstr::JmpIfNot { cond: Reg(ops[0] as u16), target: Label(rd32(ops, 1)) })
        } else {
            Decoded::Skip
        }
    } else if op == opcode::MOV {
        if len >= 2 {
            Decoded::Instr(BytecodeInstr::Mov { dst: Reg(ops[0] as u16), src: Reg(ops[1] as u16) })
        } else {
            Decoded::Instr(BytecodeInstr::Nop)
        }
    } else if op == opcode::LOAD_CONST {
        if len >= 3 {
            Decoded::Instr(BytecodeInstr::LoadConst { dst: Reg(ops[0] as u16), const_idx: rd16(ops, 1) })
        } else {
            Decoded::Instr(BytecodeInstr::Nop)
        }
    } else if op == opcode::LOAD_LOCAL {
        if len >= 2 {
            Decoded::Instr(BytecodeInstr::LoadLocal { dst: Reg(ops[0] as u16), local_idx: ops[1] })
        } else {
            Decoded::Instr(BytecodeInstr::Nop)
        }
    } else if op == opcode::STORE_LOCAL {
        if len >= 2 {
            Decoded::Instr(BytecodeInstr::StoreLocal { local_idx: ops[0], src: Reg(ops[1] as u16) })
        } else {
            Decoded::Instr(BytecodeInstr::Nop)
        }
    } else if op == opcode::LOAD_ARG {
        if len >= 2 {
            Decoded::Instr(BytecodeInstr::LoadArg { dst: Reg(ops[0] as u16), arg_idx: ops[1] })
        } else {
            Decoded::Instr(BytecodeInstr::Nop)
        }
    } else if op == opcode::NEW_LIST_WITH_CAP {
        if len >= 3 {
            Decoded::Instr(BytecodeInstr::NewListWithCap { dst: Reg(ops[0] as u16), capacity: rd16(ops, 1) })
        } else {
            Decoded::Instr(BytecodeInstr::Nop)
        }
    } else if op == opcode::LOAD_ELEMENT {
        if len >= 3 {
            Decoded::Instr(BytecodeInstr::LoadElement { dst: Reg(ops[0] as u16), array: Reg(ops[1] as u16), index: Reg(ops[2] as u16) })
        } else {
            Decoded::Instr(BytecodeInstr::Nop)
        }
    } else if op == opcode::STORE_ELEMENT {
        if len >= 3 {
            Decoded::Instr(BytecodeInstr::StoreElement { array: Reg(ops[0] as u16), index: Reg(ops[1] as u16), value: Reg(ops[2] as u16) })
        } else {
            Decoded::Instr(BytecodeInstr::Nop)
        }
    } else if op == opcode::NEW_RANGE {
        if len >= 8 {
            Decoded::Instr(BytecodeInstr::NewRange { dst: Reg(rd16(ops, 0)), start: Reg(rd16(ops, 2)), end: Reg(rd16(ops, 4)), step: Reg(rd16(ops, 6)) })
        } else {
            Decoded::Instr(BytecodeInstr::Nop)
        }
    } else if op == opcode::CREATE_VARIANT {
        if len >= 10 {
            Decoded::Instr(BytecodeInstr::CreateVariant { dst: Reg(rd16(ops, 0)), group_idx: rd16(ops, 2), variant: rd32(ops, 4), payload: Reg(rd16(ops, 8)) })
        } else {
            Decoded::Instr(BytecodeInstr::Nop)
        }
    } else if op == opcode::VARIANT_TAG {
        if len >= 6 {
            Decoded::Instr(BytecodeInstr::VariantTag { dst: Reg(rd16(ops, 0)), obj: Reg(rd16(ops, 2)), group_idx: rd16(ops, 4) })
        } else {
            Decoded::Instr(BytecodeInstr::Nop)
        }
    } else if op == opcode::VARIANT_PAYLOAD {
        if len >= 6 {
            Decoded::Instr(BytecodeInstr::VariantPayload { dst: Reg(rd16(ops, 0)), obj: Reg(rd16(ops, 2)), group_idx: rd16(ops, 4) })
        } else {
            Decoded::Instr(BytecodeInstr::Nop)
        }
    } else if op == opcode::NEW_ARRAY {
        if len >= 5 {
            Decoded::Instr(BytecodeInstr::NewArray { dst: Reg(ops[0] as u16), count: rd32(ops, 1) })
        } else {
            Decoded::Instr(BytecodeInstr::Nop)
        }
    } else if op == opcode::CONTAINS {
        if len >= 3 {
            Decoded::Instr(BytecodeInstr::Contains { dst: Reg(ops[0] as u16), elem: Reg(ops[1] as u16), container: Reg(ops[2] as u16) })
        } else {
            Decoded::Instr(BytecodeInstr::Nop)
        }
    } else if op == opcode::LOAD_UPVALUE {
        if len >= 2 {
            Decoded::Instr(BytecodeInstr::LoadUpvalue { dst: Reg(ops[0] as u16), upvalue_idx: ops[1] })
        } else {
            Decoded::Instr(BytecodeInstr::Nop)
        }
    } else if op == opcode::STORE_UPVALUE {
        if len >= 2 {
            Decoded::Instr(BytecodeInstr::StoreUpvalue { src: Reg(ops[0] as u16), upvalue_idx: ops[1] })
        } else {
            Decoded::Instr(BytecodeInstr::Nop)
        }
    } else if op == opcode::BORROW {
        if len >= 5 {
            Decoded::Instr(BytecodeInstr::Borrow { dst: Reg(rd16(ops, 0)), src: Reg(rd16(ops, 2)), mutable: ops[4] != 0 })
        } else {
            Decoded::Instr(BytecodeInstr::Nop)
        }
    } else if op == opcode::RELEASE {
        if len >= 2 {
            Decoded::Instr(BytecodeInstr::Release { src: Reg(rd16(ops, 0)) })
        } else {
            Decoded::Instr(BytecodeInstr::Nop)
        }
    } else if op == opcode::GET_FIELD {
        if len >= 4 {
            Decoded::Instr(BytecodeInstr::GetField { dst: Reg(ops[0] as u16), src: Reg(ops[1] as u16), field_idx: rd16(ops, 2) })
        } else {
            Decoded::Instr(BytecodeInstr::Nop)
        }
    } else if op == opcode::SET_FIELD {
        if len >= 4 {
            Decoded::Instr(BytecodeInstr::SetField { src: Reg(ops[0] as u16), field_idx: rd16(ops, 1), value: Reg(ops[3] as u16) })
        } else {
            Decoded::Instr(BytecodeInstr::Nop)
        }
    } else if op == opcode::ARC_NEW {
        if len >= 2 {
            Decoded::Instr(BytecodeInstr::ArcNew { dst: Reg(ops[0] as u16), src: Reg(ops[1] as u16) })
        } else {
            Decoded::Instr(BytecodeInstr::Nop)
        }
    } else if op == opcode::RC_NEW {
        if len >= 2 {
            Decoded::Instr(BytecodeInstr::RcNew { dst: Reg(ops[0] as u16), src: Reg(ops[1] as u16) })
        } else {
            Decoded::Instr(BytecodeInstr::Nop)
        }
    } else if op == opcode::ARC_CLONE {
        if len >= 2 {
            Decoded::Instr(BytecodeInstr::ArcClone { dst: Reg(ops[0] as u16), src: Reg(ops[1] as u16) })
        } else {
            Decoded::Instr(BytecodeInstr::Nop)
        }
    } else if op == opcode::WEAK_NEW {
        if len >= 2 {
            Decoded::Instr(BytecodeInstr::WeakNew { dst: Reg(ops[0] as u16), src: Reg(ops[1] as u16) })
        } else {
            Decoded::Instr(BytecodeInstr::Nop)
        }
    } else if op == opcode::WEAK_UPGRADE {
        if len >= 2 {
            Decoded::Instr(BytecodeInstr::WeakUpgrade { dst: Reg(ops[0] as u16), src: Reg(ops[1] as u16) })
        } else {
            Decoded::Instr(BytecodeInstr::Nop)
        }
    } else if op == opcode::ARC_DROP {
        if len >= 1 {
            Decoded::Instr(BytecodeInstr::ArcDrop { src: Reg(ops[0] as u16) })
        } else {
            Decoded::Instr(BytecodeInstr::Nop)
        }
    } else if op == opcode::DROP {
        if len >= 1 {
            Decoded::Instr(BytecodeInstr::Drop { value: Reg(ops[0] as u16) })
        } else {
            Decoded::Instr(BytecodeInstr::Nop)
        }
    } else if op == opcode::CAST {
        if len >= 4 {
            Decoded::Instr(BytecodeInstr::Cast { dst: Reg(ops[0] as u16), src: Reg(ops[1] as u16), target_type_id: rd16(ops, 2) })
        } else {
            Decoded::Instr(BytecodeInstr::Nop)
        }
    } else if op == opcode::HEAP_ALLOC {
        if len >= 3 {
            Decoded::Instr(BytecodeInstr::HeapAlloc { dst: Reg(ops[0] as u16), type_id: rd16(ops, 1) })
        } else {
            Decoded::Instr(BytecodeInstr::Nop)
        }
    } else if op == opcode::STACK_ALLOC {
        if len >= 3 {
            Decoded::Instr(BytecodeInstr::StackAlloc { dst: Reg(ops[0] as u16), size: rd16(ops, 1) })
        } else {
            Decoded::Instr(BytecodeInstr::Nop)
        }
    } else if op == opcode::TYPE_CHECK {
        if len >= 3 {
            Decoded::Instr(BytecodeInstr::TypeCheck { value: Reg(ops[0] as u16), type_id: rd16(ops, 1) })
        } else {
            Decoded::Instr(BytecodeInstr::Nop)
        }
    } else if op == opcode::TYPE_OF {
        if len >= 2 {
            Decoded::Instr(BytecodeInstr::TypeOf { dst: Reg(ops[0] as u16), src: Reg(ops[1] as u16) })
        } else {
            Decoded::Instr(BytecodeInstr::Nop)
        }
    } else if op == opcode::BOUNDS_CHECK {
        if len >= 2 {
            Decoded::Instr(BytecodeInstr::BoundsCheck { array: Reg(ops[0] as u16), index: Reg(ops[1] as u16) })
        } else {
            Decoded::Instr(BytecodeInstr::Nop)
        }
    } else if op == opcode::CLOSE_UPVALUE {
        if len >= 1 {
            Decoded::Instr(BytecodeInstr::CloseUpvalue { src: Reg(ops[0] as u16) })
        } else {
            Decoded::Instr(BytecodeInstr::Nop)
        }
    } else if op == opcode::TAIL_CALL {
        if len >= 6 {
            Decoded::Instr(BytecodeInstr::TailCall { func: rd32(ops, 0), base: Reg(ops[4] as u16), arg_count: ops[5] })
        } else {
            Decoded::Instr(BytecodeInstr::Nop)
        }
    } else if op == opcode::STRING_LENGTH {
        if len >= 2 {
            Decoded::Instr(BytecodeInstr::StringLength { dst: Reg(ops[0] as u16), src: Reg(ops[1] as u16) })
        } else {
            Decoded::Instr(BytecodeInstr::Nop)
        }
    } else if op == opcode::STRING_FROM_INT {
        if len >= 2 {
            Decoded::Instr(BytecodeInstr::StringFromInt { dst: Reg(ops[0] as u16), src: Reg(ops[1] as u16) })
        } else {
            Decoded::Instr(BytecodeInstr::Nop)
        }
    } else if op == opcode::STRING_FROM_FLOAT {
        if len >= 2 {
            Decoded::Instr(BytecodeInstr::StringFromFloat { dst: Reg(ops[0] as u16), src: Reg(ops[1] as u16) })
        } else {
            Decoded::Instr(BytecodeInstr::Nop)
        }
    } else if op == opcode::STRING_CONCAT {
        if len >= 3 {
            Decoded::Instr(BytecodeInstr::StringConcat { dst: Reg(ops[0] as u16), str1: Reg(ops[1] as u16), str2: Reg(ops[2] as u16) })
        } else {
            Decoded::Instr(BytecodeInstr::Nop)
        }
    } else if op == opcode::STRING_EQUAL {
        if len >= 3 {
            Decoded::Instr(BytecodeInstr::StringEqual { dst: Reg(ops[0] as u16), str1: Reg(ops[1] as u16), str2: Reg(ops[2] as u16) })
        } else {
            Decoded::Instr(BytecodeInstr::Nop)
        }
    } else if op == opcode::STRING_GET_CHAR {
        if len >= 3 {
            Decoded::Instr(BytecodeInstr::StringGetChar { dst: Reg(ops[0] as u16), src: Reg(ops[1] as u16), index: Reg(ops[2] as u16) })
        } else {
            Decoded::Instr(BytecodeInstr::Nop)
        }
    } else if op == opcode::TRY_BEGIN {
        if len >= 4 {
            Decoded::Instr(BytecodeInstr::TryBegin { catch_target: Label(rd32(ops, 0)) })
        } else {
            Decoded::Instr(BytecodeInstr::Nop)
        }
    } else if op == opcode::THROW {
        if len >= 1 {
            Decoded::Instr(BytecodeInstr::Throw { error: Reg(ops[0] as u16) })
        } else {
            Decoded::Instr(BytecodeInstr::Nop)
        }
    } else if op == opcode::I64_ADD {
        if len >= 3 {
            Decoded::Instr(BytecodeInstr::BinaryOp { dst: Reg(ops[0] as u16), lhs: Reg(ops[1] as u16), rhs: Reg(ops[2] as u16), op: BinaryOp::Add })
        } else {
            Decoded::Instr(BytecodeInstr::Nop)
        }
    } else if op == opcode::I64_SUB {
        if len >= 3 {
            Decoded::Instr(BytecodeInstr::BinaryOp { dst: Reg(ops[0] as u16), lhs: Reg(ops[1] as u16), rhs: Reg(ops[2] as u16), op: BinaryOp::Sub })
        } else {
            Decoded::Skip
        }
    } else if op == opcode::I64_MUL {
        if len >= 3 {
            Decoded::Instr(BytecodeInstr::BinaryOp { dst: Reg(ops[0] as u16), lhs: Reg(ops[1] as u16), rhs: Reg(ops[2] as u16), op: BinaryOp::Mul })
        } else {
            Decoded::Skip
        }
    } else if op == opcode::I64_DIV {
        if len >= 3 {
            Decoded::Instr(BytecodeInstr::BinaryOp { dst: Reg(ops[0] as u16), lhs: Reg(ops[1] as u16), rhs: Reg(ops[2] as u16), op: BinaryOp::Div })
        } else {
            Decoded::Skip
        }
    } else if op == opcode::I64_REM {
        if len >= 3 {
            Decoded::Instr(BytecodeInstr::BinaryOp { dst: Reg(ops[0] as u16), lhs: Reg(ops[1] as u16), rhs: Reg(ops[2] as u16), op: BinaryOp::Rem })
        } else {
            Decoded::Skip
        }
    } else if op == opcode::I64_AND {
        if len >= 3 {
            Decoded::Instr(BytecodeInstr::BinaryOp { dst: Reg(ops[0] as u16), lhs: Reg(ops[1] as u16), rhs: Reg(ops[2] as u16), op: BinaryOp::And })
        } else {
            Decoded::Skip
        }
    } else if op == opcode::I64_OR {
        if len >= 3 {
            Decoded::Instr(BytecodeInstr::BinaryOp { dst: Reg(ops[0] as u16), lhs: Reg(ops[1] as u16), rhs: Reg(ops[2] as u16), op: BinaryOp::Or })
        } else {
            Decoded::Skip
        }
    } else if op == opcode::I64_XOR {
        if len >= 3 {
            Decoded::Instr(BytecodeInstr::BinaryOp { dst: Reg(ops[0] as u16), lhs: Reg(ops[1] as u16), rhs: Reg(ops[2] as u16), op: BinaryOp::Xor })
        } else {
            Decoded::Skip
        }
    } else if op == opcode::I64_SHL {
        if len >= 3 {
            Decoded::Instr(BytecodeInstr::BinaryOp { dst: Reg(ops[0] as u16), lhs: Reg(ops[1] as u16), rhs: Reg(ops[2] as u16), op: BinaryOp::Shl })
        } else {
            Decoded::Skip
        }
    } else if op == opcode::I64_SAR {
        if len >= 3 {
            Decoded::Instr(BytecodeInstr::BinaryOp { dst: Reg(ops[0] as u16), lhs: Reg(ops[1] as u16), rhs: Reg(ops[2] as u16), op: BinaryOp::Sar })
        } else {
            Decoded::Skip
        }
    } else if op == opcode::I64_SHR {
        if len >= 3 {
            Decoded::Instr(BytecodeInstr::BinaryOp { dst: Reg(ops[0] as u16), lhs: Reg(ops[1] as u16), rhs: Reg(ops[2] as u16), op: BinaryOp::Shr })
        } else {
            Decoded::Skip
        }
    } else if op == opcode::I64_LT {
        if len >= 3 {
            Decoded::Instr(make_compare(Reg(ops[0] as u16), Reg(ops[1] as u16), Reg(ops[2] as u16), CompareOp::Lt))
        } else {
            Decoded::Skip
        }
    } else if op == opcode::I64_LE {
        if len >= 3 {
            Decoded::Instr(make_compare(Reg(ops[0] as u16), Reg(ops[1] as u16), Reg(ops[2] as u16), CompareOp::Le))
        } else {
            Decoded::Skip
        }
    } else if op == opcode::I64_GT {
        if len >= 3 {
            Decoded::Instr(make_compare(Reg(ops[0] as u16), Reg(ops[1] as u16), Reg(ops[2] as u16), CompareOp::Gt))
        } else {
            Decoded::Skip
        }
    } else if op == opcode::I64_GE {
        if len >= 3 {
            Decoded::Instr(make_compare(Reg(ops[0] as u16), Reg(ops[1] as u16), Reg(ops[2] as u16), CompareOp::Ge))
        } else {
            Decoded::Skip
        }
    } else if op == opcode::I64_NE {
        if len >= 3 {
            Decoded::Instr(make_compare(Reg(ops[0] as u16), Reg(ops[1] as u16), Reg(ops[2] as u16), CompareOp::Ne))
        } else {
            Decoded::Skip
        }
    } else if op == opcode::I64_EQ {
        if len >= 3 {
            Decoded::Instr(make_compare(Reg(ops[0] as u16), Reg(ops[1] as u16), Reg(ops[2] as u16), CompareOp::Eq))
        } else {
            Decoded::Skip
        }
    } else if op == opcode::I64_NEG {
        if len >= 2 {
            Decoded::Instr(BytecodeInstr::UnaryOp { dst: Reg(ops[0] as u16), src: Reg(ops[1] as u16), op: UnaryOp::Neg })
        } else {
            Decoded::Skip
        }
    } else {
        vstd::pervasive::unreached()
    }
}

/// Decodes one encoded record; string operands are resolved in `pool`.
pub fn decode_instruction(op: u8, ops: &[u8], pool: &Vec<ConstValue>) -> (d: Decoded)
    requires
        decodable_opcode(op),
        native_layout_ok(op, ops@),
    ensures
        decoded_ok(op, ops@, pool@, d),
{
    let len = ops.len();
    if op == opcode::LABEL {
        if len > 0 {
            Decoded::Label(u32_or_zero(ops, 0))
        } else {
            Decoded::Skip
        }
    } else if op == opcode::CALL_NATIVE {
        if len >= 7 {
            Decoded::Instr(decode_call_native(ops, pool))
        } else {
            Decoded::Instr(BytecodeInstr::Nop)
        }
    } else if op == opcode::SPAWN {
        if len >= 8 {
            Decoded::Instr(decode_spawn(ops))
        } else {
            Decoded::Instr(BytecodeInstr::Nop)
        }
    } else if op == opcode::SPAWN_FROM_LIST {
        if len >= 4 {
            Decoded::Instr(decode_spawn_from_list(ops))
        } else {
            Decoded::Instr(BytecodeInstr::Nop)
        }
    } else if op == opcode::CALL_STATIC || op == opcode::CALL_VIRT || op == opcode::CALL_DYN || op
        == opcode::MAKE_CLOSURE || op == opcode::CREATE_STRUCT || op == opcode::NEW_DICT || op
        == opcode::NEW_TUPLE {
        decode_aggregate(op, ops, pool)
    } else {
        let d = decode_fixed(op, ops);
        d
    }
}


// ---------------------------------------------------------------------
// Functions and modules
// ---------------------------------------------------------------------

/// Number of instructions decoded from the first `k` records of `code`.
pub open spec fn emitted_count(code: Seq<BytecodeInstruction>, k: int) -> nat
    decreases k,
{
    if k <= 0 {
        0
    } else {
        emitted_count(code, k - 1) + if emits(code[k - 1].opcode, code[k - 1].operands@.len() as int) {
            1nat
        } else {
            0nat
        }
    }
}

/// The label table after the first `k` records: each label record maps its
/// label id to the index of the next decoded instruction (a later record
/// for the same id wins).
pub open spec fn label_map(code: Seq<BytecodeInstruction>, k: int) -> Map<u32, usize>
    decreases k,
{
    if k <= 0 {
        Map::empty()
    } else {
        let prev = label_map(code, k - 1);
        let r = code[k - 1];
        if r.opcode == opcode::LABEL && r.operands@.len() > 0 {
            prev.insert(le32_or_zero(r.operands@, 0), emitted_count(code, k - 1) as usize)
        } else {
            prev
        }
    }
}

/// Every native-call record of `code` has the layout its length announces.
pub open spec fn code_layout_ok(code: Seq<BytecodeInstruction>) -> bool {
    forall|k: int|
        0 <= k < code.len() ==> decodable_opcode(#[trigger] code[k].opcode) && native_layout_ok(
            code[k].opcode,
            code[k].operands@,
        )
}

/// `instrs` and `labels` are the decoding of the records `code`: one
/// instruction per emitting record, in order, and the label table.
pub open spec fn instructions_decoded(
    code: Seq<BytecodeInstruction>,
    pool: Seq<ConstValue>,
    instrs: Seq<BytecodeInstr>,
    labels: Map<u32, usize>,
) -> bool {
    &&& instrs.len() == emitted_count(code, code.len() as int)
    &&& forall|k: int|
        0 <= k < code.len() && emits(code[k].opcode, code[k].operands@.len() as int) ==> instr_ok(
            #[trigger] code[k].opcode,
            code[k].operands@,
            pool,
            instrs[emitted_count(code, k) as int],
        )
    &&& labels == label_map(code, code.len() as int)
}

proof fn lemma_emitted_count_monotone(code: Seq<BytecodeInstruction>, j: int, k: int)
    requires
        j <= k,
    ensures
        emitted_count(code, j) <= emitted_count(code, k),
    decreases k - j,
{
    if j < k {
        lemma_emitted_count_monotone(code, j, k - 1);
    }
}

/// Decodes the records of one function into its instructions and label table.
pub fn decode_function(code: &Vec<BytecodeInstruction>, pool: &Vec<ConstValue>) -> (r: (
    Vec<BytecodeInstr>,
    HashMap<u32, usize>,
))
    requires
        code_layout_ok(code@),
    ensures
        instructions_decoded(code@, pool@, r.0@, r.1@),
{
    let mut instrs: Vec<BytecodeInstr> = Vec::new();
    let mut labels: HashMap<u32, usize> = HashMap::new();
    let mut k: usize = 0;
    while k < code.len()
        invariant
            k <= code@.len(),
            code_layout_ok(code@),
            instrs@.len() == emitted_count(code@, k as int),
            forall|j: int|
                0 <= j < k && emits(code@[j].opcode, code@[j].operands@.len() as int) ==> instr_ok(
                    #[trigger] code@[j].opcode,
                    code@[j].operands@,
                    pool@,
                    instrs@[emitted_count(code@, j) as int],
                ),
            labels@ == label_map(code@, k as int),
        decreases code@.len() - k,
    {
        let rec = &code[k];
        assert(decodable_opcode(code@[k as int].opcode) && native_layout_ok(
            code@[k as int].opcode,
            code@[k as int].operands@,
        ));
        let d = decode_instruction(rec.opcode, rec.operands.as_slice(), pool);
        let ghost old_instrs = instrs@;
        match d {
            Decoded::Label(l) => {
                labels.insert(l, instrs.len());
            },
            Decoded::Instr(i) => {
                instrs.push(i);
            },
            Decoded::Skip => {},
        }
        proof {
            assert forall|j: int|
                0 <= j < k + 1 && emits(code@[j].opcode, code@[j].operands@.len() as int) implies instr_ok(
                #[trigger] code@[j].opcode,
                code@[j].operands@,
                pool@,
                instrs@[emitted_count(code@, j) as int],
            ) by {
                if j < k {
                    lemma_emitted_count_monotone(code@, j + 1, k as int);
                    assert(instrs@[emitted_count(code@, j) as int] == old_instrs[emitted_count(code@, j) as int]);
                }
            }
        }
        k = k + 1;
    }
    (instrs, labels)
}

/// The entry point of a decoded module: a positive header index as is;
/// index 0 where the module has functions; otherwise none.
pub open spec fn entry_point_of(header_entry: u32, function_count: nat) -> Option<usize> {
    if header_entry > 0 {
        Some(header_entry as usize)
    } else if function_count > 0 {
        Some(0)
    } else {
        None
    }
}

/// `bf` is the decoding of the encoded function `f` against `pool`.
pub open spec fn function_decoded(f: FunctionCode, pool: Seq<ConstValue>, bf: BytecodeFunction) -> bool {
    &&& bf.name == f.name
    &&& bf.params@.len() == f.params@.len()
    &&& forall|i: int| 0 <= i < f.params@.len() ==> lowers_to(#[trigger] f.params@[i], bf.params@[i])
    &&& lowers_to(f.return_type, bf.return_type)
    &&& bf.local_count == f.local_count
    &&& bf.upvalue_count == 0
    &&& bf.exception_handlers@.len() == 0
    &&& instructions_decoded(f.instructions@, pool, bf.instructions@, bf.labels@)
    &&& bf.debug_map@ == f.debug_map@
}

/// Every function of the file has well-formed native-call records.
pub open spec fn file_layout_ok(file: BytecodeFile) -> bool {
    forall|i: int|
        0 <= i < file.code_section.functions@.len() ==> code_layout_ok(
            #[trigger] file.code_section.functions@[i].instructions@,
        )
}

fn decode_function_code(f: FunctionCode, pool: &Vec<ConstValue>) -> (bf: BytecodeFunction)
    requires
        code_layout_ok(f.instructions@),
    ensures
        function_decoded(f, pool@, bf),
{
    let (instructions, labels) = decode_function(&f.instructions, pool);
    let FunctionCode { name, params, return_type, instructions: _, local_count, debug_map } = f;
    BytecodeFunction {
        name,
        params: Type::lower_all(params),
        return_type: Type::from_mono(return_type),
        local_count,
        upvalue_count: 0,
        instructions,
        labels,
        exception_handlers: Vec::new(),
        debug_map,
    }
}

impl BytecodeModule {
    /// Decodes an encoded bytecode file into a module named `main`: every
    /// function's records are decoded, parameter, return and table types
    /// are lowered to IR types, the constant pool and vtables are carried
    /// over, and the entry point is chosen as [`entry_point_of`] says.
    pub fn from_file(file: BytecodeFile) -> (m: BytecodeModule)
        requires
            file_layout_ok(file),
        ensures
            m.name@ == "main"@,
            m.constants == file.const_pool,
            m.functions@.len() == file.code_section.functions@.len(),
            forall|i: int|
                0 <= i < m.functions@.len() ==> function_decoded(
                    #[trigger] file.code_section.functions@[i],
                    file.const_pool@,
                    m.functions@[i],
                ),
            m.type_table@.len() == file.type_table@.len(),
            forall|i: int|
                0 <= i < file.type_table@.len() ==> lowers_to(
                    #[trigger] file.type_table@[i],
                    m.type_table@[i],
                ),
            m.vtables == file.vtables,
            m.globals@.len() == 0,
            m.entry_point == entry_point_of(
                file.header.entry_point,
                file.code_section.functions@.len(),
            ),
    {
        let ghost orig = file;
        let BytecodeFile { header, type_table, const_pool, code_section, vtables } = file;
        let ghost fs = code_section.functions@;
        let mut rest = code_section.functions;
        let mut functions: Vec<BytecodeFunction> = Vec::new();
        while rest.len() > 0
            invariant
                fs == orig.code_section.functions@,
                const_pool == orig.const_pool,
                file_layout_ok(orig),
                functions@.len() + rest@.len() == fs.len(),
                rest@ == fs.skip(functions@.len() as int),
                forall|i: int|
                    0 <= i < functions@.len() ==> function_decoded(
                        #[trigger] fs[i],
                        const_pool@,
                        functions@[i],
                    ),
            decreases rest@.len(),
        {
            let f = rest.remove(0);
            assert(f == fs[functions@.len() as int]);
            assert(code_layout_ok(fs[functions@.len() as int].instructions@));
            let bf = decode_function_code(f, &const_pool);
            functions.push(bf);
            assert(rest@ =~= fs.skip(functions@.len() as int));
        }
        let entry_point = if header.entry_point > 0 {
            Some(header.entry_point as usize)
        } else if functions.len() > 0 {
            Some(0)
        } else {
            None
        };
        BytecodeModule {
            name: String::from_str("main"),
            constants: const_pool,
            functions,
            type_table: Type::lower_all(type_table),
            vtables,
            globals: Vec::new(),
            entry_point,
        }
    }
}


// ---------------------------------------------------------------------
// Encoding and decoding agree on instruction kinds
// ---------------------------------------------------------------------

/// Instruction shapes whose encoded size is below what the decoder needs, or
/// that have no decoder at all: `Switch` (never encoded), native calls (whose
/// layout depends on the FFI metadata), static calls without arguments and
/// closures without captured values.
pub open spec fn outside_roundtrip(i: BytecodeInstr) -> bool {
    ||| i is Switch
    ||| i is CallNative
    ||| (i matches BytecodeInstr::CallStatic { args, .. } && args@.len() == 0)
    ||| (i matches BytecodeInstr::MakeClosure { env, .. } && env@.len() == 0)
}

/// Decoding a record that carries an instruction's opcode and at least as
/// many operand bytes as the instruction's size gives an instruction of the same
/// opcode, never a silent fallback (for every kind but those excluded by
/// [`outside_roundtrip`]).
pub proof fn lemma_decode_keeps_opcode(
    i: BytecodeInstr,
    ops: Seq<u8>,
    pool: Seq<ConstValue>,
    d: Decoded,
)
    requires
        !outside_roundtrip(i),
        ops.len() >= encoded_size(i),
        decoded_ok(opcode_of(i), ops, pool, d),
    ensures
        d matches Decoded::Instr(j) && opcode_of(j) == opcode_of(i),
{
    match i {
        BytecodeInstr::Nop { .. } => {},
        BytecodeInstr::Return { .. } => {},
        BytecodeInstr::ReturnValue { .. } => {},
        BytecodeInstr::Yield { .. } => {},
        BytecodeInstr::Spawn { .. } => {},
        BytecodeInstr::SpawnFromList { .. } => {},
        BytecodeInstr::Jmp { .. } => {},
        BytecodeInstr::JmpIf { .. } => {},
        BytecodeInstr::JmpIfNot { .. } => {},
        BytecodeInstr::Switch { .. } => {},
        BytecodeInstr::Mov { .. } => {},
        BytecodeInstr::LoadConst { .. } => {},
        BytecodeInstr::LoadLocal { .. } => {},
        BytecodeInstr::StoreLocal { .. } => {},
        BytecodeInstr::LoadArg { .. } => {},
        BytecodeInstr::BinaryOp { .. } => {},
        BytecodeInstr::UnaryOp { .. } => {},
        BytecodeInstr::Compare { .. } => {},
        BytecodeInstr::StackAlloc { .. } => {},
        BytecodeInstr::HeapAlloc { .. } => {},
        BytecodeInstr::Drop { .. } => {},
        BytecodeInstr::GetField { .. } => {},
        BytecodeInstr::SetField { .. } => {},
        BytecodeInstr::LoadElement { .. } => {},
        BytecodeInstr::StoreElement { .. } => {},
        BytecodeInstr::NewListWithCap { .. } => {},
        BytecodeInstr::CreateStruct { .. } => {},
        BytecodeInstr::NewDict { .. } => {},
        BytecodeInstr::NewTuple { .. } => {},
        BytecodeInstr::NewRange { .. } => {},
        BytecodeInstr::CreateVariant { .. } => {},
        BytecodeInstr::VariantTag { .. } => {},
        BytecodeInstr::VariantPayload { .. } => {},
        BytecodeInstr::NewArray { .. } => {},
        BytecodeInstr::Contains { .. } => {},
        BytecodeInstr::ArcNew { .. } => {},
        BytecodeInstr::RcNew { .. } => {},
        BytecodeInstr::ArcClone { .. } => {},
        BytecodeInstr::ArcDrop { .. } => {},
        BytecodeInstr::WeakNew { .. } => {},
        BytecodeInstr::WeakUpgrade { .. } => {},
        BytecodeInstr::Borrow { .. } => {},
        BytecodeInstr::Release { .. } => {},
        BytecodeInstr::CallStatic { .. } => {},
        BytecodeInstr::CallNative { .. } => {},
        BytecodeInstr::CallVirt { .. } => {},
        BytecodeInstr::CallDyn { .. } => {},
        BytecodeInstr::MakeClosure { .. } => {},
        BytecodeInstr::LoadUpvalue { .. } => {},
        BytecodeInstr::StoreUpvalue { .. } => {},
        BytecodeInstr::CloseUpvalue { .. } => {},
        BytecodeInstr::TailCall { .. } => {},
        BytecodeInstr::StringLength { .. } => {},
        BytecodeInstr::StringConcat { .. } => {},
        BytecodeInstr::StringEqual { .. } => {},
        BytecodeInstr::StringGetChar { .. } => {},
        BytecodeInstr::StringFromInt { .. } => {},
        BytecodeInstr::StringFromFloat { .. } => {},
        BytecodeInstr::TryBegin { .. } => {},
        BytecodeInstr::TryEnd { .. } => {},
        BytecodeInstr::Throw { .. } => {},
        BytecodeInstr::BoundsCheck { .. } => {},
        BytecodeInstr::TypeCheck { .. } => {},
        BytecodeInstr::Cast { .. } => {},
        BytecodeInstr::TypeOf { .. } => {},
    }
}

/// Decoding inverts encoding field by field for the arithmetic
/// instructions: a record carrying the instruction's opcode and the
/// destination, left and right registers as its first three operand bytes
/// decodes to exactly that instruction; the first source byte is the left
/// operand and the second the right one.
pub proof fn law_decode_binary_roundtrip(
    op: BinaryOp,
    d: u8,
    l: u8,
    r: u8,
    ops: Seq<u8>,
    pool: Seq<ConstValue>,
    dec: Decoded,
)
    requires
        ops.len() >= 3,
        ops[0] == d,
        ops[1] == l,
        ops[2] == r,
        decoded_ok(
            opcode_of(BytecodeInstr::BinaryOp { dst: Reg(d as u16), lhs: Reg(l as u16), rhs: Reg(r as u16), op }),
            ops,
            pool,
            dec,
        ),
    ensures
        dec == Decoded::Instr(
            BytecodeInstr::BinaryOp { dst: Reg(d as u16), lhs: Reg(l as u16), rhs: Reg(r as u16), op },
        ),
{
}

/// Decoding inverts encoding field by field for the comparisons, as
/// [`law_decode_binary_roundtrip`] does for arithmetic: the first three
/// operand bytes are the destination, left and right registers.
pub proof fn law_decode_compare_roundtrip(
    c: CompareOp,
    ops: Seq<u8>,
    pool: Seq<ConstValue>,
    dec: Decoded,
)
    requires
        ops.len() >= 3,
        decoded_ok(opcode_of(compare_instr(reg8(ops, 0), reg8(ops, 1), reg8(ops, 2), c)), ops, pool, dec),
    ensures
        dec == Decoded::Instr(compare_instr(reg8(ops, 0), reg8(ops, 1), reg8(ops, 2), c)),
{
}

} // verus!
