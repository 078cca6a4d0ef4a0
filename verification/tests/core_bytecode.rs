use std::collections::HashMap;
use yaoxiang::util::span::DebugSpan;
use yaoxiang::backends::common::opcode;
use yaoxiang::frontend::typecheck::MonoType;
use yaoxiang::middle::core_ir::bytecode::{
    BinaryOp, BytecodeInstr, BytecodeModule, CompareOp, Label, Reg,
};
use yaoxiang::middle::core_ir::decode::{decode_instruction, Decoded};
use yaoxiang::middle::core_ir::ir::{ConstValue, Type as IrType};
use yaoxiang::middle::passes::codegen::bytecode::{
    BytecodeFile, BytecodeInstruction, CodeSection, FileHeader, FunctionCode,
};

fn build_and_decode(instrs: Vec<BytecodeInstruction>) -> BytecodeModule {
    build_and_decode_with_pool(instrs, vec![])
}

fn build_and_decode_with_pool(instrs: Vec<BytecodeInstruction>, pool: Vec<ConstValue>) -> BytecodeModule {
    let func = FunctionCode {
        name: "test_fn".to_string(),
        params: vec![],
        return_type: MonoType::Void,
        instructions: instrs,
        local_count: 0,
        debug_map: HashMap::new(),
    };
    let file = BytecodeFile {
        header: FileHeader::default(),
        type_table: vec![],
        const_pool: pool,
        code_section: CodeSection { functions: vec![func] },
        vtables: vec![],
    };
    BytecodeModule::from_file(file)
}

fn assert_borrow_instr(instr: &BytecodeInstr, expected_dst: Reg, expected_src: Reg, expected_mutable: bool) {
    match instr {
        BytecodeInstr::Borrow { dst, src, mutable } => {
            assert_eq!(*dst, expected_dst, "Borrow dst should be {:?}", expected_dst);
            assert_eq!(*src, expected_src, "Borrow src should be {:?}", expected_src);
            assert_eq!(*mutable, expected_mutable, "Borrow mutable should be {}", expected_mutable);
        }
        other => panic!("Expected Borrow instruction, got {:?}", other),
    }
}

fn assert_release_instr(instr: &BytecodeInstr, expected_src: Reg) {
    match instr {
        BytecodeInstr::Release { src } => {
            assert_eq!(*src, expected_src, "Release src should be {:?}", expected_src);
        }
        other => panic!("Expected Release instruction, got {:?}", other),
    }
}

#[test]
fn test_nop_size_is_one_byte() {
    let nop = BytecodeInstr::Nop;
    let size = nop.size();
    assert_eq!(size, 1, "Nop instruction should occupy exactly 1 byte (opcode only)");
}

#[test]
fn test_mov_size_is_five_bytes() {
    let mov = BytecodeInstr::Mov { dst: Reg(0), src: Reg(1) };
    let size = mov.size();
    assert_eq!(size, 5, "Mov instruction should occupy 5 bytes: opcode(1) + dst(2) + src(2)");
}

#[test]
fn test_reg_display_format() {
    assert_eq!(Reg(0).to_string(), "r0", "Reg(0) should display as \"r0\"");
    assert_eq!(Reg(15).to_string(), "r15", "Reg(15) should display as \"r15\"");
}

#[test]
fn test_label_display_format() {
    assert_eq!(Label(0).to_string(), "L0", "Label(0) should display as \"L0\"");
    assert_eq!(Label(10).to_string(), "L10", "Label(10) should display as \"L10\"");
}

#[test]
fn test_borrow_immutable_opcode_is_borrow() {
    let instr = BytecodeInstr::Borrow { dst: Reg(1), src: Reg(2), mutable: false };
    let opcode = instr.opcode();
    assert_eq!(opcode, opcode::BORROW, "Immutable Borrow should map to opcode::BORROW");
}

#[test]
fn test_borrow_mutable_opcode_is_borrow() {
    let instr = BytecodeInstr::Borrow { dst: Reg(1), src: Reg(2), mutable: true };
    let opcode = instr.opcode();
    assert_eq!(opcode, opcode::BORROW, "Mutable Borrow should map to opcode::BORROW");
}

#[test]
fn test_borrow_size_is_six_bytes() {
    let instr = BytecodeInstr::Borrow { dst: Reg(1), src: Reg(2), mutable: true };
    let size = instr.size();
    assert_eq!(size, 6, "Borrow instruction should occupy 6 bytes: opcode(1)+dst(2)+src(2)+mutable(1)");
}

#[test]
fn test_release_opcode_is_release() {
    let instr = BytecodeInstr::Release { src: Reg(3) };
    let opcode = instr.opcode();
    assert_eq!(opcode, opcode::RELEASE, "Release should map to opcode::RELEASE");
}

#[test]
fn test_release_size_is_three_bytes() {
    let instr = BytecodeInstr::Release { src: Reg(3) };
    let size = instr.size();
    assert_eq!(size, 3, "Release instruction should occupy 3 bytes: opcode(1)+src(2)");
}

#[test]
fn test_borrow_roundtrip_immutable() {
    let encoded = BytecodeInstruction::new(opcode::BORROW, vec![1, 0, 2, 0, 0]);
    let module = build_and_decode(vec![encoded]);
    let instrs = &module.functions[0].instructions;
    assert_eq!(module.functions.len(), 1, "Module should contain exactly 1 function");
    assert_eq!(instrs.len(), 1, "Function should contain exactly 1 instruction");
    assert_borrow_instr(&instrs[0], Reg(1), Reg(2), false);
}

#[test]
fn test_borrow_roundtrip_mutable() {
    let encoded = BytecodeInstruction::new(opcode::BORROW, vec![1, 0, 2, 0, 1]);
    let module = build_and_decode(vec![encoded]);
    let instrs = &module.functions[0].instructions;
    assert_eq!(instrs.len(), 1, "Function should contain exactly 1 instruction");
    assert_borrow_instr(&instrs[0], Reg(1), Reg(2), true);
}

#[test]
fn test_release_roundtrip() {
    let encoded = BytecodeInstruction::new(opcode::RELEASE, vec![3, 0]);
    let module = build_and_decode(vec![encoded]);
    let instrs = &module.functions[0].instructions;
    assert_eq!(instrs.len(), 1, "Function should contain exactly 1 instruction");
    assert_release_instr(&instrs[0], Reg(3));
}

#[test]
fn test_borrow_release_combined_roundtrip() {
    let borrow_instr = BytecodeInstruction::new(opcode::BORROW, vec![5, 0, 10, 0, 1]);
    let release_instr = BytecodeInstruction::new(opcode::RELEASE, vec![5, 0]);
    let module = build_and_decode(vec![borrow_instr, release_instr]);
    let instrs = &module.functions[0].instructions;
    assert_eq!(instrs.len(), 2, "Function should contain exactly 2 instructions");
    assert_borrow_instr(&instrs[0], Reg(5), Reg(10), true);
    assert_release_instr(&instrs[1], Reg(5));
}

#[test]
fn test_ref_type_maps_to_void_ir_type() {
    let ref_ty = MonoType::Ref { mutable: false, inner: Box::new(MonoType::Int(64)) };
    let ir_type: IrType = IrType::from_mono(ref_ty);
    assert!(
        matches!(ir_type, IrType::Void),
        "Immutable Ref<i64> should map to IrType::Void (ZST has no runtime repr)"
    );
}

#[test]
fn test_ref_type_mutable_maps_to_void_ir_type() {
    let ref_ty = MonoType::Ref { mutable: true, inner: Box::new(MonoType::make_string()) };
    let ir_type: IrType = IrType::from_mono(ref_ty);
    assert!(
        matches!(ir_type, IrType::Void),
        "Mutable Ref<String> should map to IrType::Void (ZST has no runtime repr)"
    );
}

#[test]
fn test_every_opcode_roundtrips_not_silently_nop() {
    let cases: Vec<(BytecodeInstr, u8)> = vec![
        (BytecodeInstr::Nop, opcode::NOP),
        (BytecodeInstr::Mov { dst: Reg(1), src: Reg(2) }, opcode::MOV),
        (BytecodeInstr::LoadConst { dst: Reg(1), const_idx: 0 }, opcode::LOAD_CONST),
        (BytecodeInstr::LoadLocal { dst: Reg(1), local_idx: 0 }, opcode::LOAD_LOCAL),
        (BytecodeInstr::StoreLocal { local_idx: 0, src: Reg(1) }, opcode::STORE_LOCAL),
        (BytecodeInstr::LoadArg { dst: Reg(1), arg_idx: 0 }, opcode::LOAD_ARG),
        (
            BytecodeInstr::BinaryOp { dst: Reg(1), lhs: Reg(2), rhs: Reg(3), op: BinaryOp::Add },
            opcode::I64_ADD,
        ),
        (
            BytecodeInstr::Compare { dst: Reg(1), lhs: Reg(2), rhs: Reg(3), cmp: CompareOp::Eq },
            opcode::I64_EQ,
        ),
        (BytecodeInstr::Return, opcode::RETURN),
        (BytecodeInstr::ReturnValue { value: Reg(0) }, opcode::RETURN_VALUE),
        (BytecodeInstr::Jmp { target: Label(0) }, opcode::JMP),
        (BytecodeInstr::JmpIf { cond: Reg(0), target: Label(0) }, opcode::JMP_IF),
        (BytecodeInstr::JmpIfNot { cond: Reg(0), target: Label(0) }, opcode::JMP_IF_NOT),
        (BytecodeInstr::ArcNew { dst: Reg(1), src: Reg(2) }, opcode::ARC_NEW),
        (BytecodeInstr::RcNew { dst: Reg(1), src: Reg(2) }, opcode::RC_NEW),
        (BytecodeInstr::ArcClone { dst: Reg(1), src: Reg(2) }, opcode::ARC_CLONE),
        (BytecodeInstr::ArcDrop { src: Reg(1) }, opcode::ARC_DROP),
        (BytecodeInstr::WeakNew { dst: Reg(1), src: Reg(2) }, opcode::WEAK_NEW),
        (BytecodeInstr::WeakUpgrade { dst: Reg(1), src: Reg(2) }, opcode::WEAK_UPGRADE),
        (BytecodeInstr::Borrow { dst: Reg(1), src: Reg(2), mutable: false }, opcode::BORROW),
        (BytecodeInstr::Release { src: Reg(1) }, opcode::RELEASE),
        (BytecodeInstr::Drop { value: Reg(0) }, opcode::DROP),
        (BytecodeInstr::StackAlloc { dst: Reg(0), size: 1 }, opcode::STACK_ALLOC),
        (BytecodeInstr::HeapAlloc { dst: Reg(0), type_id: 0 }, opcode::HEAP_ALLOC),
        (BytecodeInstr::CloseUpvalue { src: Reg(0) }, opcode::CLOSE_UPVALUE),
        (BytecodeInstr::Cast { dst: Reg(0), src: Reg(1), target_type_id: 0 }, opcode::CAST),
        (BytecodeInstr::TypeCheck { value: Reg(0), type_id: 0 }, opcode::TYPE_CHECK),
        (BytecodeInstr::TypeOf { dst: Reg(0), src: Reg(1) }, opcode::TYPE_OF),
        (BytecodeInstr::BoundsCheck { array: Reg(0), index: Reg(1) }, opcode::BOUNDS_CHECK),
        (BytecodeInstr::StringLength { dst: Reg(0), src: Reg(1) }, opcode::STRING_LENGTH),
        (BytecodeInstr::StringConcat { dst: Reg(0), str1: Reg(1), str2: Reg(2) }, opcode::STRING_CONCAT),
        (BytecodeInstr::StringEqual { dst: Reg(0), str1: Reg(1), str2: Reg(2) }, opcode::STRING_EQUAL),
        (BytecodeInstr::StringGetChar { dst: Reg(0), src: Reg(1), index: Reg(2) }, opcode::STRING_GET_CHAR),
        (BytecodeInstr::StringFromInt { dst: Reg(0), src: Reg(1) }, opcode::STRING_FROM_INT),
        (BytecodeInstr::StringFromFloat { dst: Reg(0), src: Reg(1) }, opcode::STRING_FROM_FLOAT),
        (BytecodeInstr::TryEnd, opcode::TRY_END),
        (BytecodeInstr::Throw { error: Reg(0) }, opcode::THROW),
    ];
    for (instr, expected_opcode) in cases {
        let opcode_val = instr.opcode();
        assert_eq!(opcode_val, expected_opcode, "opcode mismatch: {instr:?}");
        let operand_len = instr.size();
        let operands: Vec<u8> = (0..operand_len).map(|i| (i as u8).wrapping_mul(3).wrapping_add(1)).collect();
        let encoded = BytecodeInstruction::new(opcode_val, operands);
        let module = build_and_decode(vec![encoded]);
        let decoded = &module.functions[0].instructions;
        assert_eq!(decoded.len(), 1, "{instr:?}: expected 1 decoded instruction, got {}", decoded.len());
        assert_eq!(
            std::mem::discriminant(&decoded[0]),
            std::mem::discriminant(&instr),
            "opcode 0x{opcode_val:02X}: before {instr:?}, after {:?}",
            decoded[0]
        );
    }
}

#[test]
fn test_decode_places_fields_in_correct_positions() {
    fn decode_one(op: u8, operands: Vec<u8>) -> BytecodeInstr {
        let module = build_and_decode(vec![BytecodeInstruction::new(op, operands)]);
        module.functions[0].instructions[0].clone()
    }
    match decode_one(opcode::RC_NEW, vec![0x11, 0x22]) {
        BytecodeInstr::RcNew { dst, src } => {
            assert_eq!(dst, Reg(0x11), "RcNew.dst misplaced");
            assert_eq!(src, Reg(0x22), "RcNew.src misplaced");
        }
        other => panic!("expected RcNew, got {other:?}"),
    }
    match decode_one(opcode::ARC_DROP, vec![0xCD]) {
        BytecodeInstr::ArcDrop { src } => assert_eq!(src, Reg(0xCD), "ArcDrop.src misplaced"),
        other => panic!("expected ArcDrop, got {other:?}"),
    }
    match decode_one(opcode::ARC_NEW, vec![0x05, 0x06]) {
        BytecodeInstr::ArcNew { dst, src } => {
            assert_eq!(dst, Reg(5), "ArcNew.dst misplaced");
            assert_eq!(src, Reg(6), "ArcNew.src misplaced");
        }
        other => panic!("expected ArcNew, got {other:?}"),
    }
    match decode_one(opcode::WEAK_UPGRADE, vec![0x07, 0x08]) {
        BytecodeInstr::WeakUpgrade { dst, src } => {
            assert_eq!(dst, Reg(7), "WeakUpgrade.dst misplaced");
            assert_eq!(src, Reg(8), "WeakUpgrade.src misplaced");
        }
        other => panic!("expected WeakUpgrade, got {other:?}"),
    }
    match decode_one(opcode::DROP, vec![0x0A]) {
        BytecodeInstr::Drop { value } => assert_eq!(value, Reg(10), "Drop.value misplaced"),
        other => panic!("expected Drop, got {other:?}"),
    }
    match decode_one(opcode::CAST, vec![0x01, 0x02, 0x34, 0x12]) {
        BytecodeInstr::Cast { dst, src, target_type_id } => {
            assert_eq!(dst, Reg(1), "Cast.dst misplaced");
            assert_eq!(src, Reg(2), "Cast.src misplaced");
            assert_eq!(target_type_id, 0x1234, "Cast.target_type_id misplaced");
        }
        other => panic!("expected Cast, got {other:?}"),
    }
    match decode_one(opcode::HEAP_ALLOC, vec![0x03, 0x78, 0x56]) {
        BytecodeInstr::HeapAlloc { dst, type_id } => {
            assert_eq!(dst, Reg(3), "HeapAlloc.dst misplaced");
            assert_eq!(type_id, 0x5678, "HeapAlloc.type_id misplaced");
        }
        other => panic!("expected HeapAlloc, got {other:?}"),
    }
    match decode_one(opcode::BOUNDS_CHECK, vec![0x07, 0x09]) {
        BytecodeInstr::BoundsCheck { array, index } => {
            assert_eq!(array, Reg(7), "BoundsCheck.array misplaced");
            assert_eq!(index, Reg(9), "BoundsCheck.index misplaced");
        }
        other => panic!("expected BoundsCheck, got {other:?}"),
    }
    match decode_one(opcode::TAIL_CALL, vec![0x04, 0x03, 0x02, 0x01, 0x05, 0x02]) {
        BytecodeInstr::TailCall { func, base, arg_count } => {
            assert_eq!(func, 0x01020304, "TailCall.func misplaced");
            assert_eq!(base, Reg(5), "TailCall.base misplaced");
            assert_eq!(arg_count, 2, "TailCall.arg_count misplaced");
        }
        other => panic!("expected TailCall, got {other:?}"),
    }
    match decode_one(opcode::STRING_CONCAT, vec![0x01, 0x02, 0x03]) {
        BytecodeInstr::StringConcat { dst, str1, str2 } => {
            assert_eq!(dst, Reg(1), "StringConcat.dst misplaced");
            assert_eq!(str1, Reg(2), "StringConcat.str1 misplaced");
            assert_eq!(str2, Reg(3), "StringConcat.str2 misplaced");
        }
        other => panic!("expected StringConcat, got {other:?}"),
    }
}

/// Every defined opcode except SWITCH (which has no encoding) has its own
/// decoding: a record with ample operand bytes never decodes to `Nop` or to
/// nothing.
#[test]
fn test_all_opcodes_have_decode_branch() {
    let defined: Vec<(&str, u8)> = vec![
        ("RETURN", opcode::RETURN), ("RETURN_VALUE", opcode::RETURN_VALUE), ("JMP", opcode::JMP),
        ("JMP_IF", opcode::JMP_IF), ("JMP_IF_NOT", opcode::JMP_IF_NOT), ("LABEL", opcode::LABEL),
        ("YIELD", opcode::YIELD), ("SPAWN", opcode::SPAWN), ("SPAWN_FROM_LIST", opcode::SPAWN_FROM_LIST),
        ("MOV", opcode::MOV), ("LOAD_CONST", opcode::LOAD_CONST), ("LOAD_LOCAL", opcode::LOAD_LOCAL),
        ("STORE_LOCAL", opcode::STORE_LOCAL), ("LOAD_ARG", opcode::LOAD_ARG), ("I64_ADD", opcode::I64_ADD),
        ("I64_SUB", opcode::I64_SUB), ("I64_MUL", opcode::I64_MUL), ("I64_DIV", opcode::I64_DIV),
        ("I64_REM", opcode::I64_REM), ("I64_AND", opcode::I64_AND), ("I64_OR", opcode::I64_OR),
        ("I64_XOR", opcode::I64_XOR), ("I64_SHL", opcode::I64_SHL), ("I64_SAR", opcode::I64_SAR),
        ("I64_SHR", opcode::I64_SHR), ("I64_NEG", opcode::I64_NEG), ("I64_EQ", opcode::I64_EQ),
        ("I64_NE", opcode::I64_NE), ("I64_LT", opcode::I64_LT), ("I64_LE", opcode::I64_LE),
        ("I64_GT", opcode::I64_GT), ("I64_GE", opcode::I64_GE), ("STACK_ALLOC", opcode::STACK_ALLOC),
        ("HEAP_ALLOC", opcode::HEAP_ALLOC), ("DROP", opcode::DROP), ("GET_FIELD", opcode::GET_FIELD),
        ("SET_FIELD", opcode::SET_FIELD), ("LOAD_ELEMENT", opcode::LOAD_ELEMENT),
        ("STORE_ELEMENT", opcode::STORE_ELEMENT), ("NEW_LIST_WITH_CAP", opcode::NEW_LIST_WITH_CAP),
        ("CREATE_STRUCT", opcode::CREATE_STRUCT), ("NEW_DICT", opcode::NEW_DICT),
        ("NEW_TUPLE", opcode::NEW_TUPLE), ("NEW_RANGE", opcode::NEW_RANGE),
        ("CREATE_VARIANT", opcode::CREATE_VARIANT), ("VARIANT_TAG", opcode::VARIANT_TAG),
        ("VARIANT_PAYLOAD", opcode::VARIANT_PAYLOAD), ("NEW_ARRAY", opcode::NEW_ARRAY),
        ("CONTAINS", opcode::CONTAINS), ("CALL_STATIC", opcode::CALL_STATIC),
        ("CALL_NATIVE", opcode::CALL_NATIVE), ("CALL_VIRT", opcode::CALL_VIRT), ("CALL_DYN", opcode::CALL_DYN),
        ("TAIL_CALL", opcode::TAIL_CALL),
        ("MAKE_CLOSURE", opcode::MAKE_CLOSURE), ("LOAD_UPVALUE", opcode::LOAD_UPVALUE),
        ("STORE_UPVALUE", opcode::STORE_UPVALUE), ("CLOSE_UPVALUE", opcode::CLOSE_UPVALUE),
        ("ARC_NEW", opcode::ARC_NEW), ("ARC_CLONE", opcode::ARC_CLONE), ("ARC_DROP", opcode::ARC_DROP),
        ("WEAK_NEW", opcode::WEAK_NEW), ("WEAK_UPGRADE", opcode::WEAK_UPGRADE), ("BORROW", opcode::BORROW),
        ("RELEASE", opcode::RELEASE), ("RC_NEW", opcode::RC_NEW), ("STRING_LENGTH", opcode::STRING_LENGTH),
        ("STRING_CONCAT", opcode::STRING_CONCAT), ("STRING_EQUAL", opcode::STRING_EQUAL),
        ("STRING_GET_CHAR", opcode::STRING_GET_CHAR), ("STRING_FROM_INT", opcode::STRING_FROM_INT),
        ("STRING_FROM_FLOAT", opcode::STRING_FROM_FLOAT), ("TRY_BEGIN", opcode::TRY_BEGIN),
        ("TRY_END", opcode::TRY_END), ("THROW", opcode::THROW), ("BOUNDS_CHECK", opcode::BOUNDS_CHECK),
        ("TYPE_CHECK", opcode::TYPE_CHECK), ("CAST", opcode::CAST), ("TYPE_OF", opcode::TYPE_OF),
    ];
    let pool: Vec<ConstValue> = vec![];
    let operands = vec![0u8; 32];
    let mut missing: Vec<&str> = Vec::new();
    for (name, op) in defined {
        match decode_instruction(op, &operands, &pool) {
            Decoded::Instr(BytecodeInstr::Nop) | Decoded::Skip => missing.push(name),
            _ => {}
        }
    }
    assert!(missing.is_empty(), "opcodes without a decode branch: {missing:?}");
}

#[test]
fn short_records_decode_to_nop_or_nothing() {
    let module = build_and_decode(vec![
        BytecodeInstruction::new(opcode::MOV, vec![1]),
        BytecodeInstruction::new(opcode::I64_GE, vec![1, 2]),
        BytecodeInstruction::new(opcode::RETURN, vec![]),
    ]);
    let instrs = &module.functions[0].instructions;
    assert_eq!(instrs.len(), 2);
    assert!(matches!(instrs[0], BytecodeInstr::Nop));
    assert!(matches!(instrs[1], BytecodeInstr::Return));
}

#[test]
fn labels_mark_next_instruction() {
    let module = build_and_decode(vec![
        BytecodeInstruction::new(opcode::NOP, vec![]),
        BytecodeInstruction::new(opcode::LABEL, vec![7, 0, 0, 0]),
        BytecodeInstruction::new(opcode::JMP, vec![7, 0, 0, 0]),
    ]);
    let f = &module.functions[0];
    assert_eq!(f.instructions.len(), 2);
    assert_eq!(f.labels.get(&7), Some(&1));
    assert!(matches!(f.instructions[1], BytecodeInstr::Jmp { target: Label(7) }));
}

#[test]
fn entry_point_defaults_to_first_function() {
    let module = build_and_decode(vec![]);
    assert_eq!(module.entry_point, Some(0));
    assert_eq!(module.name, "main");
    let empty = BytecodeFile {
        header: FileHeader::default(),
        type_table: vec![],
        const_pool: vec![],
        code_section: CodeSection { functions: vec![] },
        vtables: vec![],
    };
    assert_eq!(BytecodeModule::from_file(empty).entry_point, None);
    let explicit = BytecodeFile {
        header: FileHeader { entry_point: 3, ..FileHeader::default() },
        type_table: vec![MonoType::Bool],
        const_pool: vec![],
        code_section: CodeSection { functions: vec![] },
        vtables: vec![],
    };
    let m = BytecodeModule::from_file(explicit);
    assert_eq!(m.entry_point, Some(3));
    assert!(matches!(m.type_table[0], IrType::Bool));
}

#[test]
fn spawn_resource_names_are_decoded_lossily() {
    // dst=5, one closure (r2), one task depending on task 0, one task with
    // one resource of 3 bytes "a", 0xFF, "b"
    let mut ops: Vec<u8> = vec![5, 0];
    ops.extend_from_slice(&1u32.to_le_bytes());
    ops.extend_from_slice(&[2, 0]);
    ops.extend_from_slice(&1u32.to_le_bytes());
    ops.extend_from_slice(&1u32.to_le_bytes());
    ops.extend_from_slice(&0u32.to_le_bytes());
    ops.extend_from_slice(&1u32.to_le_bytes());
    ops.extend_from_slice(&1u32.to_le_bytes());
    ops.extend_from_slice(&3u32.to_le_bytes());
    ops.extend_from_slice(&[0x61, 0xFF, 0x62]);
    let module = build_and_decode(vec![BytecodeInstruction::new(opcode::SPAWN, ops)]);
    match &module.functions[0].instructions[0] {
        BytecodeInstr::Spawn { dst, closures, task_deps, task_resources } => {
            assert_eq!(*dst, Reg(5));
            assert_eq!(closures, &vec![Reg(2)]);
            assert_eq!(task_deps, &vec![vec![0u32]]);
            assert_eq!(task_resources, &vec![vec!["a\u{FFFD}b".to_string()]]);
        }
        other => panic!("expected Spawn, got {other:?}"),
    }
}

#[test]
fn call_static_and_load_const_strings() {
    let pool = vec![ConstValue::String("hello".to_string())];
    let module = build_and_decode_with_pool(
        vec![BytecodeInstruction::new(opcode::LOAD_CONST, vec![1, 0, 0])],
        pool,
    );
    assert!(matches!(
        module.functions[0].instructions[0],
        BytecodeInstr::LoadConst { dst: Reg(1), const_idx: 0 }
    ));
    assert_eq!(module.constants.len(), 1);
}

#[test]
fn debug_positions_are_carried_over() {

    let mut debug_map = HashMap::new();
    debug_map.insert(0usize, DebugSpan { file_id: 1, start: 4, end: 9 });
    let func = FunctionCode {
        name: "f".to_string(),
        params: vec![],
        return_type: MonoType::Void,
        instructions: vec![BytecodeInstruction::new(opcode::RETURN, vec![])],
        local_count: 0,
        debug_map,
    };
    let file = BytecodeFile {
        header: FileHeader::default(),
        type_table: vec![],
        const_pool: vec![],
        code_section: CodeSection { functions: vec![func] },
        vtables: vec![],
    };
    let m = BytecodeModule::from_file(file);
    assert_eq!(m.functions[0].debug_map.get(&0), Some(&DebugSpan { file_id: 1, start: 4, end: 9 }));
}
