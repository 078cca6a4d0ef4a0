use yaoxiang::backends::common::Opcode;
use yaoxiang::middle::bytecode::{
    BinaryOp, BytecodeFunction, BytecodeInstr, BytecodeModule, CompareOp, ConstValue,
    FunctionRef, IrType, Label, Reg, UnaryOp,
};
use std::collections::HashMap;
use yaoxiang::frontend::typecheck::MonoType;
use yaoxiang::middle::passes::codegen::bytecode::{
    BytecodeFile, BytecodeInstruction, CodeSection, FileHeader, FunctionCode,
};

#[test]
fn test_instruction_size() {
    let nop = BytecodeInstr::Nop;
    assert_eq!(nop.size(), 1);

    let mov = BytecodeInstr::Mov { dst: Reg(0), src: Reg(1) };
    assert_eq!(mov.size(), 5);
}

#[test]
fn test_register_display() {
    assert_eq!(Reg(0).to_string(), "r0");
    assert_eq!(Reg(15).to_string(), "r15");
}

#[test]
fn test_label_display() {
    assert_eq!(Label(0).to_string(), "L0");
    assert_eq!(Label(10).to_string(), "L10");
}

#[test]
fn symbolic_sizes_grow_with_operand_lists() {
    let switch = BytecodeInstr::Switch {
        value: Reg(1),
        targets: vec![(None, Label(1)), (Some(Label(2)), Label(3))],
    };
    assert_eq!(switch.size(), 1 + 2 + 2 * 4);
    let call = BytecodeInstr::CallStatic {
        dst: Some(Reg(0)),
        func: FunctionRef::Index(3),
        args: vec![Reg(1), Reg(2), Reg(3)],
    };
    assert_eq!(call.size(), 1 + 4 + 3 * 2);
    let closure = BytecodeInstr::MakeClosure {
        dst: Reg(0),
        func: FunctionRef::Static { module: String::new(), name: "f".to_string() },
        env: vec![],
    };
    assert_eq!(closure.size(), 5);
    assert_eq!(BytecodeInstr::TryEnd.size(), 1);
    assert_eq!(BytecodeInstr::LoadLocal { dst: Reg(0), local_idx: 1 }.size(), 4);
    assert_eq!(BytecodeInstr::BinaryOp { dst: Reg(0), lhs: Reg(1), rhs: Reg(2), op: BinaryOp::Add }.size(), 7);
}

#[test]
fn symbolic_opcodes_follow_operation() {
    let add = BytecodeInstr::BinaryOp { dst: Reg(0), lhs: Reg(1), rhs: Reg(2), op: BinaryOp::Sar };
    assert_eq!(add.opcode(), Opcode::I64Sar);
    let cmp = BytecodeInstr::Compare { dst: Reg(0), lhs: Reg(1), rhs: Reg(2), cmp: CompareOp::Le };
    assert_eq!(cmp.opcode(), Opcode::I64Le);
    let not = BytecodeInstr::UnaryOp { dst: Reg(0), src: Reg(1), op: UnaryOp::Not };
    assert_eq!(not.opcode(), Opcode::I64Neg);
    assert_eq!(BytecodeInstr::TypeOf { dst: Reg(0), src: Reg(1) }.opcode(), Opcode::TypeOf);
    assert_eq!(BytecodeInstr::Nop.opcode(), Opcode::Nop);
}

#[test]
fn symbolic_register_and_label_accessors() {
    assert_eq!(Reg::new(7).index(), 7);
    assert_eq!(Label::new(9).id(), 9);
    assert_eq!(Reg(65535).to_string(), "r65535");
    assert_eq!(Label(4294967295).to_string(), "L4294967295");
}

#[test]
fn symbolic_module_collects_constants_and_functions() {
    let mut m = BytecodeModule::new("m".to_string());
    assert_eq!(m.add_constant(ConstValue::Int(1)), 0);
    assert_eq!(m.add_constant(ConstValue::Bool(true)), 1);
    assert_eq!(m.constants.len(), 2);
    let f = BytecodeFunction {
        name: "f".to_string(),
        params: vec![IrType::Int(64)],
        return_type: IrType::Void,
        local_count: 0,
        upvalue_count: 0,
        instructions: vec![BytecodeInstr::Return],
        labels: HashMap::new(),
        exception_handlers: vec![],
    };
    assert_eq!(m.add_function(f), 0);
    assert_eq!(m.functions.len(), 1);
    assert_eq!(m.name, "m");
    assert!(m.entry_point.is_none());
}

#[test]
fn symbolic_module_from_file_keeps_names_and_entry() {
    let f = FunctionCode {
        name: "add".to_string(),
        params: vec![MonoType::Int(64), MonoType::Int(64)],
        return_type: MonoType::Int(64),
        instructions: vec![BytecodeInstruction::new(0, vec![])],
        local_count: 3,
        debug_map: HashMap::new(),
    };
    let file = BytecodeFile {
        header: FileHeader { entry_point: 2, ..FileHeader::default() },
        type_table: vec![MonoType::Bool],
        const_pool: vec![ConstValue::Int(7)],
        code_section: CodeSection { functions: vec![f] },
        vtables: vec![],
    };
    let m = BytecodeModule::from_file(file);
    assert_eq!(m.name, "main");
    assert_eq!(m.entry_point, Some(2));
    assert_eq!(m.constants, vec![ConstValue::Int(7)]);
    assert_eq!(m.functions[0].name, "add");
    assert_eq!(m.functions[0].local_count, 3);
    assert_eq!(m.functions[0].params.len(), 2);
    assert!(matches!(m.functions[0].params[0], IrType::Void));
    assert!(matches!(m.functions[0].return_type, IrType::Void));
    assert!(m.functions[0].instructions.is_empty());
    assert!(matches!(m.type_table[0], IrType::Void));
    let none = BytecodeFile {
        header: FileHeader::default(),
        type_table: vec![],
        const_pool: vec![],
        code_section: CodeSection { functions: vec![] },
        vtables: vec![],
    };
    assert_eq!(BytecodeModule::from_file(none).entry_point, None);
}
