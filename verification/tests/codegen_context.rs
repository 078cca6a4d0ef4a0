use yaoxiang::frontend::typecheck::MonoType;
use yaoxiang::backends::common::opcode;
use yaoxiang::middle::codegen::{CodegenContext, CodegenError};
use yaoxiang::middle::core_ir::ir::{
    BasicBlock, ConstValue, FunctionBody, FunctionIR, Instruction, ModuleIR, Operand,
};
use yaoxiang::util::span::Span;

fn function(name: &str, return_type: MonoType) -> FunctionIR {
    FunctionIR {
        name: name.to_string(),
        def: None,
        params: vec![],
        return_type,
        body: FunctionBody::Code { blocks: Vec::new(), entry: 0, locals: Vec::new() },
        generic_params: None,
    }
}

#[test]
fn test_if_label_generation() {
    let module = ModuleIR::default();
    let mut ctx = CodegenContext::new(module);
    let end_label = ctx.next_label();
    let then_label = ctx.next_label();
    assert_ne!(end_label, then_label, "If branches should have different labels");
}

#[test]
fn test_while_label_generation() {
    let module = ModuleIR::default();
    let mut ctx = CodegenContext::new(module);
    let loop_label = ctx.next_label();
    let end_label = ctx.next_label();
    assert_ne!(loop_label, end_label, "Loop should have different start and end labels");
    assert!(loop_label < end_label, "Labels should be in increasing order");
}

#[test]
fn test_for_label_generation() {
    let module = ModuleIR::default();
    let mut ctx = CodegenContext::new(module);
    let loop_label = ctx.next_label();
    let end_label = ctx.next_label();
    let iter_label = ctx.next_label();
    assert_eq!(3, vec![loop_label, end_label, iter_label].len());
}

#[test]
fn test_match_label_generation() {
    let module = ModuleIR::default();
    let mut ctx = CodegenContext::new(module);
    let end_label = ctx.next_label();
    let arm1 = ctx.next_label();
    let arm2 = ctx.next_label();
    let arm3 = ctx.next_label();
    assert_eq!(end_label, 0);
    assert_eq!(arm1, 1);
    assert_eq!(arm2, 2);
    assert_eq!(arm3, 3);
}

#[test]
fn test_break_continue_labels() {
    let module = ModuleIR::default();
    let mut ctx = CodegenContext::new(module);
    let loop_label = 10;
    let end_label = 20;
    ctx.flow.set_loop_label(loop_label, end_label);
    assert_eq!(ctx.flow.loop_label().unwrap().0, loop_label);
    assert_eq!(ctx.flow.loop_label().unwrap().1, end_label);
}

#[test]
fn test_basic_block_instruction_order() {
    let span = Span::new(0, 0, 0);
    let block = BasicBlock {
        label: 0,
        instructions: vec![
            Instruction::Move { dst: Operand::Temp(0), src: Operand::Const(ConstValue::Int(0)), span },
            Instruction::Add {
                dst: Operand::Temp(1),
                lhs: Operand::Temp(0),
                rhs: Operand::Const(ConstValue::Int(1)),
                span,
            },
            Instruction::Ret { value: Some(Operand::Temp(1)), span },
        ],
        successors: vec![],
    };
    assert_eq!(block.instructions.len(), 3);
    assert!(matches!(block.instructions[0], Instruction::Move { .. }));
    assert!(matches!(block.instructions[1], Instruction::Add { .. }));
    assert!(matches!(block.instructions[2], Instruction::Ret { .. }));
}

#[test]
fn test_local_allocation() {
    let module = ModuleIR::default();
    let mut ctx = CodegenContext::new(module);
    let local1 = ctx.next_local();
    let local2 = ctx.next_local();
    assert_ne!(local1, local2);
    assert!(local1 < local2);
}

#[test]
fn test_scope_level() {
    let module = ModuleIR::default();
    let mut ctx = CodegenContext::new(module);
    assert_eq!(ctx.symbols.scope_level(), 0);
    ctx.symbols.push_scope();
    assert_eq!(ctx.symbols.scope_level(), 1);
    ctx.symbols.push_scope();
    assert_eq!(ctx.symbols.scope_level(), 2);
}

#[test]
fn test_function_indices() {
    let mut module = ModuleIR::default();
    module.functions.push(function("main", MonoType::Int(64)));
    module.functions.push(function("helper", MonoType::Void));
    let ctx = CodegenContext::new(module);
    let main_idx = ctx.flow.function_indices().get("main");
    let helper_idx = ctx.flow.function_indices().get("helper");
    assert!(main_idx.is_some());
    assert!(helper_idx.is_some());
    assert_ne!(main_idx, helper_idx);
}

#[test]
fn temporaries_are_numbered_from_zero() {
    let mut ctx = CodegenContext::default();
    assert_eq!(ctx.next_temp(), 0);
    assert_eq!(ctx.next_temp(), 1);
    assert_eq!(ctx.next_local(), 0);
    assert!(ctx.current_function.is_none());
}

fn sp() -> Span {
    Span::new(0, 0, 0)
}

#[test]
fn arithmetic_translates_to_register_records() {
    let mut ctx = CodegenContext::default();
    let add = Instruction::Add { dst: Operand::Temp(1), lhs: Operand::Local(2), rhs: Operand::Arg(3), span: sp() };
    let r = ctx.translate_instruction(&add).unwrap();
    assert_eq!(r.opcode, opcode::I64_ADD);
    assert_eq!(r.operands, vec![1, 2, 3]);
    let bad = Instruction::Add { dst: Operand::Global(0), lhs: Operand::Local(2), rhs: Operand::Arg(3), span: sp() };
    assert!(matches!(ctx.translate_instruction(&bad), Err(CodegenError::InvalidOperand)));
}

#[test]
fn loads_add_constants_to_the_pool() {
    let mut ctx = CodegenContext::default();
    let load = Instruction::Load { dst: Operand::Temp(4), src: Operand::Const(ConstValue::Int(7)), span: sp() };
    let r = ctx.translate_instruction(&load).unwrap();
    assert_eq!(r.opcode, opcode::LOAD_CONST);
    assert_eq!(r.operands, vec![4, 0, 0]);
    let r2 = ctx.translate_instruction(&load).unwrap();
    assert_eq!(r2.operands, vec![4, 1, 0]);
    assert_eq!(ctx.const_pool, vec![ConstValue::Int(7), ConstValue::Int(7)]);
    let local = Instruction::Load { dst: Operand::Temp(4), src: Operand::Local(9), span: sp() };
    let r3 = ctx.translate_instruction(&local).unwrap();
    assert_eq!((r3.opcode, r3.operands), (opcode::LOAD_LOCAL, vec![4, 9]));
}

#[test]
fn calls_jumps_and_unsupported_kinds() {
    let mut ctx = CodegenContext::default();
    let call = Instruction::Call {
        dst: Some(Operand::Temp(2)),
        func: Operand::Const(ConstValue::String("print".to_string())),
        args: vec![Operand::Temp(5), Operand::Temp(6)],
        def: None,
        span: sp(),
    };
    let r = ctx.translate_instruction(&call).unwrap();
    assert_eq!(r.opcode, opcode::CALL_STATIC);
    assert_eq!(r.operands, vec![2, 0, 0, 0, 0, 5, 2]);
    assert_eq!(ctx.const_pool, vec![ConstValue::String("print".to_string())]);
    let jmp = Instruction::Jmp { target: 0x0102_0304, span: sp() };
    let j = ctx.translate_instruction(&jmp).unwrap();
    assert_eq!((j.opcode, j.operands), (opcode::JMP, vec![4, 3, 2, 1]));
    let jif = Instruction::JmpIf { cond: Operand::Temp(1), target: 0x1234, span: sp() };
    let j2 = ctx.translate_instruction(&jif).unwrap();
    assert_eq!(j2.operands, vec![1, 0x34, 0x12]);
    let not = Instruction::Not { dst: Operand::Temp(0), src: Operand::Temp(1), span: sp() };
    match ctx.translate_instruction(&not) {
        Err(CodegenError::UnimplementedStmt { stmt_type }) => assert_eq!(stmt_type, "Not"),
        other => panic!("expected an unsupported-instruction error, got {other:?}"),
    }
    let ret = Instruction::Ret { value: None, span: sp() };
    assert_eq!(ctx.translate_instruction(&ret).unwrap().opcode, opcode::RETURN);
}

#[test]
fn closures_use_function_indices() {
    let mut module = ModuleIR::default();
    module.functions.push(function("f", MonoType::Void));
    module.functions.push(function("g", MonoType::Void));
    let mut ctx = CodegenContext::new(module);
    let mk = Instruction::MakeClosure { dst: Operand::Temp(3), func: "g".to_string(), def: None, env: vec![], span: sp() };
    let r = ctx.translate_instruction(&mk).unwrap();
    assert_eq!((r.opcode, r.operands), (opcode::MAKE_CLOSURE, vec![3, 1, 0, 0, 0, 0]));
}
