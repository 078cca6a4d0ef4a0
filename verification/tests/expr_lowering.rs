use yaoxiang::frontend::ast::{BinOp, Expr, FStringSegment, Literal, Stmt, UnOp};
use yaoxiang::frontend::typecheck::MonoType;
use yaoxiang::middle::codegen::generator::{typed_opcode, TypedOpcode};
use yaoxiang::middle::core_ir::expr_ir::{AstToIrGenerator, IrGenError};
use yaoxiang::middle::core_ir::ir::{ConstValue, FunctionBody, Instruction, Operand};
use yaoxiang::middle::core_ir::ir_gen::eval_const_expr;
use yaoxiang::util::span::Span;
use yaoxiang::util::str_map::StrMap;

fn sp() -> Span {
    Span::new(0, 1, 2)
}

fn lit(l: Literal) -> Expr {
    Expr::Lit(l, sp())
}

fn var(n: &str) -> Expr {
    Expr::Var(n.to_string(), sp())
}

fn bin(op: BinOp, l: Expr, r: Expr) -> Expr {
    Expr::BinOp { op, left: Box::new(l), right: Box::new(r), span: sp() }
}

fn interp(e: Expr) -> FStringSegment {
    FStringSegment::Interpolation { expr: Box::new(e), format_spec: None }
}

fn text(t: &str) -> FStringSegment {
    FStringSegment::Text(t.to_string())
}

fn fstring(segments: Vec<FStringSegment>) -> Expr {
    Expr::FString { segments, span: sp() }
}

/// A generator with one scope binding `x` to local 0, a capture `c` at
/// upvalue 3, a global `g`, an alias `PI` for `std.math.PI`, and temporaries
/// from 10.
fn generator() -> AstToIrGenerator {
    let mut scope = StrMap::new();
    scope.insert("x".to_string(), 0usize);
    let mut captures = StrMap::new();
    captures.insert("c".to_string(), 3usize);
    let mut aliases = StrMap::new();
    aliases.insert("PI".to_string(), "std.math.PI".to_string());
    AstToIrGenerator {
        next_temp: 10,
        symbols: vec![scope],
        closure_captures: captures,
        global_vars: vec!["g".to_string()],
        use_aliases: aliases,
    }
}

fn lower(g: &mut AstToIrGenerator, e: &Expr) -> (Result<(), IrGenError>, Vec<Instruction>, Vec<ConstValue>) {
    let mut instrs = Vec::new();
    let mut consts = Vec::new();
    let r = g.generate_expr_ir(e, 1, &mut instrs, &mut consts);
    (r, instrs, consts)
}

#[test]
fn literal_is_pooled_and_loaded() {
    let mut g = generator();
    let (r, instrs, consts) = lower(&mut g, &lit(Literal::Int(5)));
    assert!(r.is_ok());
    assert_eq!(consts, vec![ConstValue::Int(5)]);
    assert_eq!(instrs.len(), 1);
    assert!(matches!(&instrs[0], Instruction::Load { dst: Operand::Local(1), src: Operand::Const(ConstValue::Int(5)), .. }));
    assert_eq!(g.next_temp, 10);
}

#[test]
fn variables_resolve_in_order() {
    let mut g = generator();
    let (_, instrs, _) = lower(&mut g, &var("c"));
    assert!(matches!(&instrs[0], Instruction::LoadUpvalue { dst: Operand::Local(1), upvalue_idx: 3, .. }));
    let (_, instrs, _) = lower(&mut g, &var("x"));
    assert!(matches!(&instrs[0], Instruction::Load { dst: Operand::Local(1), src: Operand::Local(0), .. }));
    let (_, instrs, _) = lower(&mut g, &var("g"));
    match &instrs[0] {
        Instruction::Call { dst: Some(Operand::Local(1)), func: Operand::Const(ConstValue::String(f)), args, def: None, .. } => {
            assert_eq!(f, "g");
            assert!(args.is_empty());
        }
        other => panic!("expected a call, got {other:?}"),
    }
    let (_, instrs, _) = lower(&mut g, &var("PI"));
    match &instrs[0] {
        Instruction::Call { func: Operand::Const(ConstValue::String(f)), .. } => assert_eq!(f, "std.math.PI"),
        other => panic!("expected a call, got {other:?}"),
    }
    let (_, instrs, _) = lower(&mut g, &var("Int"));
    assert!(matches!(&instrs[0], Instruction::Load { src: Operand::Const(ConstValue::Void), .. }));
}

#[test]
fn unresolved_variable_is_an_error() {
    let mut g = generator();
    let (r, _, _) = lower(&mut g, &var("nowhere"));
    match r {
        Err(IrGenError::UnresolvedVariable(n)) => assert_eq!(n, "nowhere"),
        other => panic!("expected an unresolved variable, got {other:?}"),
    }
}

#[test]
fn binary_operator_uses_two_fresh_temporaries() {
    let mut g = generator();
    let (r, instrs, consts) = lower(&mut g, &bin(BinOp::Add, lit(Literal::Int(1)), lit(Literal::Int(2))));
    assert!(r.is_ok());
    assert_eq!(consts, vec![ConstValue::Int(1), ConstValue::Int(2)]);
    assert_eq!(instrs.len(), 3);
    assert!(matches!(&instrs[0], Instruction::Load { dst: Operand::Local(10), .. }));
    assert!(matches!(&instrs[1], Instruction::Load { dst: Operand::Local(11), .. }));
    assert!(matches!(
        &instrs[2],
        Instruction::Add { dst: Operand::Local(1), lhs: Operand::Local(10), rhs: Operand::Local(11), .. }
    ));
    assert_eq!(g.next_temp, 12);
}

#[test]
fn range_has_no_instruction() {
    let mut g = generator();
    let (r, _, _) = lower(&mut g, &bin(BinOp::Range, lit(Literal::Int(1)), lit(Literal::Int(2))));
    assert!(matches!(r, Err(IrGenError::UnhandledOperator(BinOp::Range))));
}

#[test]
fn assignment_to_new_variable_binds_a_fresh_local() {
    let mut g = generator();
    let (r, instrs, _) = lower(&mut g, &bin(BinOp::Assign, var("y"), lit(Literal::Int(7))));
    assert!(r.is_ok());
    assert_eq!(instrs.len(), 3);
    assert!(matches!(&instrs[0], Instruction::Load { dst: Operand::Local(11), .. }));
    assert!(matches!(&instrs[1], Instruction::Store { dst: Operand::Local(10), src: Operand::Local(11), .. }));
    assert!(matches!(&instrs[2], Instruction::Load { dst: Operand::Local(1), src: Operand::Local(10), .. }));
    assert_eq!(g.lookup_local("y"), Some(10));
    // A second assignment reuses the local.
    let (_, instrs, _) = lower(&mut g, &bin(BinOp::Assign, var("y"), lit(Literal::Int(8))));
    assert!(matches!(&instrs[1], Instruction::Store { dst: Operand::Local(10), src: Operand::Local(12), .. }));
}

#[test]
fn and_short_circuits_to_false() {
    let mut g = generator();
    let (r, instrs, _) = lower(&mut g, &bin(BinOp::And, var("x"), var("c")));
    assert!(r.is_ok());
    assert_eq!(instrs.len(), 5);
    assert!(matches!(&instrs[0], Instruction::Load { dst: Operand::Local(10), src: Operand::Local(0), .. }));
    assert!(matches!(&instrs[1], Instruction::JmpIfNot { cond: Operand::Local(10), target: 4, .. }));
    assert!(matches!(&instrs[2], Instruction::LoadUpvalue { dst: Operand::Local(1), .. }));
    assert!(matches!(&instrs[3], Instruction::Jmp { target: 5, .. }));
    assert!(matches!(&instrs[4], Instruction::Load { dst: Operand::Local(1), src: Operand::Const(ConstValue::Bool(false)), .. }));
}

#[test]
fn or_short_circuits_to_true() {
    let mut g = generator();
    let (_, instrs, _) = lower(&mut g, &bin(BinOp::Or, var("x"), var("x")));
    assert!(matches!(&instrs[1], Instruction::JmpIf { cond: Operand::Local(10), target: 4, .. }));
    assert!(matches!(&instrs[4], Instruction::Load { src: Operand::Const(ConstValue::Bool(true)), .. }));
}

#[test]
fn negation_evaluates_into_a_temporary() {
    let mut g = generator();
    let e = Expr::UnOp { op: UnOp::Neg, expr: Box::new(var("x")), span: sp() };
    let (_, instrs, _) = lower(&mut g, &e);
    assert!(matches!(&instrs[1], Instruction::Neg { dst: Operand::Local(1), src: Operand::Local(10), .. }));
}

#[test]
fn constant_fstring_is_folded_text() {
    let e = fstring(vec![
        text("a"),
        interp(lit(Literal::Int(-12))),
        text("b"),
        interp(lit(Literal::Bool(true))),
        interp(lit(Literal::Char('c'))),
        interp(lit(Literal::String("s".to_string()))),
        interp(bin(BinOp::Add, lit(Literal::Int(2)), lit(Literal::Int(3)))),
    ]);
    assert_eq!(eval_const_expr(&e), Some(ConstValue::String("a-12btruecs5".to_string())));
    let min = fstring(vec![interp(lit(Literal::Int(i128::MIN)))]);
    assert_eq!(eval_const_expr(&min), Some(ConstValue::String(i128::MIN.to_string())));
    let mut g = generator();
    let (_, instrs, consts) = lower(&mut g, &e);
    assert_eq!(consts, vec![ConstValue::String("a-12btruecs5".to_string())]);
    assert!(matches!(&instrs[0], Instruction::Load { dst: Operand::Local(1), src: Operand::Const(ConstValue::String(_)), .. }));
}

#[test]
fn fstring_with_format_spec_or_variable_does_not_fold() {
    let spec = fstring(vec![FStringSegment::Interpolation {
        expr: Box::new(lit(Literal::Int(1))),
        format_spec: Some(".2".to_string()),
    }]);
    assert_eq!(eval_const_expr(&spec), None);
    let with_var = fstring(vec![text("v="), interp(var("x"))]);
    assert_eq!(eval_const_expr(&with_var), None);
}

#[test]
fn fstring_that_does_not_fold_calls_format() {
    let e = fstring(vec![
        text("x="),
        interp(var("x")),
        text(" pi="),
        FStringSegment::Interpolation { expr: Box::new(var("PI")), format_spec: Some(".2f".to_string()) },
    ]);
    let mut g = generator();
    let (r, instrs, consts) = lower(&mut g, &e);
    assert!(r.is_ok());
    assert_eq!(consts, vec![ConstValue::String("x={0} pi={1:.2f}".to_string())]);
    assert_eq!(instrs.len(), 4);
    assert!(matches!(&instrs[0], Instruction::Load { dst: Operand::Local(10), src: Operand::Local(0), .. }));
    assert!(matches!(&instrs[1], Instruction::Call { dst: Some(Operand::Local(11)), .. }));
    assert!(matches!(&instrs[2], Instruction::Load { dst: Operand::Local(12), src: Operand::Const(ConstValue::String(_)), .. }));
    match &instrs[3] {
        Instruction::Call { dst: Some(Operand::Local(1)), func: Operand::Const(ConstValue::String(f)), args, .. } => {
            assert_eq!(f, "std.string.format");
            assert_eq!(args, &vec![Operand::Local(12), Operand::Local(10), Operand::Local(11)]);
        }
        other => panic!("expected the format call, got {other:?}"),
    }
    assert_eq!(g.next_temp, 13);
}

#[test]
fn fstring_interpolating_unknown_name_fails() {
    let e = fstring(vec![text("a"), interp(var("nowhere"))]);
    let mut g = generator();
    let (r, _, _) = lower(&mut g, &e);
    assert!(matches!(r, Err(IrGenError::UnresolvedVariable(_))));
}

#[test]
fn typed_opcode_follows_the_left_operand_type() {
    assert_eq!(typed_opcode(BinOp::Add, &MonoType::Float(64)), Some(TypedOpcode::F64Add));
    assert_eq!(typed_opcode(BinOp::Add, &MonoType::Int(64)), Some(TypedOpcode::I64Add));
    assert_eq!(typed_opcode(BinOp::Lt, &MonoType::Bool), Some(TypedOpcode::I64Lt));
    assert_eq!(typed_opcode(BinOp::Neq, &MonoType::Float(32)), Some(TypedOpcode::F64Ne));
    assert_eq!(typed_opcode(BinOp::Mod, &MonoType::Int(64)), None);
}

fn lower_stmt(g: &mut AstToIrGenerator, s: &Stmt) -> (Result<(), IrGenError>, Vec<Instruction>, Vec<ConstValue>) {
    let mut instrs = Vec::new();
    let mut consts = Vec::new();
    let r = g.generate_local_stmt_ir(s, &mut instrs, &mut consts);
    (r, instrs, consts)
}

#[test]
fn expression_statement_evaluates_into_a_temporary() {
    let mut g = generator();
    let (r, instrs, _) = lower_stmt(&mut g, &Stmt::Expr(lit(Literal::Int(4))));
    assert!(r.is_ok());
    assert!(matches!(&instrs[0], Instruction::Load { dst: Operand::Local(10), .. }));
    assert_eq!(g.next_temp, 11);
}

#[test]
fn binding_evaluates_straight_into_the_variable() {
    let mut g = generator();
    let s = Stmt::Assign { target: var("z"), value: Some(lit(Literal::Int(9))), span: sp() };
    let (r, instrs, consts) = lower_stmt(&mut g, &s);
    assert!(r.is_ok());
    assert_eq!(consts, vec![ConstValue::Int(9)]);
    assert_eq!(instrs.len(), 1);
    assert!(matches!(&instrs[0], Instruction::Load { dst: Operand::Local(10), src: Operand::Const(ConstValue::Int(9)), .. }));
    assert_eq!(g.lookup_local("z"), Some(10));
    let s = Stmt::Assign { target: var("x"), value: Some(lit(Literal::Int(1))), span: sp() };
    let (_, instrs, _) = lower_stmt(&mut g, &s);
    assert!(matches!(&instrs[0], Instruction::Load { dst: Operand::Local(0), .. }));
}

#[test]
fn declaration_without_value_loads_zero() {
    let mut g = generator();
    let s = Stmt::Assign { target: var("w"), value: None, span: sp() };
    let (r, instrs, consts) = lower_stmt(&mut g, &s);
    assert!(r.is_ok());
    assert!(consts.is_empty());
    assert!(matches!(&instrs[0], Instruction::Load { dst: Operand::Local(10), src: Operand::Const(ConstValue::Int(0)), .. }));
}

#[test]
fn assignment_to_a_non_variable_fails() {
    let mut g = generator();
    let s = Stmt::Assign { target: lit(Literal::Int(1)), value: None, span: sp() };
    let (r, instrs, _) = lower_stmt(&mut g, &s);
    assert!(matches!(r, Err(IrGenError::UnsupportedTarget)));
    assert!(instrs.is_empty());
}

#[test]
fn return_with_and_without_value() {
    let mut g = generator();
    let (_, instrs, _) = lower_stmt(&mut g, &Stmt::Return(Some(var("x")), sp()));
    assert_eq!(instrs.len(), 2);
    assert!(matches!(&instrs[0], Instruction::Load { dst: Operand::Local(10), src: Operand::Local(0), .. }));
    assert!(matches!(&instrs[1], Instruction::Ret { value: Some(Operand::Local(10)), .. }));
    let (_, instrs, _) = lower_stmt(&mut g, &Stmt::Return(None, sp()));
    assert!(matches!(&instrs[0], Instruction::Ret { value: None, .. }));
    let (r, instrs, _) = lower_stmt(&mut g, &Stmt::Use);
    assert!(r.is_ok());
    assert!(instrs.is_empty());
}

#[test]
fn reading_a_variable_after_binding_loads_its_local() {
    let mut g = generator();
    let s = Stmt::Assign { target: var("q"), value: Some(var("x")), span: sp() };
    let (r, _, _) = lower_stmt(&mut g, &s);
    assert!(r.is_ok());
    let (_, instrs, _) = lower(&mut g, &var("q"));
    assert!(matches!(&instrs[0], Instruction::Load { dst: Operand::Local(1), src: Operand::Local(10), .. }));
    // Lowering more code keeps the binding.
    let (_, _, _) = lower(&mut g, &bin(BinOp::Assign, var("p"), lit(Literal::Int(3))));
    assert_eq!(g.lookup_local("q"), Some(10));
    assert_eq!(g.lookup_local("x"), Some(0));
}

#[test]
fn function_loads_parameters_then_body_then_returns() {
    let mut g = generator();
    let params = vec!["a".to_string(), "b".to_string()];
    let body = vec![
        Stmt::Assign { target: var("s"), value: Some(bin(BinOp::Add, var("a"), var("b"))), span: sp() },
        Stmt::Return(Some(var("s")), sp()),
    ];
    let mut consts = Vec::new();
    let f = g
        .generate_function_ir("add", &params, vec![MonoType::Int(64), MonoType::Int(64)], MonoType::Int(64), &body, &mut consts, None)
        .unwrap();
    assert_eq!(f.name, "add");
    assert_eq!(f.params.len(), 2);
    match &f.body {
        FunctionBody::Code { blocks, entry, locals } => {
            assert_eq!(*entry, 0);
            assert_eq!(blocks.len(), 1);
            let ins = &blocks[0].instructions;
            assert_eq!(ins.len(), 8);
            assert!(matches!(&ins[0], Instruction::Load { dst: Operand::Local(0), src: Operand::Arg(0), .. }));
            assert!(matches!(&ins[1], Instruction::Load { dst: Operand::Local(1), src: Operand::Arg(1), .. }));
            // s takes local 2; a + b goes through temporaries 3 and 4 into it.
            assert!(matches!(&ins[2], Instruction::Load { dst: Operand::Local(3), src: Operand::Local(0), .. }));
            assert!(matches!(&ins[3], Instruction::Load { dst: Operand::Local(4), src: Operand::Local(1), .. }));
            assert!(matches!(&ins[4], Instruction::Add { dst: Operand::Local(2), lhs: Operand::Local(3), rhs: Operand::Local(4), .. }));
            assert!(matches!(&ins[5], Instruction::Load { dst: Operand::Local(5), src: Operand::Local(2), .. }));
            assert!(matches!(&ins[6], Instruction::Ret { value: Some(Operand::Local(5)), .. }));
            assert!(matches!(&ins[7], Instruction::Ret { value: None, .. }));
            assert_eq!(locals.len(), 6);
        }
        other => panic!("expected code, got {other:?}"),
    }
    // The function's scope is left: its names are gone, the outer one stays.
    assert_eq!(g.lookup_local("a"), None);
    assert_eq!(g.lookup_local("x"), Some(0));
}

#[test]
fn function_with_unresolved_name_fails() {
    let mut g = generator();
    let body = vec![Stmt::Expr(var("nowhere"))];
    let mut consts = Vec::new();
    let r = g.generate_function_ir("f", &vec![], vec![], MonoType::Void, &body, &mut consts, None);
    assert!(matches!(r, Err(IrGenError::UnresolvedVariable(_))));
}

#[test]
fn conditional_with_else_if_and_else() {
    let mut g = generator();
    let s = Stmt::If {
        condition: var("x"),
        then_branch: vec![Stmt::Assign { target: var("y"), value: Some(lit(Literal::Int(1))), span: sp() }],
        else_if_branches: vec![(var("x"), vec![Stmt::Return(None, sp())])],
        else_branch: Some(vec![Stmt::Use]),
        span: sp(),
    };
    let (r, ins, consts) = lower_stmt(&mut g, &s);
    assert!(r.is_ok());
    assert_eq!(consts, vec![ConstValue::Int(1)]);
    assert_eq!(ins.len(), 8);
    assert!(matches!(&ins[0], Instruction::Load { dst: Operand::Local(10), src: Operand::Local(0), .. }));
    assert!(matches!(&ins[1], Instruction::JmpIfNot { cond: Operand::Local(10), target: 4, .. }));
    assert!(matches!(&ins[2], Instruction::Load { dst: Operand::Local(11), src: Operand::Const(ConstValue::Int(1)), .. }));
    assert!(matches!(&ins[3], Instruction::Jmp { target: 8, .. }));
    assert!(matches!(&ins[4], Instruction::Load { dst: Operand::Local(12), src: Operand::Local(0), .. }));
    assert!(matches!(&ins[5], Instruction::JmpIfNot { cond: Operand::Local(12), target: 8, .. }));
    assert!(matches!(&ins[6], Instruction::Ret { value: None, .. }));
    assert!(matches!(&ins[7], Instruction::Jmp { target: 8, .. }));
    assert_eq!(g.next_temp, 13);
    // Names bound inside the branches do not outlive them.
    assert_eq!(g.lookup_local("y"), None);
    assert_eq!(g.lookup_local("x"), Some(0));
}

#[test]
fn conditional_without_other_branches_has_no_end_jump() {
    let mut g = generator();
    let s = Stmt::If {
        condition: var("x"),
        then_branch: vec![Stmt::Expr(var("x"))],
        else_if_branches: vec![],
        else_branch: None,
        span: sp(),
    };
    let (r, ins, _) = lower_stmt(&mut g, &s);
    assert!(r.is_ok());
    assert_eq!(ins.len(), 3);
    assert!(matches!(&ins[1], Instruction::JmpIfNot { cond: Operand::Local(10), target: 3, .. }));
    assert!(matches!(&ins[2], Instruction::Load { dst: Operand::Local(11), src: Operand::Local(0), .. }));
}

#[test]
fn conditional_with_unresolved_branch_condition_fails() {
    let mut g = generator();
    let s = Stmt::If {
        condition: var("x"),
        then_branch: vec![],
        else_if_branches: vec![(var("nowhere"), vec![])],
        else_branch: None,
        span: sp(),
    };
    let (r, _, _) = lower_stmt(&mut g, &s);
    assert!(matches!(r, Err(IrGenError::UnresolvedVariable(_))));
}
