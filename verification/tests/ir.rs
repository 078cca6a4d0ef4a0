use yaoxiang::frontend::ast::{BinOp, Expr, Literal, UnOp};
use yaoxiang::frontend::typecheck::{EnumType, MonoType, StructType};
use yaoxiang::middle::codegen::switch::{get_min_max, try_build_jump_table};
use yaoxiang::middle::codegen::{
    CodegenConfig, CodegenContext, CodegenError, BYTECODE_VERSION, YAOXIANG_MAGIC,
};
use yaoxiang::middle::core_ir::ir::{
    BasicBlock, ConstValue, FunctionBody, FunctionIR, Instruction, LocalSlot, ModuleIR, Operand, Type,
};
use yaoxiang::middle::core_ir::ir_gen::{
    eval_const_expr, get_or_create_lib_id, get_type_fallback_string, mono_type_to_struct_name, strip_ref_prefix,
    type_implements_stringable,
};
use yaoxiang::middle::escape_analysis::EscapeAnalyzer;
use yaoxiang::util::span::Span;

fn sp(n: usize) -> Span {
    Span::new(0, n, n + 1)
}

fn code_fn(blocks: Vec<BasicBlock>) -> FunctionIR {
    FunctionIR {
        name: "f".to_string(),
        def: None,
        params: vec![],
        return_type: MonoType::Void,
        body: FunctionBody::Code { blocks, entry: 0, locals: vec![LocalSlot::temp(MonoType::Bool)] },
        generic_params: None,
    }
}

#[test]
fn escapes_are_returns_and_call_arguments() {
    let b0 = BasicBlock {
        label: 0,
        instructions: vec![
            Instruction::Move { dst: Operand::Local(0), src: Operand::Local(1), span: sp(0) },
            Instruction::Call {
                dst: Some(Operand::Temp(0)),
                func: Operand::Global(0),
                args: vec![Operand::Local(2), Operand::Const(ConstValue::Int(1)), Operand::Local(3)],
                def: None,
                span: sp(1),
            },
        ],
        successors: vec![1],
    };
    let b1 = BasicBlock {
        label: 1,
        instructions: vec![Instruction::Ret { value: Some(Operand::Local(4)), span: sp(2) }],
        successors: vec![],
    };
    let f = code_fn(vec![b0, b1]);
    assert_eq!(f.all_instructions().len(), 3);
    let mut analyzer = EscapeAnalyzer::new();
    let r = analyzer.analyze(&f);
    assert!(r.escapes(2));
    assert!(r.escapes(3));
    assert!(r.escapes(4));
    assert!(!r.escapes(0));
    assert!(!r.escapes(1));
    assert_eq!(r.escapes.len(), 3);
}

#[test]
fn type_declarations_have_no_code() {
    let f = FunctionIR {
        name: "T".to_string(),
        def: None,
        params: vec![],
        return_type: MonoType::Void,
        body: FunctionBody::TypeDecl { definition: Type::Bool },
        generic_params: Some(vec!["A".to_string()]),
    };
    assert!(f.is_type_decl());
    assert!(f.all_instructions().is_empty());
    assert!(f.blocks().is_empty());
    assert!(f.locals().is_empty());
    assert_eq!(f.entry(), 0);
    let mut analyzer = EscapeAnalyzer::default();
    assert_eq!(analyzer.analyze(&f).escapes.len(), 0);
}

#[test]
fn code_bodies_expose_blocks_and_spans() {
    let mut f = code_fn(vec![BasicBlock {
        label: 3,
        instructions: vec![Instruction::Yield { span: sp(9) }],
        successors: vec![],
    }]);
    assert!(!f.is_type_decl());
    assert_eq!(f.blocks().len(), 1);
    assert_eq!(f.locals().len(), 1);
    assert!(f.locals()[0].name.is_none());
    assert_eq!(f.blocks()[0].instructions[0].span(), sp(9));
    f.blocks_mut().push(BasicBlock { label: 4, instructions: vec![], successors: vec![] });
    assert_eq!(f.blocks().len(), 2);
}

#[test]
fn min_max_of_values() {
    assert_eq!(get_min_max(&[]), None);
    assert_eq!(get_min_max(&[4]), Some((4, 4)));
    assert_eq!(get_min_max(&[3, -7, 12, 0]), Some((-7, 12)));
}

#[test]
fn dense_integer_cases_get_a_jump_table() {
    let table = try_build_jump_table(&[Some(1), Some(2), Some(3)]).unwrap();
    assert_eq!(table, vec![(1, 0), (2, 1), (3, 2)]);
    // spread 6 equals twice the count 3: still dense
    assert!(try_build_jump_table(&[Some(0), Some(6), Some(3)]).is_some());
    // spread 7 exceeds twice the count
    assert!(try_build_jump_table(&[Some(0), Some(7), Some(3)]).is_none());
    // a non-literal case
    assert!(try_build_jump_table(&[Some(0), None]).is_none());
    // no cases: an empty table
    assert_eq!(try_build_jump_table(&[]), Some(vec![]));
    // keys are the values truncated to 32 bits
    assert_eq!(try_build_jump_table(&[Some(0x1_0000_0005)]), Some(vec![(5, 0)]));
}

#[test]
fn stringable_types() {
    let with = MonoType::Struct(StructType { name: "P".to_string(), methods: vec!["len".to_string(), "to_string".to_string()] });
    let without = MonoType::Struct(StructType { name: "Q".to_string(), methods: vec!["len".to_string()] });
    assert!(type_implements_stringable(&with));
    assert!(!type_implements_stringable(&without));
    assert!(type_implements_stringable(&MonoType::Int(64)));
    assert!(type_implements_stringable(&MonoType::String));
    assert!(!type_implements_stringable(&MonoType::Void));
    assert!(!type_implements_stringable(&MonoType::Bytes));
}

#[test]
fn fallback_strings_name_the_type() {
    assert_eq!(get_type_fallback_string(&MonoType::Void), "void");
    assert_eq!(get_type_fallback_string(&MonoType::Float(32)), "float");
    assert_eq!(get_type_fallback_string(&MonoType::Enum(EnumType { name: "Color".to_string() })), "Color");
    assert_eq!(get_type_fallback_string(&MonoType::SetOf(Box::new(MonoType::Bool))), "set");
    assert_eq!(get_type_fallback_string(&MonoType::TypeRef("Alias".to_string())), "Alias");
    assert_eq!(get_type_fallback_string(&MonoType::TypeVar(1)), "unknown");
}

#[test]
fn lowering_keeps_structure() {
    let f = MonoType::Fn { params: vec![MonoType::Int(32), MonoType::make_string()], return_type: Box::new(MonoType::Bool) };
    match Type::from_mono(f) {
        Type::Fn { params, return_type } => {
            assert_eq!(params.len(), 2);
            assert!(matches!(params[0], Type::Int(32)));
            assert!(matches!(params[1], Type::String));
            assert!(matches!(*return_type, Type::Bool));
        }
        other => panic!("expected Fn, got {other:?}"),
    }
    let tuple = MonoType::Generic { name: "Tuple".to_string(), args: vec![MonoType::Char] };
    assert!(matches!(Type::from_mono(tuple), Type::Tuple(items) if items.len() == 1));
    assert!(matches!(Type::from_mono(MonoType::String), Type::Void));
}

#[test]
fn codegen_error_messages() {
    assert_eq!(CodegenError::OutOfRegisters.to_string(), "寄存器不足");
    assert_eq!(CodegenError::SymbolNotFound { name: "x".to_string() }.to_string(), "符号未找到: x");
    assert_eq!(
        CodegenError::TypeMismatch { expected: "int".to_string(), found: "bool".to_string() }.to_string(),
        "类型不匹配: 期望 int, 实际 bool"
    );
}

fn named_fn(name: &str) -> FunctionIR {
    FunctionIR {
        name: name.to_string(),
        def: None,
        params: vec![],
        return_type: MonoType::Void,
        body: FunctionBody::Code { blocks: vec![], entry: 0, locals: vec![] },
        generic_params: None,
    }
}

#[test]
fn entry_point_is_first_main() {
    let mut module = ModuleIR::default();
    module.functions = vec![named_fn("helper"), named_fn("main"), named_fn("main")];
    let ctx = CodegenContext::new(module);
    assert_eq!(ctx.find_entry_point(), 1);
    let mut one = ModuleIR::default();
    one.functions = vec![named_fn("a")];
    assert_eq!(CodegenContext::new(one).find_entry_point(), 0);
    assert_eq!(CodegenContext::default().find_entry_point(), 0);
    let config = CodegenConfig::default();
    assert!(config.enable_optimizations && config.enable_inline_cache && !config.generate_debug_info);
    assert_eq!(ctx.compute_flags(), 0);
    let mut debug_ctx = ctx;
    debug_ctx.config = CodegenConfig { generate_debug_info: true, ..config };
    assert_eq!(debug_ctx.compute_flags(), 2);
    let h = debug_ctx.generate_header();
    assert_eq!(h.magic, YAOXIANG_MAGIC);
    assert_eq!(h.magic, 0x59584243);
    assert_eq!(h.version, BYTECODE_VERSION);
    assert_eq!(h.flags, 2);
    assert_eq!(h.entry_point, 1);
    assert_eq!(h.section_count, 4);
    assert_eq!(h.file_size, 0);
    assert_eq!(h.checksum, 0);
}

#[test]
fn later_functions_win_the_index() {
    let mut module = ModuleIR::default();
    module.functions = vec![named_fn("f"), named_fn("g"), named_fn("f")];
    let ctx = CodegenContext::new(module);
    assert_eq!(ctx.flow.get_function_index("f"), Some(&2));
    assert_eq!(ctx.flow.get_function_index("g"), Some(&1));
    assert_eq!(ctx.flow.function_indices().len(), 2);
}

#[test]
fn reference_markers_are_stripped() {
    assert_eq!(strip_ref_prefix("  &mut Point "), "Point");
    assert_eq!(strip_ref_prefix("&  Point"), "Point");
    assert_eq!(strip_ref_prefix("\tPoint\n"), "Point");
    assert_eq!(strip_ref_prefix("&mut  Point"), " Point");
    assert_eq!(strip_ref_prefix("&mutPoint"), "mutPoint");
    assert_eq!(strip_ref_prefix(""), "");
}

#[test]
fn struct_names_through_references() {
    let point = MonoType::Struct(StructType { name: "Point".to_string(), methods: vec![] });
    let r = MonoType::Ref { mutable: true, inner: Box::new(MonoType::Ref { mutable: false, inner: Box::new(point) }) };
    assert_eq!(mono_type_to_struct_name(&r), Some("Point".to_string()));
    assert_eq!(mono_type_to_struct_name(&MonoType::TypeRef("Q".to_string())), Some("Q".to_string()));
    assert_eq!(mono_type_to_struct_name(&MonoType::Int(8)), None);
}

#[test]
fn library_ids_are_reused() {
    let mut libs = Vec::new();
    let mut next = 0usize;
    assert_eq!(get_or_create_lib_id(&mut libs, &mut next, "c", "libm"), 0);
    assert_eq!(get_or_create_lib_id(&mut libs, &mut next, "rs", "libm"), 1);
    assert_eq!(get_or_create_lib_id(&mut libs, &mut next, "c", "libm"), 0);
    assert_eq!(next, 2);
    assert_eq!(libs.len(), 2);
    assert_eq!(libs[1].mechanism, "rs");
    assert_eq!(libs[1].lib_name, "libm");
}

#[test]
fn closure_captures_escape() {
    let b = BasicBlock {
        label: 0,
        instructions: vec![Instruction::MakeClosure {
            dst: Operand::Temp(0),
            func: "lambda".to_string(),
            def: None,
            env: vec![Operand::Local(6), Operand::Arg(1)],
            span: sp(0),
        }],
        successors: vec![],
    };
    let f = code_fn(vec![b]);
    let r = EscapeAnalyzer::new().analyze(&f);
    assert!(r.escapes(6));
    assert!(!r.escapes(1));
    assert_eq!(r.escapes.len(), 1);
}

fn lit(l: Literal) -> Expr {
    Expr::Lit(l, sp(0))
}

fn bin(op: BinOp, l: Expr, r: Expr) -> Expr {
    Expr::BinOp { op, left: Box::new(l), right: Box::new(r), span: sp(0) }
}

#[test]
fn constant_folding() {
    let e = bin(BinOp::Add, lit(Literal::Int(2)), bin(BinOp::Mul, lit(Literal::Int(3)), lit(Literal::Int(4))));
    assert_eq!(eval_const_expr(&e), Some(ConstValue::Int(14)));
    let wrap = bin(BinOp::Add, lit(Literal::Int(i128::MAX)), lit(Literal::Int(1)));
    assert_eq!(eval_const_expr(&wrap), Some(ConstValue::Int(i128::MIN)));
    assert_eq!(eval_const_expr(&bin(BinOp::Mod, lit(Literal::Int(-7)), lit(Literal::Int(3)))), Some(ConstValue::Int(-1)));
    assert_eq!(eval_const_expr(&bin(BinOp::Mod, lit(Literal::Int(7)), lit(Literal::Int(0)))), None);
    assert_eq!(eval_const_expr(&bin(BinOp::Div, lit(Literal::Int(8)), lit(Literal::Int(2)))), None);
    assert_eq!(eval_const_expr(&bin(BinOp::Shl, lit(Literal::Int(1)), lit(Literal::Int(4)))), Some(ConstValue::Int(16)));
    assert_eq!(eval_const_expr(&bin(BinOp::Shl, lit(Literal::Int(1)), lit(Literal::Int(64)))), None);
    assert_eq!(eval_const_expr(&bin(BinOp::Lt, lit(Literal::Int(1)), lit(Literal::Int(2)))), Some(ConstValue::Bool(true)));
    assert_eq!(eval_const_expr(&bin(BinOp::And, lit(Literal::Int(1)), lit(Literal::Int(0)))), Some(ConstValue::Bool(false)));
    let s = bin(BinOp::Add, lit(Literal::String("ab".to_string())), lit(Literal::String("cd".to_string())));
    assert_eq!(eval_const_expr(&s), Some(ConstValue::String("abcd".to_string())));
    assert_eq!(eval_const_expr(&bin(BinOp::Or, lit(Literal::Bool(false)), lit(Literal::Bool(true)))), Some(ConstValue::Bool(true)));
    let neg = Expr::UnOp { op: UnOp::Neg, expr: Box::new(lit(Literal::Int(5))), span: sp(0) };
    assert_eq!(eval_const_expr(&neg), Some(ConstValue::Int(-5)));
    let not = Expr::UnOp { op: UnOp::Not, expr: Box::new(lit(Literal::Bool(true))), span: sp(0) };
    assert_eq!(eval_const_expr(&not), Some(ConstValue::Bool(false)));
    assert_eq!(eval_const_expr(&Expr::Var("x".to_string(), sp(0))), None);
    assert_eq!(eval_const_expr(&lit(Literal::Void)), None);
    assert_eq!(eval_const_expr(&bin(BinOp::Add, lit(Literal::Int(1)), Expr::Var("x".to_string(), sp(0)))), None);
}
