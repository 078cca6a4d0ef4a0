//! Lowering of expressions into IR instructions.
//!
//! The generator holds what lowering reads of the resolver's answers: the
//! closure captures, the local scopes, the global names and the imported
//! aliases, each by name.
use vstd::prelude::*;
use crate::frontend::ast::{BinOp, Expr, FStringSegment, Literal, Stmt, UnOp};
use crate::frontend::typecheck::MonoType;
use crate::middle::core_ir::ir::{
    BasicBlock, ConstValue, FunctionBody, FunctionIR, Instruction, LocalSlot, Operand,
};
use crate::middle::core_ir::ir_gen::{
    ConstShape, eval_const_expr, fold_ints, foldable, folded, lemma_segment_expr_smaller, shape_of,
};
use crate::util::decimal::{decimal, push_decimal};
use crate::util::span::Span;
use crate::util::str_map::StrMap;

verus! {

/// Where a loaded value comes from.
pub enum Source {
    Const(ConstShape),
    Local(int),
    Arg(int),
}

/// An instruction as expression lowering emits it, with locals by number
/// and constants by their shape.
pub enum Step {
    Load { dst: int, src: Source, span: Span },
    LoadUpvalue { dst: int, index: int, span: Span },
    CallByName { dst: int, name: Seq<char>, args: Seq<Operand>, span: Span },
    Store { dst: int, src: int, span: Span },
    Binary { op: BinOp, dst: int, lhs: int, rhs: int, span: Span },
    Unary { op: UnOp, dst: int, src: int, span: Span },
    JumpIf { cond: int, target: int, span: Span },
    JumpIfNot { cond: int, target: int, span: Span },
    Jump { target: int, span: Span },
    Return { value: Option<int>, span: Span },
    Other,
}

/// The binary step of `op` over locals.
pub open spec fn binary_step(op: BinOp, d: usize, l: usize, r: usize, span: Span) -> Step {
    Step::Binary { op, dst: d as int, lhs: l as int, rhs: r as int, span }
}

/// The step an instruction stands for; `Other` for every instruction that
/// expression lowering does not emit.
pub open spec fn step_of(i: Instruction) -> Step {
    match i {
        Instruction::Load { dst: Operand::Local(d), src, span } => match src {
            Operand::Const(c) => Step::Load { dst: d as int, src: Source::Const(shape_of(c)), span },
            Operand::Local(s) => Step::Load { dst: d as int, src: Source::Local(s as int), span },
            Operand::Arg(a) => Step::Load { dst: d as int, src: Source::Arg(a as int), span },
            _ => Step::Other,
        },
        Instruction::LoadUpvalue { dst: Operand::Local(d), upvalue_idx, span } => Step::LoadUpvalue {
            dst: d as int,
            index: upvalue_idx as int,
            span,
        },
        Instruction::Call {
            dst: Some(Operand::Local(d)),
            func: Operand::Const(ConstValue::String(f)),
            args,
            def: None,
            span,
        } => Step::CallByName { dst: d as int, name: f@, args: args@, span },
        Instruction::Store { dst: Operand::Local(d), src: Operand::Local(s), span } => Step::Store {
            dst: d as int,
            src: s as int,
            span,
        },
        Instruction::Add { dst: Operand::Local(d), lhs: Operand::Local(l), rhs: Operand::Local(r), span } =>
            binary_step(BinOp::Add, d, l, r, span),
        Instruction::Sub { dst: Operand::Local(d), lhs: Operand::Local(l), rhs: Operand::Local(r), span } =>
            binary_step(BinOp::Sub, d, l, r, span),
        Instruction::Mul { dst: Operand::Local(d), lhs: Operand::Local(l), rhs: Operand::Local(r), span } =>
            binary_step(BinOp::Mul, d, l, r, span),
        Instruction::Div { dst: Operand::Local(d), lhs: Operand::Local(l), rhs: Operand::Local(r), span } =>
            binary_step(BinOp::Div, d, l, r, span),
        Instruction::Mod { dst: Operand::Local(d), lhs: Operand::Local(l), rhs: Operand::Local(r), span } =>
            binary_step(BinOp::Mod, d, l, r, span),
        Instruction::And { dst: Operand::Local(d), lhs: Operand::Local(l), rhs: Operand::Local(r), span } =>
            binary_step(BinOp::BitAnd, d, l, r, span),
        Instruction::Or { dst: Operand::Local(d), lhs: Operand::Local(l), rhs: Operand::Local(r), span } =>
            binary_step(BinOp::BitOr, d, l, r, span),
        Instruction::Xor { dst: Operand::Local(d), lhs: Operand::Local(l), rhs: Operand::Local(r), span } =>
            binary_step(BinOp::BitXor, d, l, r, span),
        Instruction::Shl { dst: Operand::Local(d), lhs: Operand::Local(l), rhs: Operand::Local(r), span } =>
            binary_step(BinOp::Shl, d, l, r, span),
        Instruction::Shr { dst: Operand::Local(d), lhs: Operand::Local(l), rhs: Operand::Local(r), span } =>
            binary_step(BinOp::Shr, d, l, r, span),
        Instruction::Eq { dst: Operand::Local(d), lhs: Operand::Local(l), rhs: Operand::Local(r), span } =>
            binary_step(BinOp::Eq, d, l, r, span),
        Instruction::Ne { dst: Operand::Local(d), lhs: Operand::Local(l), rhs: Operand::Local(r), span } =>
            binary_step(BinOp::Neq, d, l, r, span),
        Instruction::Lt { dst: Operand::Local(d), lhs: Operand::Local(l), rhs: Operand::Local(r), span } =>
            binary_step(BinOp::Lt, d, l, r, span),
        Instruction::Le { dst: Operand::Local(d), lhs: Operand::Local(l), rhs: Operand::Local(r), span } =>
            binary_step(BinOp::Le, d, l, r, span),
        Instruction::Gt { dst: Operand::Local(d), lhs: Operand::Local(l), rhs: Operand::Local(r), span } =>
            binary_step(BinOp::Gt, d, l, r, span),
        Instruction::Ge { dst: Operand::Local(d), lhs: Operand::Local(l), rhs: Operand::Local(r), span } =>
            binary_step(BinOp::Ge, d, l, r, span),
        Instruction::Neg { dst: Operand::Local(d), src: Operand::Local(s), span } => Step::Unary {
            op: UnOp::Neg,
            dst: d as int,
            src: s as int,
            span,
        },
        Instruction::Not { dst: Operand::Local(d), src: Operand::Local(s), span } => Step::Unary {
            op: UnOp::Not,
            dst: d as int,
            src: s as int,
            span,
        },
        Instruction::JmpIf { cond: Operand::Local(c), target, span } => Step::JumpIf {
            cond: c as int,
            target: target as int,
            span,
        },
        Instruction::JmpIfNot { cond: Operand::Local(c), target, span } => Step::JumpIfNot {
            cond: c as int,
            target: target as int,
            span,
        },
        Instruction::Jmp { target, span } => Step::Jump { target: target as int, span },
        Instruction::Ret { value: Some(Operand::Local(v)), span } => Step::Return {
            value: Some(v as int),
            span,
        },
        Instruction::Ret { value: None, span } => Step::Return { value: None, span },
        _ => Step::Other,
    }
}

/// `after` is `before` followed by instructions standing for `steps`.
pub open spec fn emitted(before: Seq<Instruction>, after: Seq<Instruction>, steps: Seq<Step>) -> bool {
    &&& after.len() == before.len() + steps.len()
    &&& forall|k: int| 0 <= k < before.len() ==> #[trigger] after[k] == before[k]
    &&& forall|k: int|
        before.len() <= k < after.len() ==> step_of(#[trigger] after[k]) == steps[k - before.len()]
}

/// `after` is `before` followed by constants of the given shapes.
pub open spec fn consts_emitted(
    before: Seq<ConstValue>,
    after: Seq<ConstValue>,
    shapes: Seq<ConstShape>,
) -> bool {
    &&& after.len() == before.len() + shapes.len()
    &&& forall|k: int| 0 <= k < before.len() ==> #[trigger] after[k] == before[k]
    &&& forall|k: int|
        before.len() <= k < after.len() ==> shape_of(#[trigger] after[k]) == shapes[k - before.len()]
}

/// What expression lowering knows of the generator: the next free
/// temporary, the local scopes (innermost last), the closure captures, the
/// global names and the imported aliases.
#[verifier::ext_equal]
pub struct LowerEnv {
    pub next_temp: int,
    pub scopes: Seq<Map<Seq<char>, usize>>,
    pub captures: Map<Seq<char>, usize>,
    pub globals: Seq<Seq<char>>,
    pub aliases: Map<Seq<char>, Seq<char>>,
}

/// The local of `name` among the first `n` scopes, innermost first.
pub open spec fn lookup_scopes(scopes: Seq<Map<Seq<char>, usize>>, name: Seq<char>, n: int) -> Option<
    usize,
>
    decreases n,
{
    if n <= 0 {
        None
    } else if scopes[n - 1].contains_key(name) {
        Some(scopes[n - 1][name])
    } else {
        lookup_scopes(scopes, name, n - 1)
    }
}

/// The local that `name` is bound to, innermost scope first.
pub open spec fn local_of_name(env: LowerEnv, name: Seq<char>) -> Option<usize> {
    lookup_scopes(env.scopes, name, env.scopes.len() as int)
}

/// `name` is a global.
pub open spec fn is_global(env: LowerEnv, name: Seq<char>) -> bool {
    exists|i: int| 0 <= i < env.globals.len() && env.globals[i] == name
}

/// The names of the built-in types, which stand for themselves as values.
pub open spec fn builtin_type_name(n: Seq<char>) -> bool {
    ||| n == "Int"@
    ||| n == "Float"@
    ||| n == "Bool"@
    ||| n == "String"@
    ||| n == "Char"@
    ||| n == "Bytes"@
    ||| n == "Type"@
    ||| n == "Void"@
    ||| n == "Never"@
}

/// The environment with one more temporary taken.
pub open spec fn bump(env: LowerEnv) -> LowerEnv {
    LowerEnv {
        next_temp: env.next_temp + 1,
        scopes: env.scopes,
        captures: env.captures,
        globals: env.globals,
        aliases: env.aliases,
    }
}

/// The environment with `name` bound to `idx` in the innermost scope; as it
/// is where there is no scope.
pub open spec fn with_local(env: LowerEnv, name: Seq<char>, idx: usize) -> LowerEnv {
    if env.scopes.len() > 0 {
        LowerEnv {
            next_temp: env.next_temp,
            scopes: env.scopes.update(env.scopes.len() - 1, env.scopes.last().insert(name, idx)),
            captures: env.captures,
            globals: env.globals,
            aliases: env.aliases,
        }
    } else {
        env
    }
}

/// The result of lowering: the steps emitted, the constants added to the
/// pool, and the environment after.
pub struct Lowered {
    pub steps: Seq<Step>,
    pub consts: Seq<ConstShape>,
    pub env: LowerEnv,
}

/// Why lowering fails.
pub enum LowerFailure {
    Unresolved(Seq<char>),
    Operator(BinOp),
    Target,
    TooManyLocals(int),
}

/// The constant a literal stands for.
pub open spec fn lit_shape(l: Literal) -> ConstShape {
    match l {
        Literal::Int(n) => ConstShape::Int(n),
        Literal::Float(f) => ConstShape::Float(f),
        Literal::Bool(b) => ConstShape::Bool(b),
        Literal::String(s) => ConstShape::Str(s@),
        Literal::Char(c) => ConstShape::Char(c),
        Literal::Void => ConstShape::Void,
    }
}

/// One step, no constant, environment unchanged.
pub open spec fn single(env: LowerEnv, s: Step) -> Result<Lowered, LowerFailure> {
    Ok(Lowered { steps: seq![s], consts: seq![], env })
}

/// Reading a variable into `dst`: a captured variable from its upvalue, a
/// local from its slot, a global or an imported alias by a call of its
/// name, a built-in type name as void; any other name is unresolved.
pub open spec fn lower_var(env: LowerEnv, name: Seq<char>, dst: int, span: Span) -> Result<
    Lowered,
    LowerFailure,
> {
    if env.captures.contains_key(name) {
        single(env, Step::LoadUpvalue { dst, index: env.captures[name] as int, span })
    } else if local_of_name(env, name) is Some {
        single(env, Step::Load { dst, src: Source::Local(local_of_name(env, name).unwrap() as int), span })
    } else if is_global(env, name) {
        single(env, Step::CallByName { dst, name, args: seq![], span })
    } else if env.aliases.contains_key(name) {
        single(env, Step::CallByName { dst, name: env.aliases[name], args: seq![], span })
    } else if builtin_type_name(name) {
        single(env, Step::Load { dst, src: Source::Const(ConstShape::Void), span })
    } else {
        Err(LowerFailure::Unresolved(name))
    }
}

/// Lowering `e` into local `dst`, with `base` instructions already emitted
/// (jump targets are absolute).
///
/// A literal is added to the pool and loaded. An assignment to a variable
/// evaluates the right side into a fresh temporary, stores it into the
/// variable's local (a fresh one, bound in the innermost scope, where the
/// name has none) and loads the local into `dst`; an assignment to anything
/// else emits nothing. `and` and `or` evaluate the left side into a fresh
/// temporary and jump past the right side to a load of `false` (`and`) or
/// `true` (`or`) when it decides the result. Other binary operators evaluate
/// both sides into two fresh temporaries, then apply the operator; a range
/// outside its own contexts fails. Unary operators evaluate their operand
/// into a fresh temporary.
pub open spec fn lower_expr(env: LowerEnv, e: Expr, dst: int, base: int) -> Result<Lowered, LowerFailure>
    decreases e, 1int, 0int,
{
    match e {
        Expr::Lit(lit, span) => Ok(
            Lowered {
                steps: seq![Step::Load { dst, src: Source::Const(lit_shape(lit)), span }],
                consts: seq![lit_shape(lit)],
                env,
            },
        ),
        Expr::Var(name, span) => lower_var(env, name@, dst, span),
        Expr::BinOp { op, left, right, span } => if op == BinOp::Assign {
            match *left {
                Expr::Var(name, _) => {
                    let local: int = match local_of_name(env, name@) {
                        Some(l) => l as int,
                        None => env.next_temp,
                    };
                    let env1 = match local_of_name(env, name@) {
                        Some(_) => env,
                        None => with_local(bump(env), name@, env.next_temp as usize),
                    };
                    let val = env1.next_temp;
                    match lower_expr(bump(env1), *right, val, base) {
                        Ok(r) => Ok(
                            Lowered {
                                steps: r.steps + seq![
                                    Step::Store { dst: local, src: val, span },
                                    Step::Load { dst, src: Source::Local(local), span },
                                ],
                                consts: r.consts,
                                env: r.env,
                            },
                        ),
                        Err(f) => Err(f),
                    }
                },
                _ => Ok(Lowered { steps: seq![], consts: seq![], env }),
            }
        } else if op == BinOp::And || op == BinOp::Or {
            let lhs = env.next_temp;
            match lower_expr(bump(env), *left, lhs, base) {
                Err(f) => Err(f),
                Ok(l) => {
                    let short = base + l.steps.len();
                    match lower_expr(l.env, *right, dst, short + 1) {
                        Err(f) => Err(f),
                        Ok(r) => {
                            let sc = short + 1 + r.steps.len() + 1;
                            let jump = if op == BinOp::And {
                                Step::JumpIfNot { cond: lhs, target: sc, span }
                            } else {
                                Step::JumpIf { cond: lhs, target: sc, span }
                            };
                            Ok(
                                Lowered {
                                    steps: l.steps + seq![jump] + r.steps + seq![
                                        Step::Jump { target: sc + 1, span },
                                        Step::Load {
                                            dst,
                                            src: Source::Const(ConstShape::Bool(op == BinOp::Or)),
                                            span,
                                        },
                                    ],
                                    consts: l.consts + r.consts,
                                    env: r.env,
                                },
                            )
                        },
                    }
                },
            }
        } else {
            let lr = env.next_temp;
            let rr = env.next_temp + 1;
            match lower_expr(bump(bump(env)), *left, lr, base) {
                Err(f) => Err(f),
                Ok(l) => match lower_expr(l.env, *right, rr, base + l.steps.len()) {
                    Err(f) => Err(f),
                    Ok(r) => if op == BinOp::Range {
                        Err(LowerFailure::Operator(op))
                    } else {
                        Ok(
                            Lowered {
                                steps: l.steps + r.steps + seq![
                                    Step::Binary { op, dst, lhs: lr, rhs: rr, span },
                                ],
                                consts: l.consts + r.consts,
                                env: r.env,
                            },
                        )
                    },
                },
            }
        },
        Expr::UnOp { op, expr, span } => {
            let s = env.next_temp;
            match lower_expr(bump(env), *expr, s, base) {
                Err(f) => Err(f),
                Ok(i) => Ok(
                    Lowered {
                        steps: i.steps.push(Step::Unary { op, dst, src: s, span }),
                        consts: i.consts,
                        env: i.env,
                    },
                ),
            }
        },
        Expr::FString { segments, span } => match folded(e) {
            Some(c) => Ok(
                Lowered {
                    steps: seq![Step::Load { dst, src: Source::Const(c), span }],
                    consts: seq![c],
                    env,
                },
            ),
            None => match lower_segments(env, e, segments@.len() as int, base) {
                Err(f) => Err(f),
                Ok(p) => {
                    let fmt = p.low.env.next_temp;
                    Ok(
                        Lowered {
                            steps: p.low.steps + seq![
                                Step::Load { dst: fmt, src: Source::Const(ConstShape::Str(p.text)), span },
                                Step::CallByName {
                                    dst,
                                    name: format_fn(),
                                    args: seq![Operand::Local(fmt as usize)] + p.args,
                                    span,
                                },
                            ],
                            consts: p.low.consts.push(ConstShape::Str(p.text)),
                            env: bump(p.low.env),
                        },
                    )
                },
            },
        },
    }
}

/// The runtime function an interpolated string that does not fold calls.
pub open spec fn format_fn() -> Seq<char> {
    "std.string.format"@
}

/// The placeholder of the argument at `index` in a format string, with its
/// format specification if any: `{index}` or `{index:spec}`.
pub open spec fn placeholder(index: nat, format_spec: Option<String>) -> Seq<char> {
    seq!['{'] + decimal(index) + match format_spec {
        Some(f) => seq![':'] + f@,
        None => Seq::empty(),
    } + seq!['}']
}

/// The lowering of a prefix of an interpolated string's segments: what was
/// emitted, the format string so far and the argument locals.
pub struct SegmentsLowered {
    pub low: Lowered,
    pub text: Seq<char>,
    pub args: Seq<Operand>,
}

/// Lowering the first `k` segments of an interpolated string: text goes
/// into the format string as it is; each interpolation puts a placeholder
/// there and is evaluated into a fresh temporary, which becomes the next
/// argument.
pub open spec fn lower_segments(env: LowerEnv, e: Expr, k: int, base: int) -> Result<
    SegmentsLowered,
    LowerFailure,
>
    decreases e, 0int, k,
{
    match e {
        Expr::FString { segments, .. } => if k <= 0 || k > segments@.len() {
            Ok(
                SegmentsLowered {
                    low: Lowered { steps: seq![], consts: seq![], env },
                    text: seq![],
                    args: seq![],
                },
            )
        } else {
            match lower_segments(env, e, k - 1, base) {
                Err(f) => Err(f),
                Ok(p) => match segments@[k - 1] {
                    FStringSegment::Text(t) => Ok(
                        SegmentsLowered { low: p.low, text: p.text + t@, args: p.args },
                    ),
                    FStringSegment::Interpolation { expr, format_spec } => {
                        proof {
                            lemma_segment_expr_smaller(e, k - 1);
                        }
                        let reg = p.low.env.next_temp;
                        match lower_expr(bump(p.low.env), *expr, reg, base + p.low.steps.len()) {
                            Err(f) => Err(f),
                            Ok(x) => Ok(
                                SegmentsLowered {
                                    low: Lowered {
                                        steps: p.low.steps + x.steps,
                                        consts: p.low.consts + x.consts,
                                        env: x.env,
                                    },
                                    text: p.text + placeholder(p.args.len(), format_spec),
                                    args: p.args.push(Operand::Local(reg as usize)),
                                },
                            ),
                        }
                    },
                },
            }
        },
        _ => Ok(
            SegmentsLowered {
                low: Lowered { steps: seq![], consts: seq![], env },
                text: seq![],
                args: seq![],
            },
        ),
    }
}

/// Every interpolated string within `e` folds without float arithmetic or
/// float text (see [`foldable`]).
pub open spec fn fstrings_foldable(e: Expr) -> bool
    decreases e, 1int, 0int,
{
    match e {
        Expr::BinOp { left, right, .. } => fstrings_foldable(*left) && fstrings_foldable(*right),
        Expr::UnOp { expr, .. } => fstrings_foldable(*expr),
        Expr::FString { segments, .. } => foldable(e) && segments_fstrings_foldable(
            e,
            segments@.len() as int,
        ),
        _ => true,
    }
}

/// The interpolations among the first `k` segments satisfy
/// [`fstrings_foldable`].
pub open spec fn segments_fstrings_foldable(e: Expr, k: int) -> bool
    decreases e, 0int, k,
{
    match e {
        Expr::FString { segments, .. } => if k <= 0 || k > segments@.len() {
            true
        } else {
            &&& segments_fstrings_foldable(e, k - 1)
            &&& match segments@[k - 1] {
                FStringSegment::Text(_) => true,
                FStringSegment::Interpolation { expr, .. } => {
                    proof {
                        lemma_segment_expr_smaller(e, k - 1);
                    }
                    fstrings_foldable(*expr)
                },
            }
        },
        _ => true,
    }
}

/// `b` keeps every binding of `a`: the same number of scopes, the same
/// captures, globals and aliases, and each name bound in `a` bound to the
/// same local in `b`.
pub open spec fn keeps_bindings(a: LowerEnv, b: LowerEnv) -> bool {
    &&& b.scopes.len() == a.scopes.len()
    &&& b.captures == a.captures
    &&& b.globals == a.globals
    &&& b.aliases == a.aliases
    &&& forall|n: Seq<char>|
        (#[trigger] local_of_name(a, n)) is Some ==> local_of_name(b, n) == local_of_name(a, n)
}

/// Scopes that agree below `n` agree on lookups among the first `n`.
proof fn lemma_lookup_prefix(s: Seq<Map<Seq<char>, usize>>, t: Seq<Map<Seq<char>, usize>>, name: Seq<char>, n: int)
    requires
        0 <= n <= s.len(),
        n <= t.len(),
        forall|k: int| 0 <= k < n ==> s[k] == t[k],
    ensures
        lookup_scopes(s, name, n) == lookup_scopes(t, name, n),
    decreases n,
{
    if n > 0 {
        lemma_lookup_prefix(s, t, name, n - 1);
    }
}

/// Binding a name that has no local keeps every other binding and makes
/// the name found at the new local, where there is a scope to bind it in.
proof fn lemma_with_local(env: LowerEnv, name: Seq<char>, idx: usize)
    requires
        local_of_name(env, name) is None,
    ensures
        keeps_bindings(env, with_local(env, name, idx)),
        env.scopes.len() > 0 ==> local_of_name(with_local(env, name, idx), name) == Some(idx),
{
    let w = with_local(env, name, idx);
    if env.scopes.len() > 0 {
        let len = env.scopes.len() as int;
        assert forall|n: Seq<char>| (#[trigger] local_of_name(env, n)) is Some implies local_of_name(
            w,
            n,
        ) == local_of_name(env, n) by {
            lemma_lookup_prefix(env.scopes, w.scopes, n, len - 1);
        }
    }
}

/// `keeps_bindings` is transitive.
proof fn lemma_keeps_trans(a: LowerEnv, b: LowerEnv, c: LowerEnv)
    requires
        keeps_bindings(a, b),
        keeps_bindings(b, c),
    ensures
        keeps_bindings(a, c),
{
    assert forall|n: Seq<char>| (#[trigger] local_of_name(a, n)) is Some implies local_of_name(c, n)
        == local_of_name(a, n) by {
        assert(local_of_name(b, n) == local_of_name(a, n));
    }
}

/// Lowering an expression keeps every variable binding: locals are only
/// ever added, never moved or dropped, and captures, globals and aliases
/// stay as they are.
pub proof fn law_lowering_keeps_bindings(env: LowerEnv, e: Expr, dst: int, base: int)
    requires
        lower_expr(env, e, dst, base) is Ok,
    ensures
        keeps_bindings(env, lower_expr(env, e, dst, base)->Ok_0.env),
    decreases e, 1int, 0int,
{
    match e {
        Expr::BinOp { op, left, right, .. } => {
            if op == BinOp::Assign {
                if let Expr::Var(name, _) = *left {
                    let env1 = match local_of_name(env, name@) {
                        Some(_) => env,
                        None => with_local(bump(env), name@, env.next_temp as usize),
                    };
                    if local_of_name(env, name@) is None {
                        lemma_with_local(bump(env), name@, env.next_temp as usize);
                        assert(local_of_name(bump(env), name@) == local_of_name(env, name@));
                        assert(keeps_bindings(env, bump(env)));
                        lemma_keeps_trans(env, bump(env), env1);
                    }
                    law_lowering_keeps_bindings(bump(env1), *right, env1.next_temp, base);
                    assert(keeps_bindings(env1, bump(env1)));
                    lemma_keeps_trans(env1, bump(env1), lower_expr(bump(env1), *right, env1.next_temp, base)->Ok_0.env);
                    lemma_keeps_trans(env, env1, lower_expr(bump(env1), *right, env1.next_temp, base)->Ok_0.env);
                }
            } else if op == BinOp::And || op == BinOp::Or {
                law_lowering_keeps_bindings(bump(env), *left, env.next_temp, base);
                let l = lower_expr(bump(env), *left, env.next_temp, base)->Ok_0;
                law_lowering_keeps_bindings(l.env, *right, dst, base + l.steps.len() + 1);
                assert(keeps_bindings(env, bump(env)));
                lemma_keeps_trans(env, bump(env), l.env);
                lemma_keeps_trans(env, l.env, lower_expr(l.env, *right, dst, base + l.steps.len() + 1)->Ok_0.env);
            } else {
                law_lowering_keeps_bindings(bump(bump(env)), *left, env.next_temp, base);
                let l = lower_expr(bump(bump(env)), *left, env.next_temp, base)->Ok_0;
                law_lowering_keeps_bindings(l.env, *right, env.next_temp + 1, base + l.steps.len());
                assert(keeps_bindings(env, bump(bump(env))));
                lemma_keeps_trans(env, bump(bump(env)), l.env);
                lemma_keeps_trans(env, l.env, lower_expr(l.env, *right, env.next_temp + 1, base + l.steps.len())->Ok_0.env);
            }
        },
        Expr::UnOp { expr, .. } => {
            law_lowering_keeps_bindings(bump(env), *expr, env.next_temp, base);
            assert(keeps_bindings(env, bump(env)));
            lemma_keeps_trans(env, bump(env), lower_expr(bump(env), *expr, env.next_temp, base)->Ok_0.env);
        },
        Expr::FString { segments, .. } => {
            if folded(e) is None {
                lemma_segments_keep_bindings(env, e, segments@.len() as int, base);
                let p = lower_segments(env, e, segments@.len() as int, base)->Ok_0;
                assert(keeps_bindings(p.low.env, bump(p.low.env)));
                lemma_keeps_trans(env, p.low.env, bump(p.low.env));
            }
        },
        _ => {},
    }
}

/// Lowering segments keeps every variable binding (see
/// [`law_lowering_keeps_bindings`]).
proof fn lemma_segments_keep_bindings(env: LowerEnv, e: Expr, k: int, base: int)
    requires
        lower_segments(env, e, k, base) is Ok,
    ensures
        keeps_bindings(env, lower_segments(env, e, k, base)->Ok_0.low.env),
    decreases e, 0int, k,
{
    if let Expr::FString { segments, .. } = e {
        if 0 < k <= segments@.len() {
            lemma_segments_keep_bindings(env, e, k - 1, base);
            let p = lower_segments(env, e, k - 1, base)->Ok_0;
            if let FStringSegment::Interpolation { expr, .. } = segments@[k - 1] {
                lemma_segment_expr_smaller(e, k - 1);
                let reg = p.low.env.next_temp;
                law_lowering_keeps_bindings(bump(p.low.env), *expr, reg, base + p.low.steps.len());
                assert(keeps_bindings(p.low.env, bump(p.low.env)));
                lemma_keeps_trans(p.low.env, bump(p.low.env), lower_expr(bump(p.low.env), *expr, reg, base + p.low.steps.len())->Ok_0.env);
                lemma_keeps_trans(env, p.low.env, lower_expr(bump(p.low.env), *expr, reg, base + p.low.steps.len())->Ok_0.env);
            }
        }
    }
}

/// After a statement binds a variable that is not a closure capture,
/// reading the variable loads the very local the binding wrote: the
/// variable's own local where it had one, else the fresh local it was
/// given (where there is a scope to bind it in).
pub proof fn law_read_after_binding(
    env: LowerEnv,
    name: String,
    name_span: Span,
    value: Option<Expr>,
    span: Span,
    base: int,
    dst: int,
    read_span: Span,
)
    requires
        env.scopes.len() > 0,
        !env.captures.contains_key(name@),
        lower_stmt(env, Stmt::Assign { target: Expr::Var(name, name_span), value, span }, base) is Ok,
    ensures
        ({
            let after = lower_stmt(
                env,
                Stmt::Assign { target: Expr::Var(name, name_span), value, span },
                base,
            )->Ok_0.env;
            let local: usize = match local_of_name(env, name@) {
                Some(l) => l,
                None => env.next_temp as usize,
            };
            lower_var(after, name@, dst, read_span) == single(
                after,
                Step::Load { dst, src: Source::Local(local as int), span: read_span },
            )
        }),
{
    let env1 = match local_of_name(env, name@) {
        Some(_) => env,
        None => with_local(bump(env), name@, env.next_temp as usize),
    };
    if local_of_name(env, name@) is None {
        lemma_with_local(bump(env), name@, env.next_temp as usize);
        assert(local_of_name(bump(env), name@) == local_of_name(env, name@));
    }
    let local: int = match local_of_name(env, name@) {
        Some(l) => l as int,
        None => env.next_temp,
    };
    assert(local_of_name(env1, name@) == Some(local as usize));
    match value {
        Some(e) => {
            law_lowering_keeps_bindings(env1, e, local, base);
        },
        None => {},
    }
}

/// The most locals a function frame holds.
pub const MAX_LOCALS: usize = 65535;

/// The span given to instructions that stand for no source text.
pub open spec fn no_span() -> Span {
    Span { file_id: 0, start: 0, end: 0 }
}

/// The environment inside a new, innermost scope.
pub open spec fn entered(env: LowerEnv) -> LowerEnv {
    LowerEnv {
        next_temp: env.next_temp,
        scopes: env.scopes.push(Map::empty()),
        captures: env.captures,
        globals: env.globals,
        aliases: env.aliases,
    }
}

/// The environment after leaving the innermost scope.
pub open spec fn exited(env: LowerEnv) -> LowerEnv {
    LowerEnv {
        next_temp: env.next_temp,
        scopes: if env.scopes.len() > 0 { env.scopes.drop_last() } else { env.scopes },
        captures: env.captures,
        globals: env.globals,
        aliases: env.aliases,
    }
}

/// The environment inside a new scope in which the first `n` parameters are
/// bound to locals 0, 1, ... in order.
pub open spec fn params_env(env: LowerEnv, params: Seq<Seq<char>>, n: int) -> LowerEnv
    decreases n,
{
    if n <= 0 {
        entered(env)
    } else {
        with_local(params_env(env, params, n - 1), params[n - 1], (n - 1) as usize)
    }
}

/// The loads of the first `n` arguments into locals of the same number.
pub open spec fn param_steps(n: nat) -> Seq<Step> {
    Seq::new(n, |i: int| Step::Load { dst: i, src: Source::Arg(i), span: no_span() })
}

/// Lowering the first `k` statements of a body one after another.
pub open spec fn lower_body(env: LowerEnv, body: Seq<Stmt>, k: int, base: int) -> Result<
    Lowered,
    LowerFailure,
>
    decreases body, 0int, k,
{
    if k <= 0 || k > body.len() {
        Ok(Lowered { steps: seq![], consts: seq![], env })
    } else {
        match lower_body(env, body, k - 1, base) {
            Err(f) => Err(f),
            Ok(p) => match lower_stmt(p.env, body[k - 1], base + p.steps.len()) {
                Err(f) => Err(f),
                Ok(x) => Ok(
                    Lowered { steps: p.steps + x.steps, consts: p.consts + x.consts, env: x.env },
                ),
            },
        }
    }
}

/// A block: in a new scope, its statements one after another; the scope is
/// then left.
pub open spec fn lower_block(env: LowerEnv, stmts: Seq<Stmt>, base: int) -> Result<
    Lowered,
    LowerFailure,
>
    decreases stmts, 1int, 0int,
{
    match lower_body(entered(env), stmts, stmts.len() as int, base) {
        Err(f) => Err(f),
        Ok(b) => Ok(Lowered { steps: b.steps, consts: b.consts, env: exited(b.env) }),
    }
}

/// The lowering of a chain of branches: what was emitted, and the absolute
/// positions of the jumps to the end of the conditional, emitted with
/// target 0 until the end is known.
pub struct ChainLowered {
    pub low: Lowered,
    pub ends: Seq<int>,
}

/// Lowering the first `k` `else if` branches of a conditional `s`: each
/// evaluates its condition into a fresh temporary, skips its block when the
/// condition fails, and jumps to the end after the block.
pub open spec fn lower_elifs(env: LowerEnv, s: Stmt, k: int, base: int) -> Result<
    ChainLowered,
    LowerFailure,
>
    decreases s, 1int, k,
{
    match s {
        Stmt::If { else_if_branches, span, .. } => if k <= 0 || k > else_if_branches@.len() {
            Ok(ChainLowered { low: Lowered { steps: seq![], consts: seq![], env }, ends: seq![] })
        } else {
            match lower_elifs(env, s, k - 1, base) {
                Err(f) => Err(f),
                Ok(p) => {
                    proof {
                        lemma_if_parts_smaller(s, k - 1);
                    }
                    let cond = else_if_branches@[k - 1].0;
                    let blk = else_if_branches@[k - 1].1;
                    let at = base + p.low.steps.len();
                    let c = p.low.env.next_temp;
                    match lower_expr(bump(p.low.env), cond, c, at) {
                        Err(f) => Err(f),
                        Ok(x) => {
                            let jn = at + x.steps.len();
                            match lower_block(x.env, blk@, jn + 1) {
                                Err(f) => Err(f),
                                Ok(b) => {
                                    let jend = jn + 1 + b.steps.len();
                                    Ok(
                                        ChainLowered {
                                            low: Lowered {
                                                steps: p.low.steps + x.steps + seq![
                                                    Step::JumpIfNot { cond: c, target: jend + 1, span },
                                                ] + b.steps + seq![Step::Jump { target: 0, span }],
                                                consts: p.low.consts + x.consts + b.consts,
                                                env: b.env,
                                            },
                                            ends: p.ends.push(jend),
                                        },
                                    )
                                },
                            }
                        },
                    }
                },
            }
        },
        _ => Ok(ChainLowered { low: Lowered { steps: seq![], consts: seq![], env }, ends: seq![] }),
    }
}

/// What an IR instruction computes from two integer operands: its
/// destination value for the lhs value `a` and the rhs value `b`; none for
/// instructions that are not integer operations here.
pub open spec fn int_result(i: Instruction, a: i128, b: i128) -> Option<ConstShape> {
    match i {
        Instruction::Add { .. } => Some(ConstShape::Int(a.wrapping_add(b))),
        Instruction::Sub { .. } => Some(ConstShape::Int(a.wrapping_sub(b))),
        Instruction::Mul { .. } => Some(ConstShape::Int(a.wrapping_mul(b))),
        Instruction::Mod { .. } => if b != 0 {
            Some(ConstShape::Int(a.checked_rem(b).unwrap()))
        } else {
            None
        },
        Instruction::And { .. } => Some(ConstShape::Int(a & b)),
        Instruction::Or { .. } => Some(ConstShape::Int(a | b)),
        Instruction::Xor { .. } => Some(ConstShape::Int(a ^ b)),
        Instruction::Shl { .. } => if 0 <= b <= 63 {
            Some(ConstShape::Int(a.wrapping_shl(b as u32)))
        } else {
            None
        },
        Instruction::Shr { .. } => if 0 <= b <= 63 {
            Some(ConstShape::Int(a.wrapping_shr(b as u32)))
        } else {
            None
        },
        Instruction::Eq { .. } => Some(ConstShape::Bool(a == b)),
        Instruction::Ne { .. } => Some(ConstShape::Bool(a != b)),
        Instruction::Lt { .. } => Some(ConstShape::Bool(a < b)),
        Instruction::Le { .. } => Some(ConstShape::Bool(a <= b)),
        Instruction::Gt { .. } => Some(ConstShape::Bool(a > b)),
        Instruction::Ge { .. } => Some(ConstShape::Bool(a >= b)),
        _ => None,
    }
}

/// The left and right source operands of a two-operand IR instruction.
pub open spec fn sources(i: Instruction) -> Option<(Operand, Operand)> {
    match i {
        Instruction::Add { lhs, rhs, .. } | Instruction::Sub { lhs, rhs, .. }
        | Instruction::Mul { lhs, rhs, .. } | Instruction::Div { lhs, rhs, .. }
        | Instruction::Mod { lhs, rhs, .. } | Instruction::And { lhs, rhs, .. }
        | Instruction::Or { lhs, rhs, .. } | Instruction::Xor { lhs, rhs, .. }
        | Instruction::Shl { lhs, rhs, .. } | Instruction::Shr { lhs, rhs, .. }
        | Instruction::Eq { lhs, rhs, .. } | Instruction::Ne { lhs, rhs, .. }
        | Instruction::Lt { lhs, rhs, .. } | Instruction::Le { lhs, rhs, .. }
        | Instruction::Gt { lhs, rhs, .. } | Instruction::Ge { lhs, rhs, .. } => Some((lhs, rhs)),
        _ => None,
    }
}

/// An instruction that lowering emits for a binary operator computes what
/// folding that operator computes: on integer operands its result is the
/// folded value, its left source is the local holding the left operand and
/// its right source the local holding the right one. So `<` is never
/// lowered to `>`, nor `-` to `+`, and the operands are never swapped.
pub proof fn law_lowered_operator_computes_folding(
    i: Instruction,
    op: BinOp,
    dst: usize,
    lhs: usize,
    rhs: usize,
    span: Span,
    a: i128,
    b: i128,
)
    requires
        step_of(i) == binary_step(op, dst, lhs, rhs, span),
    ensures
        sources(i) == Some((Operand::Local(lhs), Operand::Local(rhs))),
        fold_ints(op, a, b) is Some ==> int_result(i, a, b) == fold_ints(op, a, b),
{
}

/// What a one-operand IR instruction computes: negation of an integer,
/// logical negation of a boolean.
pub open spec fn unary_result(i: Instruction, v: ConstShape) -> Option<ConstShape> {
    match (i, v) {
        (Instruction::Neg { .. }, ConstShape::Int(a)) => Some(ConstShape::Int(0i128.wrapping_sub(a))),
        (Instruction::Not { .. }, ConstShape::Bool(b)) => Some(ConstShape::Bool(!b)),
        _ => None,
    }
}

/// An instruction that lowering emits for a unary operator performs that
/// operator on the local holding the operand: `-` negates an integer
/// (within range, its mathematical negation), `!` negates a boolean.
pub proof fn law_lowered_unary_operator(i: Instruction, op: UnOp, dst: int, src: int, span: Span, a: i128, b: bool)
    requires
        step_of(i) == (Step::Unary { op, dst, src, span }),
    ensures
        op == UnOp::Neg ==> unary_result(i, ConstShape::Int(a)) == Some(ConstShape::Int(0i128.wrapping_sub(a)))
            && (a > i128::MIN ==> unary_result(i, ConstShape::Int(a)) == Some(ConstShape::Int((-a) as i128))),
        op == UnOp::Not ==> unary_result(i, ConstShape::Bool(b)) == Some(ConstShape::Bool(!b)),
{
}

/// `steps` (emitted from position `base` on) with the steps at the
/// positions `ends` made jumps to `end`.
pub open spec fn patch_ends(steps: Seq<Step>, ends: Seq<int>, base: int, end: int, span: Span) -> Seq<
    Step,
> {
    Seq::new(
        steps.len(),
        |k: int|
            if ends.contains(base + k) {
                Step::Jump { target: end, span }
            } else {
                steps[k]
            },
    )
}

/// The parts of a conditional are smaller than the conditional.
pub proof fn lemma_if_parts_smaller(s: Stmt, k: int)
    requires
        s is If,
    ensures
        decreases_to!(s => s->then_branch@),
        s->else_branch is Some ==> decreases_to!(s => s->else_branch->0@),
        0 <= k < s->else_if_branches@.len() ==> decreases_to!(s => s->else_if_branches@[k].0),
        0 <= k < s->else_if_branches@.len() ==> decreases_to!(s => s->else_if_branches@[k].1@),
{
    let t = s->then_branch;
    assert(decreases_to!(s => t));
    assert(decreases_to!(t => t@));
    if let Some(e) = s->else_branch {
        assert(decreases_to!(s => s->else_branch));
        assert(decreases_to!(s->else_branch => e));
        assert(decreases_to!(e => e@));
    }
    let b = s->else_if_branches;
    if 0 <= k < b@.len() {
        assert(decreases_to!(s => b));
        assert(decreases_to!(b => b@));
        assert(decreases_to!(b@ => b@[k]));
        assert(decreases_to!(b@[k] => b@[k].0));
        assert(decreases_to!(b@[k] => b@[k].1));
        assert(decreases_to!(b@[k].1 => b@[k].1@));
    }
}

/// The lowering of a function: its steps, the constants, the environment
/// after and the number of locals its frame needs.
pub struct FunctionLowered {
    pub steps: Seq<Step>,
    pub consts: Seq<ConstShape>,
    pub env: LowerEnv,
    pub locals: nat,
}

/// Lowering a function body: in a new scope, each parameter is loaded from
/// its argument into the local of the same number and bound there;
/// temporaries start after the parameters; the statements follow, then a
/// return without a value, and the scope is left. Every temporary taken is a
/// local of the frame; more than [`MAX_LOCALS`] fail.
pub open spec fn lower_function(env: LowerEnv, params: Seq<Seq<char>>, body: Seq<Stmt>) -> Result<
    FunctionLowered,
    LowerFailure,
> {
    let p = params_env(env, params, params.len() as int);
    let e0 = LowerEnv {
        next_temp: params.len() as int,
        scopes: p.scopes,
        captures: p.captures,
        globals: p.globals,
        aliases: p.aliases,
    };
    match lower_body(e0, body, body.len() as int, params.len() as int) {
        Err(f) => Err(f),
        Ok(b) => if b.env.next_temp > MAX_LOCALS {
            Err(LowerFailure::TooManyLocals(b.env.next_temp))
        } else {
            Ok(
                FunctionLowered {
                    steps: param_steps(params.len()) + b.steps + seq![
                        Step::Return { value: None, span: no_span() },
                    ],
                    consts: b.consts,
                    env: exited(b.env),
                    locals: b.env.next_temp as nat,
                },
            )
        },
    }
}

/// The temporaries the first `k` statements of a body may take.
pub open spec fn body_size(body: Seq<Stmt>, k: int) -> nat
    decreases body, 0int, k,
{
    if k <= 0 || k > body.len() {
        0
    } else {
        body_size(body, k - 1) + stmt_temps(body[k - 1])
    }
}

/// The temporaries a statement may take.
pub open spec fn stmt_temps(s: Stmt) -> nat
    decreases s, 2int, 0int,
{
    match s {
        Stmt::Expr(e) => 1 + 2 * expr_size(e),
        Stmt::Assign { value, .. } => match value {
            Some(e) => 1 + 2 * expr_size(e),
            None => 1,
        },
        Stmt::Return(value, _) => match value {
            Some(e) => 1 + 2 * expr_size(e),
            None => 0,
        },
        Stmt::If { condition, then_branch, else_if_branches, else_branch, .. } => {
            proof {
                lemma_if_parts_smaller(s, 0);
            }
            1 + 2 * expr_size(condition) + body_size(then_branch@, then_branch@.len() as int)
                + elifs_temps(s, else_if_branches@.len() as int) + match else_branch {
                Some(eb) => body_size(eb@, eb@.len() as int),
                None => 0,
            }
        },
        Stmt::Use => 0,
    }
}

/// The temporaries the first `k` `else if` branches of a conditional may
/// take.
pub open spec fn elifs_temps(s: Stmt, k: int) -> nat
    decreases s, 1int, k,
{
    match s {
        Stmt::If { else_if_branches, .. } => if k <= 0 || k > else_if_branches@.len() {
            0
        } else {
            proof {
                lemma_if_parts_smaller(s, k - 1);
            }
            elifs_temps(s, k - 1) + 1 + 2 * expr_size(else_if_branches@[k - 1].0) + body_size(
                else_if_branches@[k - 1].1@,
                else_if_branches@[k - 1].1@.len() as int,
            )
        },
        _ => 0,
    }
}

/// Lowering a statement, with `base` instructions already emitted.
///
/// An expression statement is evaluated into a fresh temporary. An
/// assignment to a variable evaluates its value straight into the
/// variable's local (a fresh one, bound in the innermost scope, where the
/// name has none), or loads 0 there when there is no value; an assignment
/// to anything else fails. A return evaluates its value into a fresh
/// temporary and returns it. An import emits nothing. A conditional, in a
/// new scope, evaluates its condition into a fresh temporary and skips the
/// `then` block when it fails; each `else if` branch does the same in turn
/// (see [`lower_elifs`]), then the `else` block follows; every block but
/// the last jumps to the end.
pub open spec fn lower_stmt(env: LowerEnv, s: Stmt, base: int) -> Result<Lowered, LowerFailure>
    decreases s, 2int, 0int,
{
    match s {
        Stmt::Expr(e) => lower_expr(bump(env), e, env.next_temp, base),
        Stmt::Assign { target, value, span } => match target {
            Expr::Var(name, _) => {
                let local: int = match local_of_name(env, name@) {
                    Some(l) => l as int,
                    None => env.next_temp,
                };
                let env1 = match local_of_name(env, name@) {
                    Some(_) => env,
                    None => with_local(bump(env), name@, env.next_temp as usize),
                };
                match value {
                    Some(e) => lower_expr(env1, e, local, base),
                    None => single(
                        env1,
                        Step::Load { dst: local, src: Source::Const(ConstShape::Int(0)), span },
                    ),
                }
            },
            _ => Err(LowerFailure::Target),
        },
        Stmt::Return(value, span) => match value {
            Some(e) => {
                let r = env.next_temp;
                match lower_expr(bump(env), e, r, base) {
                    Err(f) => Err(f),
                    Ok(x) => Ok(
                        Lowered {
                            steps: x.steps.push(Step::Return { value: Some(r), span }),
                            consts: x.consts,
                            env: x.env,
                        },
                    ),
                }
            },
            None => single(env, Step::Return { value: None, span }),
        },
        Stmt::If { condition, then_branch, else_if_branches, else_branch, span } => {
            proof {
                lemma_if_parts_smaller(s, 0);
            }
            let ea = entered(env);
            let c = ea.next_temp;
            match lower_expr(bump(ea), condition, c, base) {
                Err(f) => Err(f),
                Ok(x) => {
                    let jn = base + x.steps.len();
                    match lower_block(x.env, then_branch@, jn + 1) {
                        Err(f) => Err(f),
                        Ok(t) => {
                            let rest = else_if_branches@.len() > 0 || else_branch is Some;
                            let after_then = jn + 1 + t.steps.len();
                            let t1 = if rest { after_then + 1 } else { after_then };
                            let head = x.steps + seq![Step::JumpIfNot { cond: c, target: t1, span }]
                                + t.steps + if rest {
                                seq![Step::Jump { target: 0, span }]
                            } else {
                                Seq::empty()
                            };
                            let ends0: Seq<int> = if rest { seq![after_then] } else { Seq::empty() };
                            match lower_elifs(t.env, s, else_if_branches@.len() as int, base + head.len()) {
                                Err(f) => Err(f),
                                Ok(ch) => {
                                    let e_at = base + head.len() + ch.low.steps.len();
                                    let tail: Result<Lowered, LowerFailure> = match else_branch {
                                        None => Ok(Lowered { steps: seq![], consts: seq![], env: ch.low.env }),
                                        Some(eb) => lower_block(ch.low.env, eb@, e_at),
                                    };
                                    match tail {
                                        Err(f) => Err(f),
                                        Ok(el) => {
                                            let all = head + ch.low.steps + el.steps;
                                            Ok(
                                                Lowered {
                                                    steps: patch_ends(
                                                        all,
                                                        ends0 + ch.ends,
                                                        base,
                                                        base + all.len(),
                                                        span,
                                                    ),
                                                    consts: x.consts + t.consts + ch.low.consts + el.consts,
                                                    env: exited(el.env),
                                                },
                                            )
                                        },
                                    }
                                },
                            }
                        },
                    }
                },
            }
        },
        Stmt::Use => Ok(Lowered { steps: seq![], consts: seq![], env }),
    }
}

/// The expressions of a statement, and of the statements within it,
/// satisfy [`fstrings_foldable`].
pub open spec fn stmt_fstrings_foldable(s: Stmt) -> bool
    decreases s, 2int, 0int,
{
    match s {
        Stmt::Expr(e) => fstrings_foldable(e),
        Stmt::Assign { value: Some(e), .. } => fstrings_foldable(e),
        Stmt::Return(Some(e), _) => fstrings_foldable(e),
        Stmt::If { condition, then_branch, else_if_branches, else_branch, .. } => {
            proof {
                lemma_if_parts_smaller(s, 0);
            }
            &&& fstrings_foldable(condition)
            &&& body_fstrings_foldable(then_branch@, then_branch@.len() as int)
            &&& elifs_fstrings_foldable(s, else_if_branches@.len() as int)
            &&& match else_branch {
                Some(eb) => body_fstrings_foldable(eb@, eb@.len() as int),
                None => true,
            }
        },
        _ => true,
    }
}

/// The first `k` statements satisfy [`stmt_fstrings_foldable`].
pub open spec fn body_fstrings_foldable(body: Seq<Stmt>, k: int) -> bool
    decreases body, 0int, k,
{
    if k <= 0 || k > body.len() {
        true
    } else {
        body_fstrings_foldable(body, k - 1) && stmt_fstrings_foldable(body[k - 1])
    }
}

/// The conditions and blocks of the first `k` `else if` branches satisfy
/// [`fstrings_foldable`] and [`body_fstrings_foldable`].
pub open spec fn elifs_fstrings_foldable(s: Stmt, k: int) -> bool
    decreases s, 1int, k,
{
    match s {
        Stmt::If { else_if_branches, .. } => if k <= 0 || k > else_if_branches@.len() {
            true
        } else {
            proof {
                lemma_if_parts_smaller(s, k - 1);
            }
            &&& elifs_fstrings_foldable(s, k - 1)
            &&& fstrings_foldable(else_if_branches@[k - 1].0)
            &&& body_fstrings_foldable(
                else_if_branches@[k - 1].1@,
                else_if_branches@[k - 1].1@.len() as int,
            )
        },
        _ => true,
    }
}

/// The number of nodes of an expression.
pub open spec fn expr_size(e: Expr) -> nat
    decreases e, 1int, 0int,
{
    match e {
        Expr::Lit(_, _) | Expr::Var(_, _) => 1,
        Expr::BinOp { left, right, .. } => 1 + expr_size(*left) + expr_size(*right),
        Expr::UnOp { expr, .. } => 1 + expr_size(*expr),
        Expr::FString { segments, .. } => 1 + segments_size(e, segments@.len() as int),
    }
}

/// The number of nodes under the first `k` interpolations of an
/// interpolated string, each counted with its interpolation.
pub open spec fn segments_size(e: Expr, k: int) -> nat
    decreases e, 0int, k,
{
    match e {
        Expr::FString { segments, .. } => if k <= 0 || k > segments@.len() {
            0
        } else {
            segments_size(e, k - 1) + match segments@[k - 1] {
                FStringSegment::Text(_) => 0,
                FStringSegment::Interpolation { expr, .. } => {
                    proof {
                        lemma_segment_expr_smaller(e, k - 1);
                    }
                    1 + expr_size(*expr)
                },
            }
        },
        _ => 0,
    }
}

/// Why lowering an expression failed.
#[derive(Debug)]
pub enum IrGenError {
    /// A variable that is neither captured, local, global, imported nor a
    /// built-in type name.
    UnresolvedVariable(String),
    /// A binary operator that has no instruction here.
    UnhandledOperator(BinOp),
    /// A statement assigns to something that is not a variable.
    UnsupportedTarget,
    /// A function needs more locals than a frame holds.
    TooManyLocals(usize),
}

/// The failure an error reports.
pub open spec fn failure_of(e: IrGenError) -> LowerFailure {
    match e {
        IrGenError::UnresolvedVariable(n) => LowerFailure::Unresolved(n@),
        IrGenError::UnhandledOperator(op) => LowerFailure::Operator(op),
        IrGenError::UnsupportedTarget => LowerFailure::Target,
        IrGenError::TooManyLocals(n) => LowerFailure::TooManyLocals(n as int),
    }
}

/// The part of the IR generator that expression lowering works on.
pub struct AstToIrGenerator {
    /// The next free temporary.
    pub next_temp: usize,
    /// The local scopes, innermost last.
    pub symbols: Vec<StrMap<usize>>,
    /// Inside a closure body: the captured variables and their upvalues.
    pub closure_captures: StrMap<usize>,
    /// The names of the globals.
    pub global_vars: Vec<String>,
    /// Imported bindings and the qualified names they stand for.
    pub use_aliases: StrMap<String>,
}

impl AstToIrGenerator {
    /// Every map is well formed.
    pub open spec fn wf(&self) -> bool {
        &&& forall|i: int| 0 <= i < self.symbols@.len() ==> (#[trigger] self.symbols@[i]).wf()
        &&& self.closure_captures.wf()
        &&& self.use_aliases.wf()
    }

    /// The generator as lowering sees it.
    pub open spec fn env(&self) -> LowerEnv {
        LowerEnv {
            next_temp: self.next_temp as int,
            scopes: self.symbols@.map_values(|m: StrMap<usize>| m@),
            captures: self.closure_captures@,
            globals: self.global_vars@.map_values(|s: String| s@),
            aliases: self.use_aliases@.map_values(|s: String| s@),
        }
    }

    /// Takes the next free temporary.
    pub fn next_temp_reg(&mut self) -> (reg: usize)
        requires
            old(self).next_temp < usize::MAX,
        ensures
            reg == old(self).next_temp,
            final(self).next_temp == old(self).next_temp + 1,
            final(self).symbols@ == old(self).symbols@,
            final(self).closure_captures == old(self).closure_captures,
            final(self).global_vars@ == old(self).global_vars@,
            final(self).use_aliases == old(self).use_aliases,
    {
        let reg = self.next_temp;
        self.next_temp = reg + 1;
        reg
    }

    /// The local that `name` is bound to, innermost scope first.
    pub fn lookup_local(&self, name: &str) -> (r: Option<usize>)
        requires
            self.wf(),
        ensures
            r == local_of_name(self.env(), name@),
    {
        let ghost scopes = self.env().scopes;
        let mut j: usize = self.symbols.len();
        while j > 0
            invariant
                j <= self.symbols@.len(),
                scopes == self.env().scopes,
                scopes.len() == self.symbols@.len(),
                self.wf(),
                lookup_scopes(scopes, name@, j as int) == lookup_scopes(
                    scopes,
                    name@,
                    scopes.len() as int,
                ),
            decreases j,
        {
            assert(scopes[j - 1] == self.symbols@[j - 1]@);
            match self.symbols[j - 1].get(name) {
                Some(idx) => {
                    return Some(*idx);
                },
                None => {},
            }
            j = j - 1;
        }
        None
    }

    /// Whether `name` is a global.
    pub fn lookup_global(&self, name: &String) -> (b: bool)
        ensures
            b == is_global(self.env(), name@),
    {
        let mut i: usize = 0;
        while i < self.global_vars.len()
            invariant
                i <= self.global_vars@.len(),
                forall|k: int| 0 <= k < i ==> self.global_vars@[k]@ != name@,
            decreases self.global_vars@.len() - i,
        {
            if self.global_vars[i] == *name {
                assert(self.env().globals[i as int] == name@);
                return true;
            }
            i = i + 1;
        }
        assert forall|k: int| 0 <= k < self.env().globals.len() implies self.env().globals[k]
            != name@ by {
            assert(self.env().globals[k] == self.global_vars@[k]@);
        }
        false
    }

    /// Binds `name` to local `idx` in the innermost scope, if there is one.
    pub fn register_local(&mut self, name: &String, idx: usize)
        requires
            old(self).wf(),
        ensures
            final(self).wf(),
            final(self).env() == with_local(old(self).env(), name@, idx),
    {
        let ghost old_env = self.env();
        if self.symbols.len() > 0 {
            let ghost n = self.symbols@.len();
            let mut scope = self.symbols.pop().unwrap();
            scope.insert(name.clone(), idx);
            self.symbols.push(scope);
            assert(self.env().scopes =~= old_env.scopes.update(n - 1, old_env.scopes.last().insert(name@, idx))) by {
                assert forall|k: int| 0 <= k < n implies #[trigger] self.env().scopes[k] == old_env.scopes.update(
                    n - 1,
                    old_env.scopes.last().insert(name@, idx),
                )[k] by {
                    if k < n - 1 {
                        assert(self.symbols@[k] == old(self).symbols@[k]);
                    }
                }
            }
            assert(self.env() =~= with_local(old_env, name@, idx));
        } else {
            assert(self.env() =~= old_env);
        }
    }

    /// Lowers a function (see [`lower_function`]) into its IR: one block
    /// labelled 0, entered there, with a local slot of 64-bit integer type
    /// for each local its frame needs.
    pub fn generate_function_ir(
        &mut self,
        name: &str,
        params: &Vec<String>,
        param_types: Vec<MonoType>,
        return_type: MonoType,
        body: &Vec<Stmt>,
        constants: &mut Vec<ConstValue>,
        generic_params: Option<Vec<String>>,
    ) -> (r: Result<FunctionIR, IrGenError>)
        requires
            old(self).wf(),
            params@.len() + body_size(body@, body@.len() as int) <= usize::MAX,
            forall|j: int| 0 <= j < body@.len() ==> stmt_fstrings_foldable(#[trigger] body@[j]),
        ensures
            match lower_function(old(self).env(), params@.map_values(|s: String| s@), body@) {
                Ok(fl) => match r {
                    Ok(f) => {
                        &&& f.name@ == name@
                        &&& f.def is None
                        &&& f.params == param_types
                        &&& f.return_type == return_type
                        &&& f.generic_params == generic_params
                        &&& f.body matches FunctionBody::Code { blocks, entry, locals } && entry == 0
                            && blocks@.len() == 1 && blocks@[0].label == 0
                            && blocks@[0].successors@.len() == 0 && emitted(
                            Seq::empty(),
                            blocks@[0].instructions@,
                            fl.steps,
                        ) && locals@.len() == fl.locals
                        &&& consts_emitted(old(constants)@, final(constants)@, fl.consts)
                        &&& final(self).env() == fl.env
                        &&& final(self).wf()
                    },
                    Err(_) => false,
                },
                Err(f) => r matches Err(e) && failure_of(e) == f,
            },
    {
        let ghost env0 = self.env();
        let ghost names = params@.map_values(|s: String| s@);
        let mut instructions: Vec<Instruction> = Vec::new();
        self.symbols.push(StrMap::new());
        proof {
            assert(self.env() =~= params_env(env0, names, 0));
        }
        let mut i: usize = 0;
        while i < params.len()
            invariant
                i <= params@.len(),
                self.wf(),
                names == params@.map_values(|s: String| s@),
                self.env() == params_env(env0, names, i as int),
                emitted(Seq::empty(), instructions@, param_steps(i as nat)),
            decreases params@.len() - i,
        {
            let ld = Instruction::Load {
                dst: Operand::Local(i),
                src: Operand::Arg(i),
                span: Span::new(0, 0, 0),
            };
            proof {
                lemma_emitted_push(Seq::empty(), instructions@, param_steps(i as nat), ld);
                assert(param_steps(i as nat).push(step_of(ld)) =~= param_steps((i + 1) as nat));
            }
            instructions.push(ld);
            self.register_local(&params[i], i);
            i = i + 1;
        }
        let ghost n = params@.len() as int;
        let ghost p = params_env(env0, names, n);
        let ghost e0 = LowerEnv {
            next_temp: n,
            scopes: p.scopes,
            captures: p.captures,
            globals: p.globals,
            aliases: p.aliases,
        };
        self.next_temp = params.len();
        proof {
            assert(self.env() =~= e0);
        }
        let ghost ip = instructions@;
        let ghost c0 = constants@;
        let mut k: usize = 0;
        while k < body.len()
            invariant
                k <= body@.len(),
                self.wf(),
                ip.len() == n,
                n == params@.len(),
                names == params@.map_values(|s: String| s@),
                e0.next_temp == n,
                emitted(Seq::empty(), ip, param_steps(n as nat)),
                env0 == old(self).env(),
                c0 == old(constants)@,
                p == params_env(env0, names, n),
                e0 == (LowerEnv {
                    next_temp: n,
                    scopes: p.scopes,
                    captures: p.captures,
                    globals: p.globals,
                    aliases: p.aliases,
                }),
                forall|j: int| 0 <= j < body@.len() ==> stmt_fstrings_foldable(#[trigger] body@[j]),
                lower_body(e0, body@, k as int, n) is Ok,
                emitted(ip, instructions@, lower_body(e0, body@, k as int, n)->Ok_0.steps),
                consts_emitted(c0, constants@, lower_body(e0, body@, k as int, n)->Ok_0.consts),
                self.env() == lower_body(e0, body@, k as int, n)->Ok_0.env,
                self.next_temp <= n + body_size(body@, k as int),
                body_size(body@, k as int) <= body_size(body@, body@.len() as int),
                n + body_size(body@, body@.len() as int) <= usize::MAX,
            decreases body@.len() - k,
        {
            let ghost prev = lower_body(e0, body@, k as int, n)->Ok_0;
            let ghost i1 = instructions@;
            let ghost c1 = constants@;
            proof {
                lemma_body_size_mono(body@, k + 1, body@.len() as int);
            }
            match self.generate_local_stmt_ir(&body[k], &mut instructions, constants) {
                Err(e) => {
                    proof {
                        lemma_body_err(e0, body@, n, k + 1, body@.len() as int);
                    }
                    return Err(e);
                },
                Ok(()) => {},
            }
            proof {
                let x = lower_stmt(prev.env, body@[k as int], i1.len() as int)->Ok_0;
                lemma_emitted_trans(ip, i1, instructions@, prev.steps, x.steps);
                lemma_consts_trans(c0, c1, constants@, prev.consts, x.consts);
            }
            k = k + 1;
        }
        let ghost b = lower_body(e0, body@, body@.len() as int, n)->Ok_0;
        let total = self.next_temp;
        if total > MAX_LOCALS {
            return Err(IrGenError::TooManyLocals(total));
        }
        let ret = Instruction::Ret { value: None, span: Span::new(0, 0, 0) };
        proof {
            lemma_emitted_trans(Seq::empty(), ip, instructions@, param_steps(n as nat), b.steps);
            lemma_emitted_push(Seq::empty(), instructions@, param_steps(n as nat) + b.steps, ret);
            assert((param_steps(n as nat) + b.steps).push(step_of(ret)) =~= param_steps(n as nat)
                + b.steps + seq![Step::Return { value: None, span: no_span() }]);
        }
        instructions.push(ret);
        let ghost before_exit = self.env();
        self.symbols.pop();
        proof {
            assert(self.env() =~= exited(before_exit));
        }
        let mut locals: Vec<LocalSlot> = Vec::new();
        let mut j: usize = 0;
        while j < total
            invariant
                j <= total,
                locals@.len() == j,
            decreases total - j,
        {
            locals.push(LocalSlot::temp(MonoType::Int(64)));
            j = j + 1;
        }
        let mut blocks: Vec<BasicBlock> = Vec::new();
        blocks.push(BasicBlock { label: 0, instructions, successors: Vec::new() });
        Ok(
            FunctionIR {
                name: String::from_str(name),
                def: None,
                params: param_types,
                return_type,
                body: FunctionBody::Code { blocks, entry: 0, locals },
                generic_params,
            },
        )
    }

    /// Lowers a block (see [`lower_block`]).
    pub fn generate_block_ir(
        &mut self,
        stmts: &Vec<Stmt>,
        instructions: &mut Vec<Instruction>,
        constants: &mut Vec<ConstValue>,
    ) -> (r: Result<(), IrGenError>)
        requires
            old(self).wf(),
            old(self).next_temp + body_size(stmts@, stmts@.len() as int) <= usize::MAX,
            body_fstrings_foldable(stmts@, stmts@.len() as int),
        ensures
            final(self).wf(),
            final(self).next_temp <= old(self).next_temp + body_size(stmts@, stmts@.len() as int),
            match lower_block(old(self).env(), stmts@, old(instructions)@.len() as int) {
                Ok(low) => {
                    &&& r is Ok
                    &&& emitted(old(instructions)@, final(instructions)@, low.steps)
                    &&& consts_emitted(old(constants)@, final(constants)@, low.consts)
                    &&& final(self).env() == low.env
                },
                Err(f) => r matches Err(e) && failure_of(e) == f,
            },
        decreases stmts, 0int,
    {
        let ghost env0 = self.env();
        let ghost i0 = instructions@;
        let ghost c0 = constants@;
        let ghost n = stmts@.len() as int;
        self.symbols.push(StrMap::new());
        let ghost ea = entered(env0);
        proof {
            assert(self.env() =~= ea);
            lemma_body_size_mono(stmts@, 0, n);
        }
        let mut k: usize = 0;
        while k < stmts.len()
            invariant
                k <= n,
                n == stmts@.len(),
                self.wf(),
                env0 == old(self).env(),
                i0 == old(instructions)@,
                c0 == old(constants)@,
                ea == entered(env0),
                lower_body(ea, stmts@, k as int, i0.len() as int) is Ok,
                emitted(i0, instructions@, lower_body(ea, stmts@, k as int, i0.len() as int)->Ok_0.steps),
                consts_emitted(
                    c0,
                    constants@,
                    lower_body(ea, stmts@, k as int, i0.len() as int)->Ok_0.consts,
                ),
                self.env() == lower_body(ea, stmts@, k as int, i0.len() as int)->Ok_0.env,
                self.next_temp <= env0.next_temp + body_size(stmts@, k as int),
                body_size(stmts@, k as int) <= body_size(stmts@, n),
                env0.next_temp + body_size(stmts@, n) <= usize::MAX,
                body_fstrings_foldable(stmts@, n),
            decreases n - k,
        {
            let ghost prev = lower_body(ea, stmts@, k as int, i0.len() as int)->Ok_0;
            let ghost i1 = instructions@;
            let ghost c1 = constants@;
            proof {
                lemma_body_size_mono(stmts@, k + 1, n);
                lemma_body_foldable_prefix(stmts@, n, k as int);
            }
            match self.generate_local_stmt_ir(&stmts[k], instructions, constants) {
                Err(e) => {
                    proof {
                        lemma_body_err(ea, stmts@, i0.len() as int, k + 1, n);
                    }
                    return Err(e);
                },
                Ok(()) => {},
            }
            proof {
                let x = lower_stmt(prev.env, stmts@[k as int], i1.len() as int)->Ok_0;
                lemma_emitted_trans(i0, i1, instructions@, prev.steps, x.steps);
                lemma_consts_trans(c0, c1, constants@, prev.consts, x.consts);
            }
            k = k + 1;
        }
        let ghost before = self.env();
        self.symbols.pop();
        proof {
            assert(self.env() =~= exited(before));
        }
        Ok(())
    }

    /// Lowers a conditional (see [`lower_stmt`]).
    #[verifier::rlimit(80)]
    fn generate_if_stmt_ir(
        &mut self,
        stmt: &Stmt,
        condition: &Expr,
        then_branch: &Vec<Stmt>,
        else_if_branches: &Vec<(Expr, Vec<Stmt>)>,
        else_branch: &Option<Vec<Stmt>>,
        span: &Span,
        instructions: &mut Vec<Instruction>,
        constants: &mut Vec<ConstValue>,
    ) -> (r: Result<(), IrGenError>)
        requires
            *stmt == (Stmt::If {
                condition: *condition,
                then_branch: *then_branch,
                else_if_branches: *else_if_branches,
                else_branch: *else_branch,
                span: *span,
            }),
            old(self).wf(),
            old(self).next_temp + stmt_temps(*stmt) <= usize::MAX,
            stmt_fstrings_foldable(*stmt),
        ensures
            final(self).wf(),
            final(self).next_temp <= old(self).next_temp + stmt_temps(*stmt),
            match lower_stmt(old(self).env(), *stmt, old(instructions)@.len() as int) {
                Ok(low) => {
                    &&& r is Ok
                    &&& emitted(old(instructions)@, final(instructions)@, low.steps)
                    &&& consts_emitted(old(constants)@, final(constants)@, low.consts)
                    &&& final(self).env() == low.env
                },
                Err(f) => r matches Err(e) && failure_of(e) == f,
            },
        decreases stmt, 1int,
    {
        let ghost env0 = self.env();
        let ghost i0 = instructions@;
        let ghost c0 = constants@;
        let ghost base = i0.len() as int;
        proof {
            lemma_if_parts_smaller(*stmt, 0);
        }
        self.symbols.push(StrMap::new());
        let ghost ea = entered(env0);
        proof {
            assert(self.env() =~= ea);
        }
        let cond_reg = self.next_temp_reg();
        proof {
            assert(self.env() =~= bump(ea));
        }
        match self.generate_expr_ir(condition, cond_reg, instructions, constants) {
            Err(e) => {
                return Err(e);
            },
            Ok(()) => {},
        }
        let ghost x = lower_expr(bump(ea), *condition, cond_reg as int, base)->Ok_0;
        let ghost i1 = instructions@;
        let ghost c1 = constants@;
        let jn = instructions.len();
        instructions.push(Instruction::Jmp { target: 0, span: *span });
        let ghost i2 = instructions@;
        match self.generate_block_ir(then_branch, instructions, constants) {
            Err(e) => {
                return Err(e);
            },
            Ok(()) => {},
        }
        let ghost t = lower_block(x.env, then_branch@, jn + 1)->Ok_0;
        let ghost i3 = instructions@;
        let rest = else_if_branches.len() > 0 || else_branch.is_some();
        let mut ends: Vec<usize> = Vec::new();
        if rest {
            let idx = instructions.len();
            instructions.push(Instruction::Jmp { target: 0, span: *span });
            ends.push(idx);
        }
        let t1 = instructions.len();
        instructions.set(
            jn,
            Instruction::JmpIfNot { cond: Operand::Local(cond_reg), target: t1, span: *span },
        );
        let ghost head = x.steps + seq![
            Step::JumpIfNot { cond: cond_reg as int, target: t1 as int, span: *span },
        ] + t.steps + if rest {
            seq![Step::Jump { target: 0, span: *span }]
        } else {
            Seq::<Step>::empty()
        };
        let ghost ends0: Seq<int> = if rest {
            seq![(jn + 1 + t.steps.len()) as int]
        } else {
            Seq::<int>::empty()
        };
        proof {
            lemma_if_head(
                i0,
                i1,
                i3,
                instructions@,
                x.steps,
                t.steps,
                cond_reg,
                t1,
                *span,
                rest,
            );
        }
        let ghost hb = instructions@;
        let ghost ch_env = t.env;
        let ghost ch_base = hb.len() as int;
        let ghost c_head = constants@;
        proof {
            lemma_consts_trans(c0, c1, constants@, x.consts, t.consts);
        }
        let ghost nb = else_if_branches@.len() as int;
        proof {
            lemma_if_parts_smaller(*stmt, 0);
            lemma_elifs_temps_mono(*stmt, 0, nb);
        }
        match self.generate_elifs_ir(stmt, else_if_branches, span, &mut ends, instructions, constants) {
            Err(e) => {
                return Err(e);
            },
            Ok(()) => {},
        }
        let ghost ch = lower_elifs(ch_env, *stmt, nb, ch_base)->Ok_0;
        let ghost k1 = instructions@;
        let ghost d1 = constants@;
        let ghost e_at = k1.len() as int;
        match else_branch {
            Some(eb) => {
                match self.generate_block_ir(eb, instructions, constants) {
                    Err(e) => {
                        return Err(e);
                    },
                    Ok(()) => {},
                }
            },
            None => {},
        }
        let ghost el: Lowered = if else_branch.is_some() {
            lower_block(ch.low.env, else_branch->0@, e_at)->Ok_0
        } else {
            Lowered { steps: seq![], consts: seq![], env: ch.low.env }
        };
        let ghost pre = instructions@;
        proof {
            lemma_emitted_trans(i0, hb, k1, head, ch.low.steps);
            lemma_emitted_trans(i0, k1, pre, head + ch.low.steps, el.steps);
            lemma_consts_trans(c0, c_head, d1, x.consts + t.consts, ch.low.consts);
            lemma_consts_trans(c0, d1, constants@, x.consts + t.consts + ch.low.consts, el.consts);
        }
        let end_pos = instructions.len();
        proof {
            lemma_elifs_ends_range(ch_env, *stmt, nb, ch_base);
            assert forall|m: int| 0 <= m < ends@.len() implies i0.len() <= #[trigger] ends@[m]
                < pre.len() by {
                if m >= ends0.len() {
                    assert(ends@[ends0.len() + (m - ends0.len())] as int == ch.ends[m - ends0.len()]);
                }
            }
            assert forall|m: int| 0 <= m < ends@.len() implies ends@[m] as int == #[trigger] (ends0
                + ch.ends)[m] by {
                if m >= ends0.len() {
                    assert(ends@[ends0.len() + (m - ends0.len())] as int == ch.ends[m - ends0.len()]);
                }
            }
        }
        patch_jumps(instructions, &ends, end_pos, *span);
        let ghost before = self.env();
        self.symbols.pop();
        proof {
            assert(self.env() =~= exited(before));
            let all = head + ch.low.steps + el.steps;
            lemma_patch(i0, pre, instructions@, all, ends@, ends0 + ch.ends, end_pos, *span);
        }
        Ok(())
    }

    /// Lowers the `else if` branches of a conditional (see
    /// [`lower_elifs`]), recording the positions of their jumps to the end
    /// after those already in `ends`.
    fn generate_elifs_ir(
        &mut self,
        stmt: &Stmt,
        else_if_branches: &Vec<(Expr, Vec<Stmt>)>,
        span: &Span,
        ends: &mut Vec<usize>,
        instructions: &mut Vec<Instruction>,
        constants: &mut Vec<ConstValue>,
    ) -> (r: Result<(), IrGenError>)
        requires
            *stmt is If,
            stmt->else_if_branches == *else_if_branches,
            stmt->If_span == *span,
            old(self).wf(),
            old(self).next_temp + elifs_temps(*stmt, else_if_branches@.len() as int) <= usize::MAX,
            elifs_fstrings_foldable(*stmt, else_if_branches@.len() as int),
        ensures
            final(self).wf(),
            final(self).next_temp <= old(self).next_temp + elifs_temps(
                *stmt,
                else_if_branches@.len() as int,
            ),
            match lower_elifs(
                old(self).env(),
                *stmt,
                else_if_branches@.len() as int,
                old(instructions)@.len() as int,
            ) {
                Ok(ch) => {
                    &&& r is Ok
                    &&& emitted(old(instructions)@, final(instructions)@, ch.low.steps)
                    &&& consts_emitted(old(constants)@, final(constants)@, ch.low.consts)
                    &&& final(self).env() == ch.low.env
                    &&& final(ends)@.len() == old(ends)@.len() + ch.ends.len()
                    &&& forall|m: int| 0 <= m < old(ends)@.len() ==> #[trigger] final(ends)@[m] == old(ends)@[m]
                    &&& forall|m: int|
                        0 <= m < ch.ends.len() ==> final(ends)@[old(ends)@.len() + m] as int == #[trigger] ch.ends[m]
                },
                Err(f) => r matches Err(e) && failure_of(e) == f,
            },
        decreases stmt, 0int,
    {
        let ghost ch_env = self.env();
        let ghost hb = instructions@;
        let ghost c_head = constants@;
        let ghost ch_base = hb.len() as int;
        let ghost e0 = ends@;
        let ghost nb = else_if_branches@.len() as int;
        proof {
            lemma_elifs_temps_mono(*stmt, 0, nb);
        }
        let mut k: usize = 0;
        while k < else_if_branches.len()
            invariant
                k <= nb,
                nb == else_if_branches@.len(),
                *stmt is If,
                stmt->else_if_branches == *else_if_branches,
                stmt->If_span == *span,
                self.wf(),
                ch_env == old(self).env(),
                hb == old(instructions)@,
                c_head == old(constants)@,
                ch_base == hb.len(),
                e0 == old(ends)@,
                lower_elifs(ch_env, *stmt, k as int, ch_base) is Ok,
                emitted(hb, instructions@, lower_elifs(ch_env, *stmt, k as int, ch_base)->Ok_0.low.steps),
                consts_emitted(
                    c_head,
                    constants@,
                    lower_elifs(ch_env, *stmt, k as int, ch_base)->Ok_0.low.consts,
                ),
                self.env() == lower_elifs(ch_env, *stmt, k as int, ch_base)->Ok_0.low.env,
                ends@.len() == e0.len() + lower_elifs(ch_env, *stmt, k as int, ch_base)->Ok_0.ends.len(),
                forall|m: int| 0 <= m < e0.len() ==> #[trigger] ends@[m] == e0[m],
                forall|m: int|
                    0 <= m < lower_elifs(ch_env, *stmt, k as int, ch_base)->Ok_0.ends.len()
                        ==> ends@[e0.len() + m] as int == #[trigger] lower_elifs(
                        ch_env,
                        *stmt,
                        k as int,
                        ch_base,
                    )->Ok_0.ends[m],
                self.next_temp <= ch_env.next_temp + elifs_temps(*stmt, k as int),
                ch_env.next_temp + elifs_temps(*stmt, nb) <= usize::MAX,
                elifs_fstrings_foldable(*stmt, nb),
            decreases nb - k,
        {
            let ghost prev = lower_elifs(ch_env, *stmt, k as int, ch_base)->Ok_0;
            let ghost j1 = instructions@;
            let ghost d1 = constants@;
            proof {
                lemma_if_parts_smaller(*stmt, k as int);
                lemma_elifs_prefix(*stmt, nb, k as int);
                lemma_elifs_temps_mono(*stmt, k + 1, nb);
            }
            let branch = &else_if_branches[k];
            let ci = self.next_temp_reg();
            proof {
                assert(self.env() =~= bump(prev.low.env));
            }
            match self.generate_expr_ir(&branch.0, ci, instructions, constants) {
                Err(e) => {
                    proof {
                        lemma_elifs_err(ch_env, *stmt, ch_base, k + 1, nb);
                    }
                    return Err(e);
                },
                Ok(()) => {},
            }
            let ghost xk = lower_expr(bump(prev.low.env), branch.0, ci as int, j1.len() as int)->Ok_0;
            let ghost j2 = instructions@;
            let ghost d2 = constants@;
            let jk = instructions.len();
            instructions.push(Instruction::Jmp { target: 0, span: *span });
            match self.generate_block_ir(&branch.1, instructions, constants) {
                Err(e) => {
                    proof {
                        lemma_elifs_err(ch_env, *stmt, ch_base, k + 1, nb);
                    }
                    return Err(e);
                },
                Ok(()) => {},
            }
            let ghost bk = lower_block(xk.env, branch.1@, jk + 1)->Ok_0;
            let ghost j3 = instructions@;
            let idx = instructions.len();
            instructions.push(Instruction::Jmp { target: 0, span: *span });
            ends.push(idx);
            let after = instructions.len();
            instructions.set(
                jk,
                Instruction::JmpIfNot { cond: Operand::Local(ci), target: after, span: *span },
            );
            proof {
                lemma_if_head(j1, j2, j3, instructions@, xk.steps, bk.steps, ci, after, *span, true);
                lemma_emitted_trans(
                    hb,
                    j1,
                    instructions@,
                    prev.low.steps,
                    xk.steps + seq![
                        Step::JumpIfNot { cond: ci as int, target: after as int, span: *span },
                    ] + bk.steps + seq![Step::Jump { target: 0, span: *span }],
                );
                lemma_consts_trans(d1, d2, constants@, xk.consts, bk.consts);
                lemma_consts_trans(c_head, d1, constants@, prev.low.consts, xk.consts + bk.consts);
                assert(prev.low.steps + (xk.steps + seq![
                    Step::JumpIfNot { cond: ci as int, target: after as int, span: *span },
                ] + bk.steps + seq![Step::Jump { target: 0, span: *span }]) =~= prev.low.steps
                    + xk.steps + seq![
                    Step::JumpIfNot { cond: ci as int, target: after as int, span: *span },
                ] + bk.steps + seq![Step::Jump { target: 0, span: *span }]);
                assert(prev.low.consts + (xk.consts + bk.consts) =~= prev.low.consts + xk.consts
                    + bk.consts);
            }
            k = k + 1;
        }
        Ok(())
    }

    /// Lowers a statement of a function body (see [`lower_stmt`]).
    pub fn generate_local_stmt_ir(
        &mut self,
        stmt: &Stmt,
        instructions: &mut Vec<Instruction>,
        constants: &mut Vec<ConstValue>,
    ) -> (r: Result<(), IrGenError>)
        requires
            old(self).wf(),
            old(self).next_temp + stmt_temps(*stmt) <= usize::MAX,
            stmt_fstrings_foldable(*stmt),
        ensures
            final(self).wf(),
            final(self).next_temp <= old(self).next_temp + stmt_temps(*stmt),
            match lower_stmt(old(self).env(), *stmt, old(instructions)@.len() as int) {
                Ok(low) => {
                    &&& r is Ok
                    &&& emitted(old(instructions)@, final(instructions)@, low.steps)
                    &&& consts_emitted(old(constants)@, final(constants)@, low.consts)
                    &&& final(self).env() == low.env
                },
                Err(f) => r matches Err(e) && failure_of(e) == f,
            },
        decreases stmt, 2int,
    {
        let ghost env0 = self.env();
        let ghost i0 = instructions@;
        match stmt {
            Stmt::If { condition, then_branch, else_if_branches, else_branch, span } => self.generate_if_stmt_ir(
                stmt,
                condition,
                then_branch,
                else_if_branches,
                else_branch,
                span,
                instructions,
                constants,
            ),
            Stmt::Expr(expr) => {
                let result_reg = self.next_temp_reg();
                proof {
                    assert(self.env() =~= bump(env0));
                }
                self.generate_expr_ir(expr, result_reg, instructions, constants)
            },
            Stmt::Assign { target, value, span } => {
                let name = match target {
                    Expr::Var(n, _) => n,
                    _ => {
                        return Err(IrGenError::UnsupportedTarget);
                    },
                };
                let var_idx = match self.lookup_local(name.as_str()) {
                    Some(idx) => idx,
                    None => {
                        let idx = self.next_temp_reg();
                        proof {
                            assert(self.env() =~= bump(env0));
                        }
                        self.register_local(name, idx);
                        idx
                    },
                };
                match value {
                    Some(expr) => self.generate_expr_ir(expr, var_idx, instructions, constants),
                    None => {
                        instructions.push(
                            Instruction::Load {
                                dst: Operand::Local(var_idx),
                                src: Operand::Const(ConstValue::Int(0)),
                                span: *span,
                            },
                        );
                        Ok(())
                    },
                }
            },
            Stmt::Return(value, span) => match value {
                Some(expr) => {
                    let result_reg = self.next_temp_reg();
                    proof {
                        assert(self.env() =~= bump(env0));
                    }
                    match self.generate_expr_ir(expr, result_reg, instructions, constants) {
                        Err(e) => {
                            return Err(e);
                        },
                        Ok(()) => {},
                    }
                    let ret = Instruction::Ret { value: Some(Operand::Local(result_reg)), span: *span };
                    proof {
                        let x = lower_expr(bump(env0), *expr, result_reg as int, i0.len() as int)->Ok_0;
                        lemma_emitted_push(i0, instructions@, x.steps, ret);
                    }
                    instructions.push(ret);
                    Ok(())
                },
                None => {
                    instructions.push(Instruction::Ret { value: None, span: *span });
                    Ok(())
                },
            },
            Stmt::Use => {
                proof {
                    assert(instructions@ =~= i0 + Seq::<Instruction>::empty());
                }
                Ok(())
            },
        }
    }

    /// Lowers an interpolated string (see [`lower_expr`]): its folded text
    /// where it folds, else a call of the format function on a format
    /// string and the interpolated values.
    fn generate_fstring_ir(
        &mut self,
        expr: &Expr,
        segments: &Vec<FStringSegment>,
        span: &Span,
        result_reg: usize,
        instructions: &mut Vec<Instruction>,
        constants: &mut Vec<ConstValue>,
    ) -> (r: Result<(), IrGenError>)
        requires
            *expr == (Expr::FString { segments: *segments, span: *span }),
            old(self).wf(),
            old(self).next_temp + 2 * expr_size(*expr) <= usize::MAX,
            fstrings_foldable(*expr),
        ensures
            final(self).wf(),
            final(self).next_temp <= old(self).next_temp + 2 * expr_size(*expr),
            match lower_expr(
                old(self).env(),
                *expr,
                result_reg as int,
                old(instructions)@.len() as int,
            ) {
                Ok(low) => {
                    &&& r is Ok
                    &&& emitted(old(instructions)@, final(instructions)@, low.steps)
                    &&& consts_emitted(old(constants)@, final(constants)@, low.consts)
                    &&& final(self).env() == low.env
                },
                Err(f) => r matches Err(e) && failure_of(e) == f,
            },
        decreases expr, 0int,
    {
        let ghost env0 = self.env();
        let ghost i0 = instructions@;
        let ghost c0 = constants@;
        match eval_const_expr(expr) {
            Some(const_val) => {
                constants.push(copy_const(&const_val));
                instructions.push(
                    Instruction::Load {
                        dst: Operand::Local(result_reg),
                        src: Operand::Const(const_val),
                        span: *span,
                    },
                );
                return Ok(());
            },
            None => {},
        }
        let ghost n = segments@.len() as int;
        let ghost base = i0.len() as int;
        let mut format_str = String::new();
        let mut arg_regs: Vec<Operand> = Vec::new();
        let mut i: usize = 0;
        proof {
            lemma_segments_size_mono(*expr, 0, n);
        }
        while i < segments.len()
            invariant
                *expr == (Expr::FString { segments: *segments, span: *span }),
                folded(*expr) is None,
                env0 == old(self).env(),
                i0 == old(instructions)@,
                c0 == old(constants)@,
                n == segments@.len(),
                base == i0.len(),
                i <= n,
                self.wf(),
                fstrings_foldable(*expr),
                lower_segments(env0, *expr, i as int, base) is Ok,
                emitted(
                    i0,
                    instructions@,
                    lower_segments(env0, *expr, i as int, base)->Ok_0.low.steps,
                ),
                consts_emitted(
                    c0,
                    constants@,
                    lower_segments(env0, *expr, i as int, base)->Ok_0.low.consts,
                ),
                self.env() == lower_segments(env0, *expr, i as int, base)->Ok_0.low.env,
                format_str@ == lower_segments(env0, *expr, i as int, base)->Ok_0.text,
                arg_regs@ == lower_segments(env0, *expr, i as int, base)->Ok_0.args,
                arg_regs@.len() <= i,
                segments_size(*expr, i as int) <= segments_size(*expr, n),
                self.next_temp + 2 * (segments_size(*expr, n) - segments_size(*expr, i as int))
                    + 1 <= usize::MAX,
                self.next_temp <= env0.next_temp + 2 * segments_size(*expr, i as int),
            decreases n - i,
        {
            let ghost prev = lower_segments(env0, *expr, i as int, base)->Ok_0;
            let ghost i1 = instructions@;
            let ghost c1 = constants@;
            proof {
                lemma_segments_size_mono(*expr, i + 1, n);
            }
            match &segments[i] {
                FStringSegment::Text(t) => {
                    format_str.append(t.as_str());
                },
                FStringSegment::Interpolation { expr: inner, format_spec } => {
                    proof {
                        lemma_segment_expr_smaller(*expr, i as int);
                        lemma_fstrings_prefix(*expr, n, i as int);
                        reveal_strlit("{");
                        reveal_strlit("}");
                        reveal_strlit(":");
                    }
                    format_str.append("{");
                    push_decimal(&mut format_str, arg_regs.len() as u128);
                    match format_spec {
                        Some(f) => {
                            format_str.append(":");
                            format_str.append(f.as_str());
                        },
                        None => {},
                    }
                    format_str.append("}");
                    proof {
                        assert(format_str@ =~= prev.text + placeholder(
                            prev.args.len(),
                            *format_spec,
                        ));
                    }
                    let ghost before_temp = self.next_temp;
                    let arg_reg = self.next_temp_reg();
                    proof {
                        assert(self.env() =~= bump(prev.low.env));
                        assert(segments@[i as int] matches FStringSegment::Interpolation { expr: e2, .. }
                            && e2 == *inner);
                        assert(segments_size(*expr, i + 1) == segments_size(*expr, i as int) + 1
                            + expr_size(**inner));
                    }
                    match self.generate_expr_ir(inner, arg_reg, instructions, constants) {
                        Err(e) => {
                            proof {
                                assert(lower_expr(
                                    bump(prev.low.env),
                                    **inner,
                                    arg_reg as int,
                                    i1.len() as int,
                                ) is Err);
                                assert(lower_segments(env0, *expr, i + 1, base) is Err);
                                lemma_segments_err(env0, *expr, base, i + 1, n);
                                assert(self.next_temp <= before_temp + 1 + 2 * expr_size(**inner));
                            }
                            return Err(e);
                        },
                        Ok(()) => {},
                    }
                    proof {
                        let x = lower_expr(
                            bump(prev.low.env),
                            **inner,
                            arg_reg as int,
                            i1.len() as int,
                        )->Ok_0;
                        lemma_emitted_trans(i0, i1, instructions@, prev.low.steps, x.steps);
                        lemma_consts_trans(c0, c1, constants@, prev.low.consts, x.consts);
                    }
                    arg_regs.push(Operand::Local(arg_reg));
                },
            }
            i = i + 1;
        }
        let ghost p = lower_segments(env0, *expr, n, base)->Ok_0;
        let ghost i1 = instructions@;
        let fmt_reg = self.next_temp_reg();
        constants.push(ConstValue::String(format_str.clone()));
        let load = Instruction::Load {
            dst: Operand::Local(fmt_reg),
            src: Operand::Const(ConstValue::String(format_str)),
            span: *span,
        };
        let mut call_args: Vec<Operand> = Vec::new();
        call_args.push(Operand::Local(fmt_reg));
        call_args.append(&mut arg_regs);
        let call = Instruction::Call {
            dst: Some(Operand::Local(result_reg)),
            func: Operand::Const(ConstValue::String(String::from_str("std.string.format"))),
            args: call_args,
            def: None,
            span: *span,
        };
        proof {
            lemma_emitted_push(i0, i1, p.low.steps, load);
            lemma_emitted_push(i0, i1.push(load), p.low.steps.push(step_of(load)), call);
            assert(p.low.steps.push(step_of(load)).push(step_of(call)) =~= p.low.steps + seq![step_of(load), step_of(call)]);
            assert(call_args@ =~= seq![Operand::Local(fmt_reg)] + p.args);
        }
        instructions.push(load);
        instructions.push(call);
        proof {
            assert(self.env() =~= bump(p.low.env));
        }
        Ok(())
    }

    /// Lowers `expr` into local `result_reg`, appending its instructions to
    /// `instructions` and its literals to `constants` (see [`lower_expr`]).
    #[verifier::rlimit(40)]
    pub fn generate_expr_ir(
        &mut self,
        expr: &Expr,
        result_reg: usize,
        instructions: &mut Vec<Instruction>,
        constants: &mut Vec<ConstValue>,
    ) -> (r: Result<(), IrGenError>)
        requires
            old(self).wf(),
            old(self).next_temp + 2 * expr_size(*expr) <= usize::MAX,
            fstrings_foldable(*expr),
        ensures
            final(self).wf(),
            final(self).next_temp <= old(self).next_temp + 2 * expr_size(*expr),
            match lower_expr(
                old(self).env(),
                *expr,
                result_reg as int,
                old(instructions)@.len() as int,
            ) {
                Ok(low) => {
                    &&& r is Ok
                    &&& emitted(old(instructions)@, final(instructions)@, low.steps)
                    &&& consts_emitted(old(constants)@, final(constants)@, low.consts)
                    &&& final(self).env() == low.env
                },
                Err(f) => r matches Err(e) && failure_of(e) == f,
            },
        decreases expr, 1int,
    {
        let ghost env0 = self.env();
        let ghost i0 = instructions@;
        let ghost c0 = constants@;
        match expr {
            Expr::Lit(literal, span) => {
                constants.push(literal_const(literal));
                instructions.push(
                    Instruction::Load {
                        dst: Operand::Local(result_reg),
                        src: Operand::Const(literal_const(literal)),
                        span: *span,
                    },
                );
                Ok(())
            },
            Expr::Var(var_name, var_span) => {
                match self.closure_captures.get(var_name.as_str()) {
                    Some(env_idx) => {
                        instructions.push(
                            Instruction::LoadUpvalue {
                                dst: Operand::Local(result_reg),
                                upvalue_idx: *env_idx,
                                span: *var_span,
                            },
                        );
                        return Ok(());
                    },
                    None => {},
                }
                match self.lookup_local(var_name.as_str()) {
                    Some(local_idx) => {
                        instructions.push(
                            Instruction::Load {
                                dst: Operand::Local(result_reg),
                                src: Operand::Local(local_idx),
                                span: *var_span,
                            },
                        );
                        return Ok(());
                    },
                    None => {},
                }
                if self.lookup_global(var_name) {
                    instructions.push(
                        Instruction::Call {
                            dst: Some(Operand::Local(result_reg)),
                            func: Operand::Const(ConstValue::String(var_name.clone())),
                            args: Vec::new(),
                            def: None,
                            span: *var_span,
                        },
                    );
                    return Ok(());
                }
                match self.use_aliases.get(var_name.as_str()) {
                    Some(qualified) => {
                        instructions.push(
                            Instruction::Call {
                                dst: Some(Operand::Local(result_reg)),
                                func: Operand::Const(ConstValue::String(qualified.clone())),
                                args: Vec::new(),
                                def: None,
                                span: *var_span,
                            },
                        );
                        return Ok(());
                    },
                    None => {},
                }
                if is_builtin_type_name(var_name) {
                    instructions.push(
                        Instruction::Load {
                            dst: Operand::Local(result_reg),
                            src: Operand::Const(ConstValue::Void),
                            span: *var_span,
                        },
                    );
                    return Ok(());
                }
                Err(IrGenError::UnresolvedVariable(var_name.clone()))
            },
            Expr::UnOp { op, expr: inner, span } => {
                let src_reg = self.next_temp_reg();
                proof {
                    assert(self.env() =~= bump(env0));
                }
                match self.generate_expr_ir(inner, src_reg, instructions, constants) {
                    Err(e) => {
                        return Err(e);
                    },
                    Ok(()) => {},
                }
                let ghost i1 = instructions@;
                let instr = match op {
                    UnOp::Neg => Instruction::Neg {
                        dst: Operand::Local(result_reg),
                        src: Operand::Local(src_reg),
                        span: *span,
                    },
                    UnOp::Not => Instruction::Not {
                        dst: Operand::Local(result_reg),
                        src: Operand::Local(src_reg),
                        span: *span,
                    },
                };
                proof {
                    let low = lower_expr(bump(env0), **inner, src_reg as int, i0.len() as int)->Ok_0;
                    lemma_emitted_push(i0, i1, low.steps, instr);
                }
                instructions.push(instr);
                Ok(())
            },
            Expr::FString { segments, span } => self.generate_fstring_ir(
                expr,
                segments,
                span,
                result_reg,
                instructions,
                constants,
            ),
            Expr::BinOp { op, left, right, span } => match op {
                BinOp::Assign => match &**left {
                    Expr::Var(var_name, _) => {
                        let local_idx = match self.lookup_local(var_name.as_str()) {
                            Some(idx) => idx,
                            None => {
                                let idx = self.next_temp_reg();
                                proof {
                                    assert(self.env() =~= bump(env0));
                                }
                                self.register_local(var_name, idx);
                                idx
                            },
                        };
                        let ghost env1 = self.env();
                        let val_reg = self.next_temp_reg();
                        proof {
                            assert(self.env() =~= bump(env1));
                        }
                        match self.generate_expr_ir(right, val_reg, instructions, constants) {
                            Err(e) => {
                                return Err(e);
                            },
                            Ok(()) => {},
                        }
                        let ghost i1 = instructions@;
                        let st = Instruction::Store {
                            dst: Operand::Local(local_idx),
                            src: Operand::Local(val_reg),
                            span: *span,
                        };
                        let ld = Instruction::Load {
                            dst: Operand::Local(result_reg),
                            src: Operand::Local(local_idx),
                            span: *span,
                        };
                        proof {
                            let low = lower_expr(bump(env1), **right, val_reg as int, i0.len() as int)->Ok_0;
                            lemma_emitted_push(i0, i1, low.steps, st);
                            lemma_emitted_push(i0, i1.push(st), low.steps.push(step_of(st)), ld);
                            assert(low.steps.push(step_of(st)).push(step_of(ld)) =~= low.steps + seq![
                                step_of(st),
                                step_of(ld),
                            ]);
                        }
                        instructions.push(st);
                        instructions.push(ld);
                        Ok(())
                    },
                    _ => {
                        proof {
                            assert(self.env() =~= env0);
                            assert(instructions@ =~= i0 + Seq::<Instruction>::empty());
                        }
                        Ok(())
                    },
                },
                BinOp::And | BinOp::Or => {
                    let is_and = match op {
                        BinOp::And => true,
                        _ => false,
                    };
                    let lhs_reg = self.next_temp_reg();
                    proof {
                        assert(self.env() =~= bump(env0));
                    }
                    match self.generate_expr_ir(left, lhs_reg, instructions, constants) {
                        Err(e) => {
                            return Err(e);
                        },
                        Ok(()) => {},
                    }
                    let ghost i1 = instructions@;
                    let ghost c1 = constants@;
                    let short_idx = instructions.len();
                    instructions.push(Instruction::Jmp { target: 0, span: *span });
                    let ghost i2 = instructions@;
                    match self.generate_expr_ir(right, result_reg, instructions, constants) {
                        Err(e) => {
                            return Err(e);
                        },
                        Ok(()) => {},
                    }
                    let ghost i3 = instructions@;
                    let end_idx = instructions.len();
                    instructions.push(Instruction::Jmp { target: 0, span: *span });
                    let sc_target = instructions.len();
                    let jump = if is_and {
                        Instruction::JmpIfNot {
                            cond: Operand::Local(lhs_reg),
                            target: sc_target,
                            span: *span,
                        }
                    } else {
                        Instruction::JmpIf {
                            cond: Operand::Local(lhs_reg),
                            target: sc_target,
                            span: *span,
                        }
                    };
                    instructions.set(short_idx, jump);
                    instructions.push(
                        Instruction::Load {
                            dst: Operand::Local(result_reg),
                            src: Operand::Const(ConstValue::Bool(!is_and)),
                            span: *span,
                        },
                    );
                    let end_target = instructions.len();
                    instructions.set(end_idx, Instruction::Jmp { target: end_target, span: *span });
                    proof {
                        let l = lower_expr(bump(env0), **left, lhs_reg as int, i0.len() as int)->Ok_0;
                        let r = lower_expr(l.env, **right, result_reg as int, i2.len() as int)->Ok_0;
                        lemma_consts_trans(c0, c1, constants@, l.consts, r.consts);
                        let steps = l.steps + seq![step_of(jump)] + r.steps + seq![
                            Step::Jump { target: end_target as int, span: *span },
                            Step::Load {
                                dst: result_reg as int,
                                src: Source::Const(ConstShape::Bool(!is_and)),
                                span: *span,
                            },
                        ];
                        let f = instructions@;
                        assert(f.len() == i0.len() + steps.len());
                        assert forall|k: int| 0 <= k < i0.len() implies #[trigger] f[k] == i0[k] by {
                            assert(f[k] == i3[k]);
                            assert(i3[k] == i2[k]);
                            assert(i2[k] == i1[k]);
                        }
                        assert forall|k: int| i0.len() <= k < f.len() implies step_of(#[trigger] f[k])
                            == steps[k - i0.len()] by {
                            if k < short_idx {
                                assert(f[k] == i3[k]);
                                assert(i3[k] == i2[k]);
                                assert(i2[k] == i1[k]);
                            } else if k == short_idx {
                            } else if k < end_idx {
                                assert(f[k] == i3[k]);
                            } else if k == end_idx {
                            } else {
                            }
                        }
                    }
                    Ok(())
                },
                _ => {
                    let left_reg = self.next_temp_reg();
                    let right_reg = self.next_temp_reg();
                    proof {
                        assert(self.env() =~= bump(bump(env0)));
                    }
                    match self.generate_expr_ir(left, left_reg, instructions, constants) {
                        Err(e) => {
                            return Err(e);
                        },
                        Ok(()) => {},
                    }
                    let ghost i1 = instructions@;
                    let ghost c1 = constants@;
                    match self.generate_expr_ir(right, right_reg, instructions, constants) {
                        Err(e) => {
                            return Err(e);
                        },
                        Ok(()) => {},
                    }
                    let ghost i2 = instructions@;
                    match binary_instr(*op, result_reg, left_reg, right_reg, *span) {
                        Some(instr) => {
                            proof {
                                let l = lower_expr(bump(bump(env0)), **left, left_reg as int, i0.len() as int)->Ok_0;
                                let r = lower_expr(l.env, **right, right_reg as int, i1.len() as int)->Ok_0;
                                lemma_emitted_trans(i0, i1, i2, l.steps, r.steps);
                                lemma_consts_trans(c0, c1, constants@, l.consts, r.consts);
                                lemma_emitted_push(i0, i2, l.steps + r.steps, instr);
                            }
                            instructions.push(instr);
                            Ok(())
                        },
                        None => Err(IrGenError::UnhandledOperator(*op)),
                    }
                },
            },
        }
    }
}

/// Appending instructions for `s1` and then one for `s` appends
/// instructions for `s1` followed by `s`.
proof fn lemma_emitted_push(a: Seq<Instruction>, b: Seq<Instruction>, s1: Seq<Step>, i: Instruction)
    requires
        emitted(a, b, s1),
    ensures
        emitted(a, b.push(i), s1.push(step_of(i))),
{
    let c = b.push(i);
    assert forall|k: int| a.len() <= k < c.len() implies step_of(#[trigger] c[k]) == s1.push(
        step_of(i),
    )[k - a.len()] by {
        if k < b.len() {
            assert(c[k] == b[k]);
        }
    }
}

/// The constant a constant value's copy stands for.
fn copy_const(c: &ConstValue) -> (r: ConstValue)
    ensures
        shape_of(r) == shape_of(*c),
{
    match c {
        ConstValue::Void => ConstValue::Void,
        ConstValue::Bool(b) => ConstValue::Bool(*b),
        ConstValue::Int(n) => ConstValue::Int(*n),
        ConstValue::Float(f) => ConstValue::Float(*f),
        ConstValue::Char(ch) => ConstValue::Char(*ch),
        ConstValue::String(t) => ConstValue::String(t.clone()),
        ConstValue::Bytes(b) => ConstValue::Bytes(b.clone()),
        ConstValue::LibraryRef { mechanism, lib } => ConstValue::LibraryRef {
            mechanism: mechanism.clone(),
            lib: lib.clone(),
        },
        ConstValue::ExternRef { mechanism, lib, symbol } => ConstValue::ExternRef {
            mechanism: mechanism.clone(),
            lib: lib.clone(),
            symbol: symbol.clone(),
        },
    }
}

/// The interpolations among the first `n` segments satisfying
/// [`fstrings_foldable`], so do those among the first `i + 1`.
proof fn lemma_fstrings_prefix(e: Expr, n: int, i: int)
    requires
        segments_fstrings_foldable(e, n),
        e is FString,
        n <= e->segments@.len(),
        0 <= i < n,
    ensures
        segments_fstrings_foldable(e, i + 1),
    decreases n,
{
    if i + 1 < n {
        lemma_fstrings_prefix(e, n - 1, i);
    }
}

/// The sizes of segment prefixes grow with the prefix.
proof fn lemma_segments_size_mono(e: Expr, i: int, n: int)
    requires
        e is FString,
        0 <= i <= n <= e->segments@.len(),
    ensures
        segments_size(e, i) <= segments_size(e, n),
    decreases n - i,
{
    if i < n {
        lemma_segments_size_mono(e, i + 1, n);
    }
}

/// Once lowering a prefix of the segments fails, lowering any longer
/// prefix fails the same way.
proof fn lemma_segments_err(env: LowerEnv, e: Expr, base: int, j: int, n: int)
    requires
        1 <= j <= n,
        lower_segments(env, e, j, base) is Err,
        e matches Expr::FString { segments, .. } && n == segments@.len(),
    ensures
        lower_segments(env, e, n, base) == lower_segments(env, e, j, base),
    decreases n - j,
{
    if j < n {
        lemma_segments_err(env, e, base, j + 1, n);
    }
}

/// The temporaries of body prefixes grow with the prefix.
proof fn lemma_body_size_mono(body: Seq<Stmt>, i: int, n: int)
    requires
        0 <= i <= n <= body.len(),
    ensures
        body_size(body, i) <= body_size(body, n),
    decreases n - i,
{
    if i < n {
        lemma_body_size_mono(body, i + 1, n);
    }
}

/// The first `n` statements satisfying [`stmt_fstrings_foldable`], so do
/// the first `i + 1`.
proof fn lemma_body_foldable_prefix(body: Seq<Stmt>, n: int, i: int)
    requires
        body_fstrings_foldable(body, n),
        0 <= i < n <= body.len(),
    ensures
        body_fstrings_foldable(body, i + 1),
    decreases n,
{
    if i + 1 < n {
        lemma_body_foldable_prefix(body, n - 1, i);
    }
}

/// Once lowering a prefix of a body fails, lowering any longer prefix fails
/// the same way.
proof fn lemma_body_err(env: LowerEnv, body: Seq<Stmt>, base: int, j: int, n: int)
    requires
        1 <= j <= n <= body.len(),
        lower_body(env, body, j, base) is Err,
    ensures
        lower_body(env, body, n, base) == lower_body(env, body, j, base),
    decreases n - j,
{
    if j < n {
        lemma_body_err(env, body, base, j + 1, n);
    }
}

/// The head of a conditional: the condition's instructions, the jump past
/// the `then` block (written over a placeholder once the block is
/// emitted), the block, and a placeholder jump to the end when other
/// branches follow.
proof fn lemma_if_head(
    i0: Seq<Instruction>,
    i1: Seq<Instruction>,
    i3: Seq<Instruction>,
    f: Seq<Instruction>,
    xs: Seq<Step>,
    ts: Seq<Step>,
    cond_reg: usize,
    t1: usize,
    span: Span,
    rest: bool,
)
    requires
        emitted(i0, i1, xs),
        emitted(i1.push(Instruction::Jmp { target: 0, span }), i3, ts),
        f == (if rest {
            i3.push(Instruction::Jmp { target: 0, span })
        } else {
            i3
        }).update(
            i1.len() as int,
            Instruction::JmpIfNot { cond: Operand::Local(cond_reg), target: t1, span },
        ),
    ensures
        emitted(
            i0,
            f,
            xs + seq![Step::JumpIfNot { cond: cond_reg as int, target: t1 as int, span }] + ts + if rest {
                seq![Step::Jump { target: 0, span }]
            } else {
                Seq::<Step>::empty()
            },
        ),
{
    let i2 = i1.push(Instruction::Jmp { target: 0, span });
    let head = xs + seq![Step::JumpIfNot { cond: cond_reg as int, target: t1 as int, span }] + ts
        + if rest {
        seq![Step::Jump { target: 0, span }]
    } else {
        Seq::<Step>::empty()
    };
    let jn = i1.len() as int;
    assert(f.len() == i0.len() + head.len());
    assert forall|k: int| 0 <= k < i0.len() implies #[trigger] f[k] == i0[k] by {
        assert(i3[k] == i2[k]);
        assert(i2[k] == i1[k]);
    }
    assert forall|k: int| i0.len() <= k < f.len() implies step_of(#[trigger] f[k]) == head[k
        - i0.len()] by {
        if k < jn {
            assert(i3[k] == i2[k]);
            assert(i2[k] == i1[k]);
        } else if k == jn {
        } else if k < i3.len() {
        } else {
        }
    }
}

/// The first `n` `else if` branches satisfying
/// [`elifs_fstrings_foldable`], so do the first `i + 1`.
proof fn lemma_elifs_prefix(s: Stmt, n: int, i: int)
    requires
        s is If,
        elifs_fstrings_foldable(s, n),
        0 <= i < n <= s->else_if_branches@.len(),
    ensures
        elifs_fstrings_foldable(s, i + 1),
    decreases n,
{
    if i + 1 < n {
        lemma_elifs_prefix(s, n - 1, i);
    }
}

/// The temporaries of `else if` prefixes grow with the prefix.
proof fn lemma_elifs_temps_mono(s: Stmt, i: int, n: int)
    requires
        s is If,
        0 <= i <= n <= s->else_if_branches@.len(),
    ensures
        elifs_temps(s, i) <= elifs_temps(s, n),
    decreases n - i,
{
    if i < n {
        lemma_elifs_temps_mono(s, i + 1, n);
    }
}

/// Once lowering a prefix of the `else if` branches fails, lowering any
/// longer prefix fails the same way.
proof fn lemma_elifs_err(env: LowerEnv, s: Stmt, base: int, j: int, n: int)
    requires
        s is If,
        1 <= j <= n <= s->else_if_branches@.len(),
        lower_elifs(env, s, j, base) is Err,
    ensures
        lower_elifs(env, s, n, base) == lower_elifs(env, s, j, base),
    decreases n - j,
{
    if j < n {
        lemma_elifs_err(env, s, base, j + 1, n);
    }
}

/// Makes the instructions at the positions `ends` jumps to `end`.
fn patch_jumps(instructions: &mut Vec<Instruction>, ends: &Vec<usize>, end: usize, span: Span)
    requires
        forall|m: int| 0 <= m < ends@.len() ==> #[trigger] ends@[m] < old(instructions)@.len(),
    ensures
        final(instructions)@.len() == old(instructions)@.len(),
        forall|k: int|
            0 <= k < old(instructions)@.len() ==> #[trigger] final(instructions)@[k] == if exists|m: int|
                0 <= m < ends@.len() && ends@[m] == k {
                Instruction::Jmp { target: end, span }
            } else {
                old(instructions)@[k]
            },
{
    let mut m: usize = 0;
    while m < ends.len()
        invariant
            m <= ends@.len(),
            instructions@.len() == old(instructions)@.len(),
            forall|q: int| 0 <= q < ends@.len() ==> #[trigger] ends@[q] < old(instructions)@.len(),
            forall|k: int|
                0 <= k < old(instructions)@.len() ==> #[trigger] instructions@[k] == if exists|q: int|
                    0 <= q < m && ends@[q] == k {
                    Instruction::Jmp { target: end, span }
                } else {
                    old(instructions)@[k]
                },
        decreases ends@.len() - m,
    {
        let at = ends[m];
        instructions.set(at, Instruction::Jmp { target: end, span });
        proof {
            assert forall|k: int| 0 <= k < old(instructions)@.len() implies #[trigger] instructions@[k]
                == if exists|q: int| 0 <= q < m + 1 && ends@[q] == k {
                Instruction::Jmp { target: end, span }
            } else {
                old(instructions)@[k]
            } by {
                if k == at {
                    assert(0 <= m < m + 1 && ends@[m as int] == k);
                } else {
                    if exists|q: int| 0 <= q < m + 1 && ends@[q] == k {
                        let q = choose|q: int| 0 <= q < m + 1 && ends@[q] == k;
                        assert(q < m);
                    }
                }
            }
        }
        m = m + 1;
    }
}

/// Patching the recorded positions of `pre` (which stands for `all` after
/// `i0`) into jumps to the end gives the steps of [`patch_ends`].
proof fn lemma_patch(
    i0: Seq<Instruction>,
    pre: Seq<Instruction>,
    f: Seq<Instruction>,
    all: Seq<Step>,
    ends: Seq<usize>,
    spec_ends: Seq<int>,
    end: usize,
    span: Span,
)
    requires
        emitted(i0, pre, all),
        end == pre.len(),
        ends.len() == spec_ends.len(),
        forall|m: int| 0 <= m < ends.len() ==> ends[m] as int == spec_ends[m],
        forall|m: int| 0 <= m < ends.len() ==> i0.len() <= #[trigger] ends[m] < pre.len(),
        f.len() == pre.len(),
        forall|k: int|
            0 <= k < pre.len() ==> #[trigger] f[k] == if exists|m: int| 0 <= m < ends.len() && ends[m] == k {
                Instruction::Jmp { target: end, span }
            } else {
                pre[k]
            },
    ensures
        emitted(i0, f, patch_ends(all, spec_ends, i0.len() as int, end as int, span)),
{
    let b = i0.len() as int;
    let p = patch_ends(all, spec_ends, b, end as int, span);
    assert forall|k: int| 0 <= k < i0.len() implies #[trigger] f[k] == i0[k] by {
        if exists|m: int| 0 <= m < ends.len() && ends[m] == k {
            let m = choose|m: int| 0 <= m < ends.len() && ends[m] == k;
            assert(i0.len() <= ends[m]);
        }
        assert(pre[k] == i0[k]);
    }
    assert forall|k: int| i0.len() <= k < f.len() implies step_of(#[trigger] f[k]) == p[k - b] by {
        if exists|m: int| 0 <= m < ends.len() && ends[m] == k {
            let m = choose|m: int| 0 <= m < ends.len() && ends[m] == k;
            assert(spec_ends[m] == b + (k - b));
            assert(spec_ends.contains(b + (k - b)));
        } else {
            if spec_ends.contains(b + (k - b)) {
                let m = choose|m: int| 0 <= m < spec_ends.len() && spec_ends[m] == b + (k - b);
                assert(ends[m] == k);
            }
            assert(step_of(pre[k]) == all[k - b]);
        }
    }
}

/// The jumps to the end recorded for `else if` branches lie among the
/// instructions those branches emitted.
proof fn lemma_elifs_ends_range(env: LowerEnv, s: Stmt, k: int, base: int)
    requires
        lower_elifs(env, s, k, base) is Ok,
    ensures
        forall|m: int|
            0 <= m < lower_elifs(env, s, k, base)->Ok_0.ends.len() ==> base <= #[trigger] lower_elifs(
                env,
                s,
                k,
                base,
            )->Ok_0.ends[m] < base + lower_elifs(env, s, k, base)->Ok_0.low.steps.len(),
    decreases k,
{
    if let Stmt::If { else_if_branches, .. } = s {
        if 0 < k <= else_if_branches@.len() {
            lemma_elifs_ends_range(env, s, k - 1, base);
        }
    }
}

/// Appending for `s1` and then for `s2` appends for `s1 + s2`.
proof fn lemma_emitted_trans(
    a: Seq<Instruction>,
    b: Seq<Instruction>,
    c: Seq<Instruction>,
    s1: Seq<Step>,
    s2: Seq<Step>,
)
    requires
        emitted(a, b, s1),
        emitted(b, c, s2),
    ensures
        emitted(a, c, s1 + s2),
{
    assert forall|k: int| 0 <= k < a.len() implies #[trigger] c[k] == a[k] by {
        assert(c[k] == b[k]);
    }
    assert forall|k: int| a.len() <= k < c.len() implies step_of(#[trigger] c[k]) == (s1 + s2)[k
        - a.len()] by {
        if k < b.len() {
            assert(c[k] == b[k]);
        }
    }
}

/// Adding constants of shapes `s1` and then `s2` adds `s1 + s2`.
proof fn lemma_consts_trans(
    a: Seq<ConstValue>,
    b: Seq<ConstValue>,
    c: Seq<ConstValue>,
    s1: Seq<ConstShape>,
    s2: Seq<ConstShape>,
)
    requires
        consts_emitted(a, b, s1),
        consts_emitted(b, c, s2),
    ensures
        consts_emitted(a, c, s1 + s2),
{
    assert forall|k: int| 0 <= k < a.len() implies #[trigger] c[k] == a[k] by {
        assert(c[k] == b[k]);
    }
    assert forall|k: int| a.len() <= k < c.len() implies shape_of(#[trigger] c[k]) == (s1 + s2)[k
        - a.len()] by {
        if k < b.len() {
            assert(c[k] == b[k]);
        }
    }
}

/// The instruction of a binary operator over locals; none for the
/// operators that have no single instruction (`and`, `or`, assignment,
/// ranges).
fn binary_instr(op: BinOp, dst: usize, lhs: usize, rhs: usize, span: Span) -> (r: Option<Instruction>)
    ensures
        match r {
            Some(i) => step_of(i) == binary_step(op, dst, lhs, rhs, span),
            None => op == BinOp::Range || op == BinOp::And || op == BinOp::Or || op == BinOp::Assign,
        },
{
    let d = Operand::Local(dst);
    let l = Operand::Local(lhs);
    let r = Operand::Local(rhs);
    match op {
        BinOp::Add => Some(Instruction::Add { dst: d, lhs: l, rhs: r, span }),
        BinOp::Sub => Some(Instruction::Sub { dst: d, lhs: l, rhs: r, span }),
        BinOp::Mul => Some(Instruction::Mul { dst: d, lhs: l, rhs: r, span }),
        BinOp::Div => Some(Instruction::Div { dst: d, lhs: l, rhs: r, span }),
        BinOp::Mod => Some(Instruction::Mod { dst: d, lhs: l, rhs: r, span }),
        BinOp::BitAnd => Some(Instruction::And { dst: d, lhs: l, rhs: r, span }),
        BinOp::BitOr => Some(Instruction::Or { dst: d, lhs: l, rhs: r, span }),
        BinOp::BitXor => Some(Instruction::Xor { dst: d, lhs: l, rhs: r, span }),
        BinOp::Shl => Some(Instruction::Shl { dst: d, lhs: l, rhs: r, span }),
        BinOp::Shr => Some(Instruction::Shr { dst: d, lhs: l, rhs: r, span }),
        BinOp::Eq => Some(Instruction::Eq { dst: d, lhs: l, rhs: r, span }),
        BinOp::Neq => Some(Instruction::Ne { dst: d, lhs: l, rhs: r, span }),
        BinOp::Lt => Some(Instruction::Lt { dst: d, lhs: l, rhs: r, span }),
        BinOp::Le => Some(Instruction::Le { dst: d, lhs: l, rhs: r, span }),
        BinOp::Gt => Some(Instruction::Gt { dst: d, lhs: l, rhs: r, span }),
        BinOp::Ge => Some(Instruction::Ge { dst: d, lhs: l, rhs: r, span }),
        BinOp::Range | BinOp::And | BinOp::Or | BinOp::Assign => None,
    }
}

/// Whether `name` is the name of a built-in type.
fn is_builtin_type_name(name: &String) -> (b: bool)
    ensures
        b == builtin_type_name(name@),
{
    *name == String::from_str("Int") || *name == String::from_str("Float") || *name
        == String::from_str("Bool") || *name == String::from_str("String") || *name
        == String::from_str("Char") || *name == String::from_str("Bytes") || *name
        == String::from_str("Type") || *name == String::from_str("Void") || *name
        == String::from_str("Never")
}

/// The constant a literal stands for.
fn literal_const(lit: &Literal) -> (c: ConstValue)
    ensures
        shape_of(c) == lit_shape(*lit),
{
    match lit {
        Literal::Int(n) => ConstValue::Int(*n),
        Literal::Float(f) => ConstValue::Float(*f),
        Literal::Bool(b) => ConstValue::Bool(*b),
        Literal::String(s) => ConstValue::String(s.clone()),
        Literal::Char(c) => ConstValue::Char(*c),
        Literal::Void => ConstValue::Void,
    }
}

} // verus!
