//! The typed-opcode choice of the bytecode generator: an arithmetic or
//! comparison instruction becomes the integer or the float opcode by the
//! type of its left operand.
use vstd::prelude::*;
use crate::frontend::ast::BinOp;
use crate::frontend::typecheck::MonoType;

verus! {

/// The typed opcodes of arithmetic and comparison.
#[derive(Debug, Clone, Copy, PartialEq, Eq, Structural)]
pub enum TypedOpcode {
    I64Add,
    I64Sub,
    I64Mul,
    I64Div,
    I64Eq,
    I64Ne,
    I64Lt,
    I64Le,
    I64Gt,
    I64Ge,
    F64Add,
    F64Sub,
    F64Mul,
    F64Div,
    F64Eq,
    F64Ne,
    F64Lt,
    F64Le,
    F64Gt,
    F64Ge,
}

/// The integer opcode of `op`; none for operators without a typed opcode.
pub open spec fn int_opcode(op: BinOp) -> Option<TypedOpcode> {
    match op {
        BinOp::Add => Some(TypedOpcode::I64Add),
        BinOp::Sub => Some(TypedOpcode::I64Sub),
        BinOp::Mul => Some(TypedOpcode::I64Mul),
        BinOp::Div => Some(TypedOpcode::I64Div),
        BinOp::Eq => Some(TypedOpcode::I64Eq),
        BinOp::Neq => Some(TypedOpcode::I64Ne),
        BinOp::Lt => Some(TypedOpcode::I64Lt),
        BinOp::Le => Some(TypedOpcode::I64Le),
        BinOp::Gt => Some(TypedOpcode::I64Gt),
        BinOp::Ge => Some(TypedOpcode::I64Ge),
        _ => None,
    }
}

/// The float opcode of `op`; none for operators without a typed opcode.
pub open spec fn float_opcode(op: BinOp) -> Option<TypedOpcode> {
    match op {
        BinOp::Add => Some(TypedOpcode::F64Add),
        BinOp::Sub => Some(TypedOpcode::F64Sub),
        BinOp::Mul => Some(TypedOpcode::F64Mul),
        BinOp::Div => Some(TypedOpcode::F64Div),
        BinOp::Eq => Some(TypedOpcode::F64Eq),
        BinOp::Neq => Some(TypedOpcode::F64Ne),
        BinOp::Lt => Some(TypedOpcode::F64Lt),
        BinOp::Le => Some(TypedOpcode::F64Le),
        BinOp::Gt => Some(TypedOpcode::F64Gt),
        BinOp::Ge => Some(TypedOpcode::F64Ge),
        _ => None,
    }
}

/// The opcode for `op` on a left operand of type `ty`: the float opcode for
/// a float, the integer opcode for every other type.
pub open spec fn typed_choice(op: BinOp, ty: MonoType) -> Option<TypedOpcode> {
    match ty {
        MonoType::Float(_) => float_opcode(op),
        _ => int_opcode(op),
    }
}

/// The typed opcode of `op` for a left operand of type `ty` (see
/// [`typed_choice`]).
pub fn typed_opcode(op: BinOp, ty: &MonoType) -> (t: Option<TypedOpcode>)
    ensures
        t == typed_choice(op, *ty),
{
    let is_float = match ty {
        MonoType::Float(_) => true,
        _ => false,
    };
    match op {
        BinOp::Add => Some(if is_float { TypedOpcode::F64Add } else { TypedOpcode::I64Add }),
        BinOp::Sub => Some(if is_float { TypedOpcode::F64Sub } else { TypedOpcode::I64Sub }),
        BinOp::Mul => Some(if is_float { TypedOpcode::F64Mul } else { TypedOpcode::I64Mul }),
        BinOp::Div => Some(if is_float { TypedOpcode::F64Div } else { TypedOpcode::I64Div }),
        BinOp::Eq => Some(if is_float { TypedOpcode::F64Eq } else { TypedOpcode::I64Eq }),
        BinOp::Neq => Some(if is_float { TypedOpcode::F64Ne } else { TypedOpcode::I64Ne }),
        BinOp::Lt => Some(if is_float { TypedOpcode::F64Lt } else { TypedOpcode::I64Lt }),
        BinOp::Le => Some(if is_float { TypedOpcode::F64Le } else { TypedOpcode::I64Le }),
        BinOp::Gt => Some(if is_float { TypedOpcode::F64Gt } else { TypedOpcode::I64Gt }),
        BinOp::Ge => Some(if is_float { TypedOpcode::F64Ge } else { TypedOpcode::I64Ge }),
        _ => None,
    }
}

/// The operator a typed opcode performs, whatever its width.
pub open spec fn opcode_operator(t: TypedOpcode) -> BinOp {
    match t {
        TypedOpcode::I64Add | TypedOpcode::F64Add => BinOp::Add,
        TypedOpcode::I64Sub | TypedOpcode::F64Sub => BinOp::Sub,
        TypedOpcode::I64Mul | TypedOpcode::F64Mul => BinOp::Mul,
        TypedOpcode::I64Div | TypedOpcode::F64Div => BinOp::Div,
        TypedOpcode::I64Eq | TypedOpcode::F64Eq => BinOp::Eq,
        TypedOpcode::I64Ne | TypedOpcode::F64Ne => BinOp::Neq,
        TypedOpcode::I64Lt | TypedOpcode::F64Lt => BinOp::Lt,
        TypedOpcode::I64Le | TypedOpcode::F64Le => BinOp::Le,
        TypedOpcode::I64Gt | TypedOpcode::F64Gt => BinOp::Gt,
        TypedOpcode::I64Ge | TypedOpcode::F64Ge => BinOp::Ge,
    }
}

/// Whether a typed opcode works on floats.
pub open spec fn is_float_opcode(t: TypedOpcode) -> bool {
    match t {
        TypedOpcode::F64Add | TypedOpcode::F64Sub | TypedOpcode::F64Mul | TypedOpcode::F64Div
        | TypedOpcode::F64Eq | TypedOpcode::F64Ne | TypedOpcode::F64Lt | TypedOpcode::F64Le
        | TypedOpcode::F64Gt | TypedOpcode::F64Ge => true,
        _ => false,
    }
}

/// The typed opcode keeps the operator and only its kind depends on the
/// type: the chosen opcode performs `op`, it is a float opcode exactly when
/// the left operand is a float, and for any two types the choices agree on
/// whether there is an opcode and on its operator. Distinct operators thus
/// get distinct opcodes.
pub proof fn law_typed_opcode_keeps_operator(op: BinOp, ty: MonoType, other: MonoType, op2: BinOp)
    ensures
        typed_choice(op, ty) matches Some(t) ==> opcode_operator(t) == op && (is_float_opcode(t)
            <==> ty is Float),
        typed_choice(op, ty) is Some <==> typed_choice(op, other) is Some,
        typed_choice(op, ty) matches Some(t) ==> typed_choice(op, other) matches Some(u)
            && opcode_operator(u) == opcode_operator(t),
        op != op2 && typed_choice(op, ty) is Some && typed_choice(op2, ty) is Some ==> typed_choice(
            op,
            ty,
        ) != typed_choice(op2, ty),
{
}

} // verus!
