//! Helpers of IR generation that decide from a type alone.
use vstd::prelude::*;
use crate::frontend::typecheck::MonoType;
use crate::middle::core_ir::ir::{ConstValue, FfiLibBinding};
use crate::frontend::ast::{BinOp, Expr, FStringSegment, Literal, UnOp};
use crate::util::decimal::{push_signed_decimal, signed_decimal};
use crate::util::span::Span;
use vstd::string::StrSliceExecFns;

verus! {

/// One of the method names is `name`.
pub open spec fn has_method(methods: Seq<String>, name: Seq<char>) -> bool {
    exists|i: int| 0 <= i < methods.len() && methods[i]@ == name
}

/// The type has a string form: a struct with a `to_string` method, or one
/// of the primitive types (string, integer, float, bool, char).
pub open spec fn is_stringable(ty: MonoType) -> bool {
    match ty {
        MonoType::Struct(st) => has_method(st.methods@, "to_string"@),
        MonoType::String | MonoType::Int(_) | MonoType::Float(_) | MonoType::Bool
            | MonoType::Char => true,
        _ => false,
    }
}

/// Whether a type has its own string form (see [`is_stringable`]).
pub fn type_implements_stringable(mono_type: &MonoType) -> (b: bool)
    ensures
        b == is_stringable(*mono_type),
{
    match mono_type {
        MonoType::Struct(struct_type) => {
            let target = String::from_str("to_string");
            let mut i: usize = 0;
            while i < struct_type.methods.len()
                invariant
                    i <= struct_type.methods@.len(),
                    *mono_type == MonoType::Struct(*struct_type),
                    target@ == "to_string"@,
                    forall|j: int| 0 <= j < i ==> struct_type.methods@[j]@ != "to_string"@,
                decreases struct_type.methods@.len() - i,
            {
                if struct_type.methods[i] == target {
                    assert(struct_type.methods@[i as int]@ == "to_string"@);
                    assert(has_method(struct_type.methods@, "to_string"@));
                    return true;
                }
                i = i + 1;
            }
            false
        },
        MonoType::String | MonoType::Int(_) | MonoType::Float(_) | MonoType::Bool
        | MonoType::Char => true,
        _ => false,
    }
}

/// The fallback string form of a value of a type: the type's name.
pub open spec fn fallback_name(ty: MonoType) -> Seq<char> {
    match ty {
        MonoType::Void => "void"@,
        MonoType::Bool => "bool"@,
        MonoType::Int(_) => "int"@,
        MonoType::Float(_) => "float"@,
        MonoType::Char => "char"@,
        MonoType::String => "string"@,
        MonoType::Bytes => "bytes"@,
        MonoType::Struct(s) => s.name@,
        MonoType::Enum(e) => e.name@,
        MonoType::Tuple(_) => "tuple"@,
        MonoType::List(_) => "list"@,
        MonoType::Dict(_, _) => "dict"@,
        MonoType::SetOf(_) => "set"@,
        MonoType::Fn { .. } => "function"@,
        MonoType::TypeRef(name) => name@,
        _ => "unknown"@,
    }
}

/// The fallback string form of a value of the type (see [`fallback_name`]).
pub fn get_type_fallback_string(mono_type: &MonoType) -> (s: String)
    ensures
        s@ == fallback_name(*mono_type),
{
    match mono_type {
        MonoType::Void => String::from_str("void"),
        MonoType::Bool => String::from_str("bool"),
        MonoType::Int(_) => String::from_str("int"),
        MonoType::Float(_) => String::from_str("float"),
        MonoType::Char => String::from_str("char"),
        MonoType::String => String::from_str("string"),
        MonoType::Bytes => String::from_str("bytes"),
        MonoType::Struct(s) => s.name.clone(),
        MonoType::Enum(e) => e.name.clone(),
        MonoType::Tuple(_) => String::from_str("tuple"),
        MonoType::List(_) => String::from_str("list"),
        MonoType::Dict(_, _) => String::from_str("dict"),
        MonoType::SetOf(_) => String::from_str("set"),
        MonoType::Fn { .. } => String::from_str("function"),
        MonoType::TypeRef(name) => name.clone(),
        _ => String::from_str("unknown"),
    }
}

/// The struct a type's methods are looked up on: a named type or struct
/// directly, through any number of references; none for other types.
pub open spec fn struct_name_of(ty: MonoType) -> Option<Seq<char>>
    decreases ty,
{
    match ty {
        MonoType::TypeRef(name) => Some(name@),
        MonoType::Struct(st) => Some(st.name@),
        MonoType::Ref { inner, .. } => struct_name_of(*inner),
        _ => None,
    }
}

/// The name of the struct a value of the type dispatches methods on (see
/// [`struct_name_of`]).
pub fn mono_type_to_struct_name(mono_type: &MonoType) -> (r: Option<String>)
    ensures
        match r {
            Some(s) => struct_name_of(*mono_type) == Some(s@),
            None => struct_name_of(*mono_type) is None,
        },
    decreases mono_type,
{
    match mono_type {
        MonoType::TypeRef(name) => Some(name.clone()),
        MonoType::Struct(st) => Some(st.name.clone()),
        MonoType::Ref { inner, .. } => mono_type_to_struct_name(inner),
        _ => None,
    }
}

/// A white-space character: one with the Unicode `White_Space` property.
pub open spec fn is_white_space(c: char) -> bool {
    let u = c as u32;
    ||| 0x09 <= u <= 0x0D
    ||| u == 0x20
    ||| u == 0x85
    ||| u == 0xA0
    ||| u == 0x1680
    ||| 0x2000 <= u <= 0x200A
    ||| u == 0x2028
    ||| u == 0x2029
    ||| u == 0x202F
    ||| u == 0x205F
    ||| u == 0x3000
}

/// The position of the first non-white-space character at or after `i`
/// (the length when there is none).
pub open spec fn skip_white(s: Seq<char>, i: int) -> int
    decreases s.len() - i,
{
    if i >= s.len() {
        s.len() as int
    } else if is_white_space(s[i]) {
        skip_white(s, i + 1)
    } else {
        i
    }
}

/// The position after the last non-white-space character before `j` (0
/// when there is none).
pub open spec fn skip_white_back(s: Seq<char>, j: int) -> int
    decreases j,
{
    if j <= 0 {
        0
    } else if is_white_space(s[j - 1]) {
        skip_white_back(s, j - 1)
    } else {
        j
    }
}

/// The string without leading white space.
pub open spec fn trimmed_start(s: Seq<char>) -> Seq<char> {
    s.subrange(skip_white(s, 0), s.len() as int)
}

/// The string without leading and trailing white space.
pub open spec fn trimmed(s: Seq<char>) -> Seq<char> {
    let a = skip_white(s, 0);
    let b = skip_white_back(s, s.len() as int);
    if b <= a {
        Seq::empty()
    } else {
        s.subrange(a, b)
    }
}

fn white_space(c: char) -> (b: bool)
    ensures
        b == is_white_space(c),
{
    let u = c as u32;
    (0x09 <= u && u <= 0x0D) || u == 0x20 || u == 0x85 || u == 0xA0 || u == 0x1680 || (0x2000 <= u
        && u <= 0x200A) || u == 0x2028 || u == 0x2029 || u == 0x202F || u == 0x205F || u == 0x3000
}

proof fn lemma_skip_white_back_bounds(s: Seq<char>, j: int)
    requires
        0 <= j <= s.len(),
    ensures
        0 <= skip_white_back(s, j) <= j,
        skip_white_back(s, j) > 0 ==> !is_white_space(s[skip_white_back(s, j) - 1]),
    decreases j,
{
    if j > 0 && is_white_space(s[j - 1]) {
        lemma_skip_white_back_bounds(s, j - 1);
    }
}

/// The string without leading white space, as `str::trim_start`.
fn str_trim_start(s: &str) -> (r: &str)
    ensures
        r@ == trimmed_start(s@),
{
    let n = s.unicode_len();
    let mut i: usize = 0;
    while i < n
        invariant
            n == s@.len(),
            i <= n,
            skip_white(s@, i as int) == skip_white(s@, 0),
        ensures
            i == skip_white(s@, 0),
        decreases n - i,
    {
        if !white_space(s.get_char(i)) {
            break;
        }
        i = i + 1;
    }
    s.substring_char(i, n)
}

/// The string without leading and trailing white space, as `str::trim`.
fn str_trim(s: &str) -> (r: &str)
    ensures
        r@ == trimmed(s@),
{
    let n = s.unicode_len();
    let mut i: usize = 0;
    while i < n
        invariant
            n == s@.len(),
            i <= n,
            skip_white(s@, i as int) == skip_white(s@, 0),
        ensures
            i == skip_white(s@, 0),
        decreases n - i,
    {
        if !white_space(s.get_char(i)) {
            break;
        }
        i = i + 1;
    }
    let mut j: usize = n;
    while j > i
        invariant
            n == s@.len(),
            i <= j <= n,
            skip_white_back(s@, j as int) == skip_white_back(s@, n as int),
        ensures
            i <= j,
            j > i ==> skip_white_back(s@, n as int) == j,
            j == i ==> skip_white_back(s@, n as int) == skip_white_back(s@, i as int),
        decreases j,
    {
        if !white_space(s.get_char(j - 1)) {
            break;
        }
        j = j - 1;
    }
    proof {
        lemma_skip_white_back_bounds(s@, i as int);
    }
    if j <= i {
        s.substring_char(i, i)
    } else {
        s.substring_char(i, j)
    }
}

/// The prefix of a mutable reference type name.
pub open spec fn mut_ref_prefix() -> Seq<char> {
    seq!['&', 'm', 'u', 't', ' ']
}

/// A type name without its reference marker: after `&mut ` the rest as
/// is, after `&` the rest without leading whitespace; other names as they
/// are.
pub open spec fn without_ref_marker(t: Seq<char>) -> Seq<char> {
    if t.len() >= 5 && t.subrange(0, 5) == mut_ref_prefix() {
        t.subrange(5, t.len() as int)
    } else if t.len() >= 1 && t[0] == '&' {
        trimmed_start(t.subrange(1, t.len() as int))
    } else {
        t
    }
}

/// The type name without surrounding whitespace and without a leading
/// reference marker (see [`without_ref_marker`]).
pub fn strip_ref_prefix(name: &str) -> (r: &str)
    ensures
        r@ == without_ref_marker(trimmed(name@)),
{
    let t = str_trim(name);
    let n = t.unicode_len();
    if n >= 5 && t.get_char(0) == '&' && t.get_char(1) == 'm' && t.get_char(2) == 'u'
        && t.get_char(3) == 't' && t.get_char(4) == ' ' {
        assert(t@.subrange(0, 5) =~= mut_ref_prefix());
        t.substring_char(5, n)
    } else if n >= 1 && t.get_char(0) == '&' {
        proof {
            if n >= 5 {
                assert(t@.subrange(0, 5) != mut_ref_prefix()) by {
                    if t@.subrange(0, 5) == mut_ref_prefix() {
                        assert(t@[1] == t@.subrange(0, 5)[1]);
                        assert(t@[2] == t@.subrange(0, 5)[2]);
                        assert(t@[3] == t@.subrange(0, 5)[3]);
                        assert(t@[4] == t@.subrange(0, 5)[4]);
                    }
                }
            }
        }
        str_trim_start(t.substring_char(1, n))
    } else {
        proof {
            if n >= 5 {
                assert(t@.subrange(0, 5) != mut_ref_prefix()) by {
                    if t@.subrange(0, 5) == mut_ref_prefix() {
                        assert(t@[0] == t@.subrange(0, 5)[0]);
                    }
                }
            }
        }
        t
    }
}

/// `b` is the binding of library `lib` through mechanism `mechanism`.
pub open spec fn binds_lib(b: FfiLibBinding, mechanism: Seq<char>, lib: Seq<char>) -> bool {
    b.mechanism@ == mechanism && b.lib_name@ == lib
}

/// The position of the first binding of the library among the first `n`.
pub open spec fn first_lib_binding(
    libs: Seq<FfiLibBinding>,
    mechanism: Seq<char>,
    lib: Seq<char>,
    n: int,
) -> Option<int>
    decreases n,
{
    if n <= 0 {
        None
    } else {
        match first_lib_binding(libs, mechanism, lib, n - 1) {
            Some(i) => Some(i),
            None => if binds_lib(libs[n - 1], mechanism, lib) {
                Some(n - 1)
            } else {
                None
            },
        }
    }
}

/// The id of the library bound through `mechanism` under `lib_name`: the id
/// of its first binding, or, where there is none, a new binding with the
/// next free id, appended.
pub fn get_or_create_lib_id(
    ffi_libs: &mut Vec<FfiLibBinding>,
    next_lib_id: &mut usize,
    mechanism: &str,
    lib_name: &str,
) -> (id: usize)
    requires
        first_lib_binding(old(ffi_libs)@, mechanism@, lib_name@, old(ffi_libs)@.len() as int) is None
            ==> *old(next_lib_id) < usize::MAX,
    ensures
        match first_lib_binding(old(ffi_libs)@, mechanism@, lib_name@, old(ffi_libs)@.len() as int) {
            Some(i) => {
                &&& id == old(ffi_libs)@[i].id
                &&& final(ffi_libs)@ == old(ffi_libs)@
                &&& *final(next_lib_id) == *old(next_lib_id)
            },
            None => {
                &&& id == *old(next_lib_id)
                &&& *final(next_lib_id) == *old(next_lib_id) + 1
                &&& final(ffi_libs)@.len() == old(ffi_libs)@.len() + 1
                &&& final(ffi_libs)@.drop_last() == old(ffi_libs)@
                &&& final(ffi_libs)@.last().id == id
                &&& binds_lib(final(ffi_libs)@.last(), mechanism@, lib_name@)
            },
        },
{
    let m = String::from_str(mechanism);
    let l = String::from_str(lib_name);
    let mut i: usize = 0;
    while i < ffi_libs.len()
        invariant
            i <= ffi_libs@.len(),
            ffi_libs@ == old(ffi_libs)@,
            *next_lib_id == *old(next_lib_id),
            m@ == mechanism@,
            l@ == lib_name@,
            first_lib_binding(ffi_libs@, mechanism@, lib_name@, i as int) is None,
        decreases ffi_libs@.len() - i,
    {
        if ffi_libs[i].mechanism == m && ffi_libs[i].lib_name == l {
            proof {
                lemma_first_lib_binding_stays(ffi_libs@, mechanism@, lib_name@, i + 1, ffi_libs@.len() as int);
            }
            return ffi_libs[i].id;
        }
        i = i + 1;
    }
    let id = *next_lib_id;
    *next_lib_id = id + 1;
    ffi_libs.push(FfiLibBinding { id, mechanism: m, lib_name: l });
    assert(ffi_libs@.drop_last() =~= old(ffi_libs)@);
    id
}

/// Once found among the first `j` bindings, the first binding stays the
/// same among the first `k >= j`.
proof fn lemma_first_lib_binding_stays(
    libs: Seq<FfiLibBinding>,
    mechanism: Seq<char>,
    lib: Seq<char>,
    j: int,
    k: int,
)
    requires
        j <= k,
        first_lib_binding(libs, mechanism, lib, j) is Some,
    ensures
        first_lib_binding(libs, mechanism, lib, k) == first_lib_binding(libs, mechanism, lib, j),
    decreases k - j,
{
    if j < k {
        lemma_first_lib_binding_stays(libs, mechanism, lib, j, k - 1);
    }
}

/// Asking again for a library just bound gives the id it was bound with:
/// once a binding is appended for a library that had none, it is the
/// library's first binding.
pub proof fn law_lib_binding_found_again(
    libs: Seq<FfiLibBinding>,
    mechanism: Seq<char>,
    lib: Seq<char>,
    b: FfiLibBinding,
)
    requires
        first_lib_binding(libs, mechanism, lib, libs.len() as int) is None,
        binds_lib(b, mechanism, lib),
    ensures
        first_lib_binding(libs.push(b), mechanism, lib, libs.len() + 1 as int) == Some(libs.len() as int),
{
    lemma_first_lib_binding_prefix(libs, b, mechanism, lib, libs.len() as int);
}

/// Appending a binding leaves the first binding among the old ones as it
/// was.
proof fn lemma_first_lib_binding_prefix(
    libs: Seq<FfiLibBinding>,
    b: FfiLibBinding,
    mechanism: Seq<char>,
    lib: Seq<char>,
    n: int,
)
    requires
        0 <= n <= libs.len(),
    ensures
        first_lib_binding(libs.push(b), mechanism, lib, n) == first_lib_binding(libs, mechanism, lib, n),
    decreases n,
{
    if n > 0 {
        lemma_first_lib_binding_prefix(libs, b, mechanism, lib, n - 1);
        assert(libs.push(b)[n - 1] == libs[n - 1]);
    }
}

/// A constant as folding sees it: strings by their text.
pub enum ConstShape {
    Void,
    Bool(bool),
    Int(i128),
    Float(u64),
    Char(char),
    Str(Seq<char>),
    Other,
}

/// The shape of a constant value.
pub open spec fn shape_of(c: ConstValue) -> ConstShape {
    match c {
        ConstValue::Void => ConstShape::Void,
        ConstValue::Bool(b) => ConstShape::Bool(b),
        ConstValue::Int(i) => ConstShape::Int(i),
        ConstValue::Float(f) => ConstShape::Float(f),
        ConstValue::Char(c) => ConstShape::Char(c),
        ConstValue::String(s) => ConstShape::Str(s@),
        _ => ConstShape::Other,
    }
}

/// Folding `op` over two integers; division, ranges and assignments do not
/// fold, nor shifts by amounts outside 0..=63.
pub open spec fn fold_ints(op: BinOp, a: i128, b: i128) -> Option<ConstShape> {
    match op {
        BinOp::Add => Some(ConstShape::Int(a.wrapping_add(b))),
        BinOp::Sub => Some(ConstShape::Int(a.wrapping_sub(b))),
        BinOp::Mul => Some(ConstShape::Int(a.wrapping_mul(b))),
        BinOp::Mod => if b != 0 {
            Some(ConstShape::Int(a.checked_rem(b).unwrap()))
        } else {
            None
        },
        BinOp::Eq => Some(ConstShape::Bool(a == b)),
        BinOp::Neq => Some(ConstShape::Bool(a != b)),
        BinOp::Lt => Some(ConstShape::Bool(a < b)),
        BinOp::Le => Some(ConstShape::Bool(a <= b)),
        BinOp::Gt => Some(ConstShape::Bool(a > b)),
        BinOp::Ge => Some(ConstShape::Bool(a >= b)),
        BinOp::And => Some(ConstShape::Bool(a != 0 && b != 0)),
        BinOp::Or => Some(ConstShape::Bool(a != 0 || b != 0)),
        BinOp::BitAnd => Some(ConstShape::Int(a & b)),
        BinOp::BitOr => Some(ConstShape::Int(a | b)),
        BinOp::BitXor => Some(ConstShape::Int(a ^ b)),
        BinOp::Shl => if 0 <= b <= 63 {
            Some(ConstShape::Int(a.wrapping_shl(b as u32)))
        } else {
            None
        },
        BinOp::Shr => if 0 <= b <= 63 {
            Some(ConstShape::Int(a.wrapping_shr(b as u32)))
        } else {
            None
        },
        BinOp::Div | BinOp::Range | BinOp::Assign => None,
    }
}

/// Folding `op` over two folded operands: integers as [`fold_ints`];
/// strings concatenate and compare; booleans combine and compare; other
/// pairs do not fold.
pub open spec fn fold_binary(op: BinOp, l: ConstShape, r: ConstShape) -> Option<ConstShape> {
    match (l, r) {
        (ConstShape::Int(a), ConstShape::Int(b)) => fold_ints(op, a, b),
        (ConstShape::Str(a), ConstShape::Str(b)) => match op {
            BinOp::Add => Some(ConstShape::Str(a + b)),
            BinOp::Eq => Some(ConstShape::Bool(a == b)),
            BinOp::Neq => Some(ConstShape::Bool(a != b)),
            _ => None,
        },
        (ConstShape::Bool(a), ConstShape::Bool(b)) => match op {
            BinOp::And => Some(ConstShape::Bool(a && b)),
            BinOp::Or => Some(ConstShape::Bool(a || b)),
            BinOp::Eq => Some(ConstShape::Bool(a == b)),
            BinOp::Neq => Some(ConstShape::Bool(a != b)),
            _ => None,
        },
        _ => None,
    }
}

/// The text a folded value takes inside an interpolated string: integers
/// in decimal, booleans as `true`/`false`, strings and characters as they
/// are, void as nothing; none for other values.
pub open spec fn rendered(c: ConstShape) -> Option<Seq<char>> {
    match c {
        ConstShape::Int(n) => Some(signed_decimal(n as int)),
        ConstShape::Bool(b) => Some(if b { "true"@ } else { "false"@ }),
        ConstShape::Str(t) => Some(t),
        ConstShape::Char(ch) => Some(seq![ch]),
        ConstShape::Void => Some(Seq::empty()),
        _ => None,
    }
}

/// The compile-time value of an expression: literals (but `Void`),
/// operators over foldable operands, and interpolated strings whose
/// interpolations all fold (see [`fold_segments`]); variables and anything
/// that does not fold give none.
pub open spec fn folded(e: Expr) -> Option<ConstShape>
    decreases e, 1int, 0int,
{
    match e {
        Expr::Lit(lit, _) => match lit {
            Literal::Int(n) => Some(ConstShape::Int(n)),
            Literal::Float(f) => Some(ConstShape::Float(f)),
            Literal::Bool(b) => Some(ConstShape::Bool(b)),
            Literal::String(s) => Some(ConstShape::Str(s@)),
            Literal::Char(c) => Some(ConstShape::Char(c)),
            Literal::Void => None,
        },
        Expr::BinOp { op, left, right, .. } => match (folded(*left), folded(*right)) {
            (Some(l), Some(r)) => fold_binary(op, l, r),
            _ => None,
        },
        Expr::UnOp { op, expr, .. } => match (op, folded(*expr)) {
            (UnOp::Neg, Some(ConstShape::Int(n))) => Some(ConstShape::Int(0i128.wrapping_sub(n))),
            (UnOp::Not, Some(ConstShape::Bool(b))) => Some(ConstShape::Bool(!b)),
            _ => None,
        },
        Expr::Var(_, _) => None,
        Expr::FString { segments, .. } => match fold_segments(e, segments@.len() as int) {
            Some(t) => Some(ConstShape::Str(t)),
            None => None,
        },
    }
}

/// The folded text of the first `k` segments of an interpolated string:
/// text as it is, each interpolation by the rendered folded value of its
/// expression; none where an interpolation does not fold, does not render,
/// or has a format specification.
pub open spec fn fold_segments(e: Expr, k: int) -> Option<Seq<char>>
    decreases e, 0int, k,
{
    match e {
        Expr::FString { segments, .. } => if k <= 0 {
            Some(Seq::empty())
        } else if k > segments@.len() {
            None
        } else {
            match fold_segments(e, k - 1) {
                None => None,
                Some(prev) => match segments@[k - 1] {
                    FStringSegment::Text(t) => Some(prev + t@),
                    FStringSegment::Interpolation { expr, format_spec } => {
                        proof {
                            lemma_segment_expr_smaller(e, k - 1);
                        }
                        match folded(*expr) {
                            Some(v) => match (rendered(v), format_spec) {
                                (Some(t), None) => Some(prev + t),
                                _ => None,
                            },
                            None => None,
                        }
                    },
                },
            }
        },
        _ => None,
    }
}

/// The expression of an interpolation is smaller than the interpolated
/// string it stands in.
pub proof fn lemma_segment_expr_smaller(e: Expr, i: int)
    requires
        e is FString,
        0 <= i < e->segments@.len(),
        e->segments@[i] is Interpolation,
    ensures
        decreases_to!(e => *e->segments@[i]->expr),
{
    let segments = e->segments;
    let expr = segments@[i]->expr;
    assert(decreases_to!(e => segments));
    assert(decreases_to!(segments => segments@));
    assert(decreases_to!(segments@ => segments@[i]));
    assert(decreases_to!(segments@[i] => expr));
}

/// Folding `e` stays within integer, boolean and string arithmetic: no
/// remainder of the smallest integer by -1 (which overflows), no
/// arithmetic or comparison on two floats or negation of a float, and no
/// float interpolated into a string (float arithmetic and float text are
/// not folded here).
pub open spec fn foldable(e: Expr) -> bool
    decreases e, 1int, 0int,
{
    match e {
        Expr::BinOp { op, left, right, .. } => {
            &&& foldable(*left)
            &&& foldable(*right)
            &&& match (folded(*left), folded(*right)) {
                (Some(ConstShape::Int(a)), Some(ConstShape::Int(b))) => !(op == BinOp::Mod && a
                    == i128::MIN && b == -1),
                (Some(ConstShape::Float(_)), Some(ConstShape::Float(_))) => !(op == BinOp::Add || op
                    == BinOp::Sub || op == BinOp::Mul || op == BinOp::Mod || op == BinOp::Eq || op
                    == BinOp::Neq || op == BinOp::Lt || op == BinOp::Le || op == BinOp::Gt || op
                    == BinOp::Ge),
                _ => true,
            }
        },
        Expr::UnOp { op, expr, .. } => foldable(*expr) && !(op == UnOp::Neg && folded(
            *expr,
        ) matches Some(ConstShape::Float(_))),
        Expr::FString { segments, .. } => foldable_segments(e, segments@.len() as int),
        _ => true,
    }
}

/// The first `k` interpolations of an interpolated string are foldable and
/// none of them folds to a float.
pub open spec fn foldable_segments(e: Expr, k: int) -> bool
    decreases e, 0int, k,
{
    match e {
        Expr::FString { segments, .. } => if k <= 0 || k > segments@.len() {
            true
        } else {
            &&& foldable_segments(e, k - 1)
            &&& match segments@[k - 1] {
                FStringSegment::Text(_) => true,
                FStringSegment::Interpolation { expr, .. } => {
                    proof {
                        lemma_segment_expr_smaller(e, k - 1);
                    }
                    foldable(*expr) && !(folded(*expr) matches Some(ConstShape::Float(_)))
                },
            }
        },
        _ => true,
    }
}

/// The first `n` interpolations being foldable, so are the first `i + 1`
/// for each `i < n`.
proof fn lemma_foldable_segments_prefix(e: Expr, n: int, i: int)
    requires
        foldable_segments(e, n),
        e is FString,
        n <= e->segments@.len(),
        0 <= i < n,
    ensures
        foldable_segments(e, i + 1),
    decreases n,
{
    if i + 1 < n {
        lemma_foldable_segments_prefix(e, n - 1, i);
    }
}

/// Once a prefix of the segments does not fold, no longer prefix does.
proof fn lemma_fold_segments_none(e: Expr, j: int, n: int)
    requires
        1 <= j <= n,
        e is FString,
        n <= e->segments@.len(),
        fold_segments(e, j) is None,
    ensures
        fold_segments(e, n) is None,
    decreases n - j,
{
    if j < n {
        lemma_fold_segments_none(e, j + 1, n);
    }
}

/// Integer folding computes each operator's arithmetic: a sum, difference
/// or product that fits in 128 bits is the mathematical one, and the
/// comparisons are the mathematical comparisons.
pub proof fn law_fold_ints_arithmetic(op: BinOp, a: i128, b: i128)
    ensures
        op == BinOp::Add && i128::MIN <= a + b <= i128::MAX ==> fold_ints(op, a, b) == Some(
            ConstShape::Int((a + b) as i128),
        ),
        op == BinOp::Sub && i128::MIN <= a - b <= i128::MAX ==> fold_ints(op, a, b) == Some(
            ConstShape::Int((a - b) as i128),
        ),
        op == BinOp::Mul && i128::MIN <= a * b <= i128::MAX ==> fold_ints(op, a, b) == Some(
            ConstShape::Int((a * b) as i128),
        ),
        op == BinOp::Eq ==> fold_ints(op, a, b) == Some(ConstShape::Bool(a == b)),
        op == BinOp::Neq ==> fold_ints(op, a, b) == Some(ConstShape::Bool(a != b)),
        op == BinOp::Lt ==> fold_ints(op, a, b) == Some(ConstShape::Bool(a < b)),
        op == BinOp::Le ==> fold_ints(op, a, b) == Some(ConstShape::Bool(a <= b)),
        op == BinOp::Gt ==> fold_ints(op, a, b) == Some(ConstShape::Bool(a > b)),
        op == BinOp::Ge ==> fold_ints(op, a, b) == Some(ConstShape::Bool(a >= b)),
{
    if op == BinOp::Mul && i128::MIN <= a * b <= i128::MAX {
        let p = a * b;
        let range: int = 0x1_0000_0000_0000_0000_0000_0000_0000_0000int;
        if p >= 0 {
            vstd::arithmetic::div_mod::lemma_small_mod(p as nat, range as nat);
        } else {
            vstd::arithmetic::div_mod::lemma_fundamental_div_mod(p, range);
            vstd::arithmetic::div_mod::lemma_mod_multiples_vanish(1, p, range);
            vstd::arithmetic::div_mod::lemma_small_mod((p + range) as nat, range as nat);
            assert((p + range) % range == p % range) by {
                vstd::arithmetic::div_mod::lemma_mod_add_multiples_vanish(p, range);
            }
        }
    }
}

/// Subtracting and adding back the same integer folds back to the start:
/// for integer literals `a` and `b`, the constant value of `(a - b) + b` is
/// `a`, and that of `a - b` is their difference whenever it fits.
pub proof fn law_fold_sub_then_add(a: i128, b: i128, sp: Span)
    ensures
        folded(
            Expr::BinOp {
                op: BinOp::Add,
                left: Box::new(
                    Expr::BinOp {
                        op: BinOp::Sub,
                        left: Box::new(Expr::Lit(Literal::Int(a), sp)),
                        right: Box::new(Expr::Lit(Literal::Int(b), sp)),
                        span: sp,
                    },
                ),
                right: Box::new(Expr::Lit(Literal::Int(b), sp)),
                span: sp,
            },
        ) == Some(ConstShape::Int(a)),
        i128::MIN <= a - b <= i128::MAX ==> folded(
            Expr::BinOp {
                op: BinOp::Sub,
                left: Box::new(Expr::Lit(Literal::Int(a), sp)),
                right: Box::new(Expr::Lit(Literal::Int(b), sp)),
                span: sp,
            },
        ) == Some(ConstShape::Int((a - b) as i128)),
{
    let inner = Expr::BinOp {
        op: BinOp::Sub,
        left: Box::new(Expr::Lit(Literal::Int(a), sp)),
        right: Box::new(Expr::Lit(Literal::Int(b), sp)),
        span: sp,
    };
    assert(folded(Expr::Lit(Literal::Int(a), sp)) == Some(ConstShape::Int(a)));
    assert(folded(Expr::Lit(Literal::Int(b), sp)) == Some(ConstShape::Int(b)));
    assert(folded(inner) == Some(ConstShape::Int(a.wrapping_sub(b))));
    let c = a.wrapping_sub(b);
    assert(c.wrapping_add(b) == a);
}

/// `char::to_string`: the string holding just the character, as the
/// standard library documents for the `Display` form of a `char`.
#[verifier::external_body]
fn char_to_string(c: char) -> (s: String)
    ensures
        s@ == seq![c],
{
    c.to_string()
}

fn fold_ints_exec(op: BinOp, a: i128, b: i128) -> (r: Option<ConstValue>)
    requires
        !(op == BinOp::Mod && a == i128::MIN && b == -1),
    ensures
        match r {
            Some(c) => fold_ints(op, a, b) == Some(shape_of(c)),
            None => fold_ints(op, a, b) is None,
        },
{
    match op {
        BinOp::Add => Some(ConstValue::Int(a.wrapping_add(b))),
        BinOp::Sub => Some(ConstValue::Int(a.wrapping_sub(b))),
        BinOp::Mul => Some(ConstValue::Int(a.wrapping_mul(b))),
        BinOp::Mod => if b != 0 {
            match a.checked_rem(b) {
                Some(m) => Some(ConstValue::Int(m)),
                None => None,
            }
        } else {
            None
        },
        BinOp::Eq => Some(ConstValue::Bool(a == b)),
        BinOp::Neq => Some(ConstValue::Bool(a != b)),
        BinOp::Lt => Some(ConstValue::Bool(a < b)),
        BinOp::Le => Some(ConstValue::Bool(a <= b)),
        BinOp::Gt => Some(ConstValue::Bool(a > b)),
        BinOp::Ge => Some(ConstValue::Bool(a >= b)),
        BinOp::And => Some(ConstValue::Bool(a != 0 && b != 0)),
        BinOp::Or => Some(ConstValue::Bool(a != 0 || b != 0)),
        BinOp::BitAnd => Some(ConstValue::Int(a & b)),
        BinOp::BitOr => Some(ConstValue::Int(a | b)),
        BinOp::BitXor => Some(ConstValue::Int(a ^ b)),
        BinOp::Shl => if 0 <= b && b <= 63 {
            Some(ConstValue::Int(a.wrapping_shl(b as u32)))
        } else {
            None
        },
        BinOp::Shr => if 0 <= b && b <= 63 {
            Some(ConstValue::Int(a.wrapping_shr(b as u32)))
        } else {
            None
        },
        BinOp::Div | BinOp::Range | BinOp::Assign => None,
    }
}

/// The compile-time value of an expression (see [`folded`]), for
/// expressions that fold without float arithmetic (see [`foldable`]).
pub fn eval_const_expr(expr: &Expr) -> (r: Option<ConstValue>)
    requires
        foldable(*expr),
    ensures
        match r {
            Some(c) => folded(*expr) == Some(shape_of(c)),
            None => folded(*expr) is None,
        },
    decreases expr,
{
    match expr {
        Expr::Lit(literal, _) => match literal {
            Literal::Int(n) => Some(ConstValue::Int(*n)),
            Literal::Float(f) => Some(ConstValue::Float(*f)),
            Literal::Bool(b) => Some(ConstValue::Bool(*b)),
            Literal::String(s) => Some(ConstValue::String(s.clone())),
            Literal::Char(c) => Some(ConstValue::Char(*c)),
            Literal::Void => None,
        },
        Expr::BinOp { op, left, right, .. } => {
            let l = eval_const_expr(left)?;
            let r = eval_const_expr(right)?;
            match (l, r) {
                (ConstValue::Int(a), ConstValue::Int(b)) => fold_ints_exec(*op, a, b),
                (ConstValue::String(a), ConstValue::String(b)) => match op {
                    BinOp::Add => {
                        let mut s = a;
                        s.append(b.as_str());
                        Some(ConstValue::String(s))
                    },
                    BinOp::Eq => Some(ConstValue::Bool(a == b)),
                    BinOp::Neq => Some(ConstValue::Bool(a != b)),
                    _ => None,
                },
                (ConstValue::Bool(a), ConstValue::Bool(b)) => match op {
                    BinOp::And => Some(ConstValue::Bool(a && b)),
                    BinOp::Or => Some(ConstValue::Bool(a || b)),
                    BinOp::Eq => Some(ConstValue::Bool(a == b)),
                    BinOp::Neq => Some(ConstValue::Bool(a != b)),
                    _ => None,
                },
                _ => None,
            }
        },
        Expr::UnOp { op, expr: inner, .. } => {
            let v = eval_const_expr(inner)?;
            match (op, v) {
                (UnOp::Neg, ConstValue::Int(n)) => Some(ConstValue::Int(0i128.wrapping_sub(n))),
                (UnOp::Not, ConstValue::Bool(b)) => Some(ConstValue::Bool(!b)),
                _ => None,
            }
        },
        Expr::Var(_, _) => None,
        Expr::FString { segments, span } => {
            let mut result = String::new();
            let mut i: usize = 0;
            while i < segments.len()
                invariant
                    i <= segments@.len(),
                    *expr == (Expr::FString { segments: *segments, span: *span }),
                    foldable(*expr),
                    fold_segments(*expr, i as int) == Some(result@),
                decreases segments@.len() - i,
            {
                proof {
                    lemma_foldable_segments_prefix(*expr, segments@.len() as int, i as int);
                }
                match &segments[i] {
                    FStringSegment::Text(t) => {
                        result.append(t.as_str());
                    },
                    FStringSegment::Interpolation { expr: inner, format_spec } => {
                        proof {
                            lemma_segment_expr_smaller(*expr, i as int);
                            assert(segments@[i as int] matches FStringSegment::Interpolation {
                                expr: e2,
                                format_spec: f2,
                            } && e2 == *inner && f2 == *format_spec);
                        }
                        let v = match eval_const_expr(inner) {
                            Some(v) => v,
                            None => {
                                proof {
                                    lemma_fold_segments_none(*expr, i + 1, segments@.len() as int);
                                }
                                return None;
                            },
                        };
                        if format_spec.is_some() {
                            proof {
                                lemma_fold_segments_none(*expr, i + 1, segments@.len() as int);
                            }
                            return None;
                        }
                        match v {
                            ConstValue::Int(n) => push_signed_decimal(&mut result, n),
                            ConstValue::Bool(b) => {
                                proof {
                                    reveal_strlit("true");
                                    reveal_strlit("false");
                                }
                                if b {
                                    result.append("true");
                                } else {
                                    result.append("false");
                                }
                            },
                            ConstValue::String(t) => result.append(t.as_str()),
                            ConstValue::Char(c) => {
                                let t = char_to_string(c);
                                result.append(t.as_str());
                            },
                            ConstValue::Void => {
                                assert(result@ + Seq::<char>::empty() =~= result@);
                            },
                            _ => {
                                proof {
                                    lemma_fold_segments_none(*expr, i + 1, segments@.len() as int);
                                }
                                return None;
                            },
                        }
                    },
                }
                i = i + 1;
            }
            Some(ConstValue::String(result))
        },
    }
}

} // verus!
