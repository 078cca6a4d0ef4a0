//! Monomorphic types produced by the type checker.
use vstd::prelude::*;

verus! {

/// A struct type known to the type checker: its name and the names of the
/// methods bound to it.
#[derive(Debug, Clone)]
pub struct StructType {
    pub name: String,
    pub methods: Vec<String>,
}

/// An enum type known to the type checker.
#[derive(Debug, Clone)]
pub struct EnumType {
    pub name: String,
}

/// A monomorphic type.
///
/// `String`, `Bytes`, `Tuple`, `List`, `Dict` and `SetOf` are the older
/// dedicated forms; newer code represents these as `Generic` applications
/// (`Generic { name: "String", args: [] }`, see [`MonoType::make_string`]).
#[derive(Debug)]
pub enum MonoType {
    Void,
    Bool,
    Int(usize),
    Float(usize),
    Char,
    String,
    Bytes,
    Struct(StructType),
    Enum(EnumType),
    Tuple(Vec<MonoType>),
    List(Box<MonoType>),
    Dict(Box<MonoType>, Box<MonoType>),
    SetOf(Box<MonoType>),
    Fn { params: Vec<MonoType>, return_type: Box<MonoType> },
    Generic { name: String, args: Vec<MonoType> },
    Ref { mutable: bool, inner: Box<MonoType> },
    TypeVar(usize),
    TypeRef(String),
    Union(Vec<MonoType>),
    Intersection(Vec<MonoType>),
}

impl MonoType {
    /// The string type in its generic form: `Generic { name: "String", args: [] }`.
    pub fn make_string() -> (t: MonoType)
        ensures
            t matches MonoType::Generic { name, args } && name@ == "String"@ && args@.len() == 0,
    {
        MonoType::Generic { name: String::from_str("String"), args: Vec::new() }
    }
}

} // verus!
