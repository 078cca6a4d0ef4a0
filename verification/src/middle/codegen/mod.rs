//! Code generation support: register, label and jump-table bookkeeping,
//! translation of IR instructions into encoded records,
//! symbol scopes, switch lowering decisions and code generation errors.
use vstd::prelude::*;
use crate::middle::core_ir::ir::{ConstValue, FunctionIR, ModuleIR};
use crate::middle::codegen::flow::{FlowManager, FlowView, Symbol, SymbolScopeManager};
use crate::middle::passes::codegen::bytecode::FileHeader;

pub mod flow;
pub mod generator;
pub mod switch;
pub mod translate;

verus! {

/// Code generation errors.
#[derive(Debug, Clone)]
pub enum CodegenError {
    /// An expression kind that is not implemented
    UnimplementedExpr { expr_type: String },
    /// A statement kind that is not implemented
    UnimplementedStmt { stmt_type: String },
    /// A call that is not implemented
    UnimplementedCall,
    /// An invalid assignment target
    InvalidAssignmentTarget,
    /// A symbol that was not found
    SymbolNotFound { name: String },
    /// A type mismatch
    TypeMismatch { expected: String, found: String },
    /// No register left
    OutOfRegisters,
    /// An invalid operand
    InvalidOperand,
}

/// The message of a code generation error.
pub open spec fn error_message(e: CodegenError) -> Seq<char> {
    match e {
        CodegenError::UnimplementedExpr { expr_type } => "未实现的表达式类型: "@ + expr_type@,
        CodegenError::UnimplementedStmt { stmt_type } => "未实现的语句类型: "@ + stmt_type@,
        CodegenError::UnimplementedCall => "未实现的函数调用"@,
        CodegenError::InvalidAssignmentTarget => "无效的赋值目标"@,
        CodegenError::SymbolNotFound { name } => "符号未找到: "@ + name@,
        CodegenError::TypeMismatch { expected, found } => "类型不匹配: 期望 "@ + expected@
            + ", 实际 "@ + found@,
        CodegenError::OutOfRegisters => "寄存器不足"@,
        CodegenError::InvalidOperand => "无效的操作数"@,
    }
}

impl CodegenError {
    /// The error message (see [`error_message`]).
    pub fn to_string(&self) -> (s: String)
        ensures
            s@ == error_message(*self),
    {
        match self {
            CodegenError::UnimplementedExpr { expr_type } => {
                let mut s = String::from_str("未实现的表达式类型: ");
                s.append(expr_type.as_str());
                s
            },
            CodegenError::UnimplementedStmt { stmt_type } => {
                let mut s = String::from_str("未实现的语句类型: ");
                s.append(stmt_type.as_str());
                s
            },
            CodegenError::UnimplementedCall => String::from_str("未实现的函数调用"),
            CodegenError::InvalidAssignmentTarget => String::from_str("无效的赋值目标"),
            CodegenError::SymbolNotFound { name } => {
                let mut s = String::from_str("符号未找到: ");
                s.append(name.as_str());
                s
            },
            CodegenError::TypeMismatch { expected, found } => {
                let mut s = String::from_str("类型不匹配: 期望 ");
                s.append(expected.as_str());
                s.append(", 实际 ");
                s.append(found.as_str());
                s
            },
            CodegenError::OutOfRegisters => String::from_str("寄存器不足"),
            CodegenError::InvalidOperand => String::from_str("无效的操作数"),
        }
    }
}

/// Magic number at the start of every bytecode file.
pub const YAOXIANG_MAGIC: u32 = 0x59584243;

/// Version of the bytecode format.
pub const BYTECODE_VERSION: u32 = 2;

/// Code generator settings.
#[derive(Debug, Clone, Copy, PartialEq, Eq, Structural)]
pub struct CodegenConfig {
    /// Whether optimisations are enabled
    pub enable_optimizations: bool,
    /// Whether debug information is generated
    pub generate_debug_info: bool,
    /// Whether inline caches are enabled
    pub enable_inline_cache: bool,
}

impl CodegenConfig {
    /// The default settings: optimisations and inline caches on, debug
    /// information off.
    pub open spec fn spec_default() -> CodegenConfig {
        CodegenConfig { enable_optimizations: true, generate_debug_info: false, enable_inline_cache: true }
    }
}

impl Default for CodegenConfig {
    /// Optimisations and inline caches on, debug information off.
    fn default() -> (c: Self)
        ensures
            c == CodegenConfig::spec_default(),
    {
        CodegenConfig {
            enable_optimizations: true,
            generate_debug_info: false,
            enable_inline_cache: true,
        }
    }
}

/// The entry function: the first function named `main`, or 0 when none is.
pub open spec fn entry_index(functions: Seq<FunctionIR>) -> usize {
    if exists|i: int| 0 <= i < functions.len() && functions[i].name@ == "main"@ {
        (choose|i: int|
            0 <= i < functions.len() && functions[i].name@ == "main"@ && forall|j: int|
                0 <= j < i ==> functions[j].name@ != "main"@) as usize
    } else {
        0
    }
}

/// The function index table of a module: each name maps to the position of
/// the last function with that name among the first `n`.
pub open spec fn function_index_map(functions: Seq<FunctionIR>, n: int) -> Map<Seq<char>, usize>
    decreases n,
{
    if n <= 0 {
        Map::empty()
    } else {
        function_index_map(functions, n - 1).insert(functions[n - 1].name@, (n - 1) as usize)
    }
}

/// Every function is found in the index table of a module: its name maps
/// to a position at or after its own, and every entry of the table names a
/// function with that name.
pub proof fn law_function_index_map(functions: Seq<FunctionIR>, n: int)
    requires
        0 <= n <= functions.len(),
        n <= usize::MAX + 1,
    ensures
        forall|i: int|
            0 <= i < n ==> #[trigger] function_index_map(functions, n).contains_key(functions[i].name@)
                && i <= function_index_map(functions, n)[functions[i].name@],
        forall|name: Seq<char>|
            #[trigger] function_index_map(functions, n).contains_key(name) ==> {
                let k = function_index_map(functions, n)[name] as int;
                0 <= k < n && functions[k].name@ == name
            },
    decreases n,
{
    if n > 0 {
        law_function_index_map(functions, n - 1);
    }
}

/// Code generation context: the module being compiled, the function in
/// progress, symbol scopes, flow bookkeeping and settings.
#[derive(Debug)]
pub struct CodegenContext {
    /// The module being compiled
    pub module: ModuleIR,
    /// The function being compiled
    pub current_function: Option<FunctionIR>,
    /// Symbols and scopes
    pub symbols: SymbolScopeManager,
    /// Registers, labels, jump tables and function indices
    pub flow: FlowManager,
    /// Settings
    pub config: CodegenConfig,
    /// The constant pool being built
    pub const_pool: Vec<ConstValue>,
}

impl CodegenContext {
    /// A context for `module` with default settings, fresh scopes and flow
    /// state, and every function of the module indexed by name.
    pub fn new(module: ModuleIR) -> (ctx: Self)
        ensures
            ctx.module == module,
            ctx.current_function is None,
            ctx.symbols.wf(),
            ctx.symbols.scopes() == seq![Map::<Seq<char>, Symbol>::empty()],
            ctx.symbols.level() == 0,
            ctx.symbols.table()@ == Map::<Seq<char>, Symbol>::empty(),
            ctx.flow.wf(),
            ctx.flow@ == (FlowView {
                local_count: 0,
                temp_count: 0,
                next_label: 0,
                code_offsets: Map::empty(),
                jump_tables: Map::empty(),
                function_indices: function_index_map(
                    module.functions@,
                    module.functions@.len() as int,
                ),
                loop_label: None,
            }),
            ctx.config == CodegenConfig::spec_default(),
            ctx.const_pool@.len() == 0,
    {
        let mut flow = FlowManager::new();
        let mut idx: usize = 0;
        while idx < module.functions.len()
            invariant
                idx <= module.functions@.len(),
                flow.wf(),
                flow@ == (FlowView {
                    local_count: 0,
                    temp_count: 0,
                    next_label: 0,
                    code_offsets: Map::empty(),
                    jump_tables: Map::empty(),
                    function_indices: function_index_map(module.functions@, idx as int),
                    loop_label: None,
                }),
            decreases module.functions@.len() - idx,
        {
            flow.add_function_index(module.functions[idx].name.clone(), idx);
            idx = idx + 1;
        }
        CodegenContext {
            module,
            current_function: None,
            symbols: SymbolScopeManager::new(),
            flow,
            config: CodegenConfig::default(),
            const_pool: Vec::new(),
        }
    }

    /// The file flags of the settings: bit 1 marks debug information.
    pub fn compute_flags(&self) -> (flags: u32)
        ensures
            flags == (if self.config.generate_debug_info { 0x02u32 } else { 0u32 }),
    {
        let mut flags: u32 = 0;
        if self.config.generate_debug_info {
            flags = flags | 0x02;
            assert(flags == 0x02) by (bit_vector)
                requires
                    flags == (0u32 | 0x02u32),
            ;
        }
        flags
    }

    /// The index of the entry function (see [`entry_index`]).
    pub fn find_entry_point(&self) -> (idx: usize)
        ensures
            idx == entry_index(self.module.functions@),
    {
        let functions = &self.module.functions;
        let main = String::from_str("main");
        let mut idx: usize = 0;
        while idx < functions.len()
            invariant
                idx <= functions@.len(),
                functions@ == self.module.functions@,
                main@ == "main"@,
                forall|j: int| 0 <= j < idx ==> functions@[j].name@ != "main"@,
            decreases functions@.len() - idx,
        {
            if functions[idx].name == main {
                proof {
                    let w = choose|i: int|
                        0 <= i < functions@.len() && functions@[i].name@ == "main"@ && forall|j: int|
                            0 <= j < i ==> functions@[j].name@ != "main"@;
                    assert(functions@[idx as int].name@ == "main"@);
                    assert(w == idx);
                }
                return idx;
            }
            idx = idx + 1;
        }
        0
    }

    /// The file header: magic, version, the settings' flags, the entry
    /// function's index (as 32 bits) and four sections; size and checksum
    /// are left 0.
    pub fn generate_header(&self) -> (h: FileHeader)
        ensures
            h == (FileHeader {
                magic: YAOXIANG_MAGIC,
                version: BYTECODE_VERSION,
                flags: if self.config.generate_debug_info { 0x02u32 } else { 0u32 },
                entry_point: entry_index(self.module.functions@) as u32,
                section_count: 4,
                file_size: 0,
                checksum: 0,
            }),
    {
        FileHeader {
            magic: YAOXIANG_MAGIC,
            version: BYTECODE_VERSION,
            flags: self.compute_flags(),
            entry_point: self.find_entry_point() as u32,
            section_count: 4,
            file_size: 0,
            checksum: 0,
        }
    }

    /// Adds a constant to the pool and gives its index.
    pub fn add_constant(&mut self, value: ConstValue) -> (idx: usize)
        ensures
            idx == old(self).const_pool@.len(),
            final(self).const_pool@ == old(self).const_pool@.push(value),
            final(self).module == old(self).module,
            final(self).current_function == old(self).current_function,
            final(self).symbols == old(self).symbols,
            final(self).flow == old(self).flow,
            final(self).config == old(self).config,
    {
        let idx = self.const_pool.len();
        self.const_pool.push(value);
        idx
    }

    /// Allocates the next temporary register.
    pub fn next_temp(&mut self) -> (id: usize)
        requires
            old(self).flow.wf(),
            old(self).flow@.temp_count < usize::MAX,
        ensures
            final(self).flow.wf(),
            id == old(self).flow@.temp_count,
            final(self).flow@ == (FlowView { temp_count: (id + 1) as usize, ..old(self).flow@ }),
            final(self).module == old(self).module,
            final(self).current_function == old(self).current_function,
            final(self).symbols == old(self).symbols,
            final(self).config == old(self).config,
            final(self).const_pool == old(self).const_pool,
    {
        self.flow.alloc_temp()
    }

    /// Allocates the next local register.
    pub fn next_local(&mut self) -> (id: usize)
        requires
            old(self).flow.wf(),
            old(self).flow@.local_count < usize::MAX,
        ensures
            final(self).flow.wf(),
            id == old(self).flow@.local_count,
            final(self).flow@ == (FlowView { local_count: (id + 1) as usize, ..old(self).flow@ }),
            final(self).module == old(self).module,
            final(self).current_function == old(self).current_function,
            final(self).symbols == old(self).symbols,
            final(self).config == old(self).config,
            final(self).const_pool == old(self).const_pool,
    {
        self.flow.alloc_local()
    }

    /// Hands out the next label.
    pub fn next_label(&mut self) -> (label: usize)
        requires
            old(self).flow.wf(),
            old(self).flow@.next_label < usize::MAX,
        ensures
            final(self).flow.wf(),
            label == old(self).flow@.next_label,
            final(self).flow@ == (FlowView { next_label: (label + 1) as usize, ..old(self).flow@ }),
            final(self).module == old(self).module,
            final(self).current_function == old(self).current_function,
            final(self).symbols == old(self).symbols,
            final(self).config == old(self).config,
            final(self).const_pool == old(self).const_pool,
    {
        self.flow.next_label()
    }
}

impl Default for CodegenContext {
    /// A context for an empty module.
    fn default() -> (ctx: Self)
        ensures
            ctx.module.functions@.len() == 0,
            ctx.current_function is None,
            ctx.symbols.wf(),
            ctx.flow.wf(),
            ctx.config == CodegenConfig::spec_default(),
            ctx.const_pool@.len() == 0,
    {
        CodegenContext::new(ModuleIR::default())
    }
}

} // verus!
