//! Flow state management: register allocation, label generation, jump
//! tables, function indices, and symbol tables with nested scopes.
use vstd::prelude::*;
use std::collections::{HashMap, HashSet};
use vstd::std_specs::iter::IteratorSpec;
use crate::util::str_map::StrMap;
use crate::frontend::typecheck::MonoType;

verus! {

broadcast use vstd::std_specs::hash::group_hash_axioms;

// ===== Labels =====

/// Label generator: hands out consecutive label numbers.
#[derive(Debug)]
pub struct LabelGenerator {
    next_label: usize,
}

impl View for LabelGenerator {
    /// The next label number that will be handed out.
    type V = usize;

    closed spec fn view(&self) -> usize {
        self.next_label
    }
}

impl LabelGenerator {
    /// A generator whose first label is 0.
    pub fn new() -> (g: Self)
        ensures
            g@ == 0,
    {
        LabelGenerator { next_label: 0 }
    }

    /// Hands out the next label.
    pub fn next(&mut self) -> (label: usize)
        requires
            old(self)@ < usize::MAX,
        ensures
            label == old(self)@,
            final(self)@ == old(self)@ + 1,
    {
        let label = self.next_label;
        self.next_label = self.next_label + 1;
        label
    }

    /// Restarts numbering at 0.
    pub fn reset(&mut self)
        ensures
            final(self)@ == 0,
    {
        self.next_label = 0;
    }

    /// The label that `next` would hand out.
    pub fn peek_next(&self) -> (label: usize)
        ensures
            label == self@,
    {
        self.next_label
    }
}

/// The label counter after `k` calls of `next` starting from `start`, as
/// `next` states each step.
pub open spec fn counter_after_nexts(start: usize, k: nat) -> int
    decreases k,
{
    if k == 0 {
        start as int
    } else {
        counter_after_nexts(start, (k - 1) as nat) + 1
    }
}

/// From a new generator, after `k` calls of `next` (and no reset) the
/// counter is `k`: `peek_next` gives `k`, which the next call of `next`
/// hands out, and the `i`-th call handed out `i`.
pub proof fn law_labels_count_calls(k: nat)
    ensures
        counter_after_nexts(0, k) == k,
        forall|i: nat| i < k ==> counter_after_nexts(0, i) == i,
    decreases k,
{
    if k > 0 {
        law_labels_count_calls((k - 1) as nat);
    }
}

impl Default for LabelGenerator {
    fn default() -> (g: Self)
        ensures
            g@ == 0,
    {
        LabelGenerator::new()
    }
}

// ===== Registers =====

/// The register ids `0..n`.
pub open spec fn ids_below(n: nat) -> Set<usize> {
    Set::new(|i: usize| i < n)
}

/// `ids_below(n)` is finite with `n` elements.
pub proof fn lemma_ids_below_len(n: nat)
    requires
        n <= usize::MAX + 1,
    ensures
        ids_below(n).finite(),
        ids_below(n).len() == n,
    decreases n,
{
    if n == 0 {
        assert(ids_below(0) =~= Set::<usize>::empty());
    } else {
        lemma_ids_below_len((n - 1) as nat);
        let m = (n - 1) as usize;
        assert(ids_below(n) =~= ids_below((n - 1) as nat).insert(m));
    }
}

/// The larger of two counters.
pub open spec fn max_count(a: usize, b: usize) -> usize {
    if a >= b {
        a
    } else {
        b
    }
}

/// Register allocator. Local and temporary registers are numbered
/// independently from 0; the set of allocated ids is shared, so it always
/// holds the ids below the larger of the two counters.
#[derive(Debug)]
pub struct RegisterAllocator {
    next_local: usize,
    next_temp: usize,
    allocated: HashSet<usize>,
}

impl RegisterAllocator {
    /// The next local register id.
    pub closed spec fn local_count(&self) -> usize {
        self.next_local
    }

    /// The next temporary register id.
    pub closed spec fn temp_count(&self) -> usize {
        self.next_temp
    }

    /// The allocated ids are exactly those below the larger counter.
    pub closed spec fn wf(&self) -> bool {
        self.allocated@ == ids_below(max_count(self.next_local, self.next_temp) as nat)
    }

    /// An allocator with nothing allocated.
    pub fn new() -> (r: Self)
        ensures
            r.wf(),
            r.local_count() == 0,
            r.temp_count() == 0,
    {
        let r = RegisterAllocator { next_local: 0, next_temp: 0, allocated: HashSet::new() };
        assert(r.allocated@ =~= ids_below(0));
        r
    }

    /// Allocates the next local register.
    pub fn alloc_local(&mut self) -> (id: usize)
        requires
            old(self).wf(),
            old(self).local_count() < usize::MAX,
        ensures
            final(self).wf(),
            id == old(self).local_count(),
            final(self).local_count() == old(self).local_count() + 1,
            final(self).temp_count() == old(self).temp_count(),
    {
        let id = self.next_local;
        self.next_local = self.next_local + 1;
        self.allocated.insert(id);
        assert(self.allocated@ =~= ids_below(max_count(self.next_local, self.next_temp) as nat));
        id
    }

    /// Allocates the next temporary register.
    pub fn alloc_temp(&mut self) -> (id: usize)
        requires
            old(self).wf(),
            old(self).temp_count() < usize::MAX,
        ensures
            final(self).wf(),
            id == old(self).temp_count(),
            final(self).temp_count() == old(self).temp_count() + 1,
            final(self).local_count() == old(self).local_count(),
    {
        let id = self.next_temp;
        self.next_temp = self.next_temp + 1;
        self.allocated.insert(id);
        assert(self.allocated@ =~= ids_below(max_count(self.next_local, self.next_temp) as nat));
        id
    }

    /// The id the next local allocation returns.
    pub fn next_local_id(&self) -> (id: usize)
        ensures
            id == self.local_count(),
    {
        self.next_local
    }

    /// The id the next temporary allocation returns.
    pub fn next_temp_id(&self) -> (id: usize)
        ensures
            id == self.temp_count(),
    {
        self.next_temp
    }

    /// Forgets all allocations.
    pub fn reset(&mut self)
        ensures
            final(self).wf(),
            final(self).local_count() == 0,
            final(self).temp_count() == 0,
    {
        self.next_local = 0;
        self.next_temp = 0;
        self.allocated.clear();
        assert(self.allocated@ =~= ids_below(0));
    }

    /// Number of distinct register ids allocated: the larger of the two
    /// counters.
    pub fn allocated_count(&self) -> (n: usize)
        requires
            self.wf(),
        ensures
            n == max_count(self.local_count(), self.temp_count()),
    {
        proof {
            lemma_ids_below_len(max_count(self.next_local, self.next_temp) as nat);
        }
        self.allocated.len()
    }
}

impl Default for RegisterAllocator {
    fn default() -> (r: Self)
        ensures
            r.wf(),
            r.local_count() == 0,
            r.temp_count() == 0,
    {
        RegisterAllocator::new()
    }
}

// ===== Jump tables =====

/// Jump table: case key to target label.
#[derive(Debug, Clone)]
pub struct JumpTable {
    pub index: u16,
    pub entries: HashMap<usize, usize>,
}

impl JumpTable {
    /// An empty table with the given index.
    pub fn new(index: u16) -> (t: Self)
        ensures
            t.index == index,
            t.entries@ == Map::<usize, usize>::empty(),
    {
        JumpTable { index, entries: HashMap::new() }
    }

    /// Maps `key` to `target`, replacing an earlier target for `key`.
    pub fn add_entry(&mut self, key: usize, target: usize)
        ensures
            final(self).index == old(self).index,
            final(self).entries@ == old(self).entries@.insert(key, target),
    {
        self.entries.insert(key, target);
    }

    /// The target for `key`, if any.
    pub fn get(&self, key: &usize) -> (r: Option<&usize>)
        ensures
            match r {
                Some(t) => self.entries@.contains_key(*key) && *t == self.entries@[*key],
                None => !self.entries@.contains_key(*key),
            },
    {
        self.entries.get(key)
    }

    /// Number of entries.
    pub fn len(&self) -> (n: usize)
        ensures
            n == self.entries@.len(),
    {
        self.entries.len()
    }
}


/// `index` is the index a new jump table gets when the tables in `dom`
/// exist: 0 where there are none, else one past the largest.
pub open spec fn is_next_table_index(dom: Set<u16>, index: u16) -> bool {
    &&& forall|k: u16| dom.contains(k) ==> k < index
    &&& (dom.is_empty() ==> index == 0)
    &&& (!dom.is_empty() ==> dom.contains((index - 1) as u16))
}

// ===== Flow manager =====

/// What a [`FlowManager`] holds, as mathematical values.
pub struct FlowView {
    /// Next local register id.
    pub local_count: usize,
    /// Next temporary register id.
    pub temp_count: usize,
    /// Next label number.
    pub next_label: usize,
    /// Instruction index to code offset.
    pub code_offsets: Map<usize, usize>,
    /// Jump tables by index.
    pub jump_tables: Map<u16, JumpTable>,
    /// Function name to function index.
    pub function_indices: Map<Seq<char>, usize>,
    /// The innermost loop's (loop label, end label).
    pub loop_label: Option<(usize, usize)>,
}

/// Control-flow bookkeeping for one code generator: registers, labels,
/// code offsets, jump tables, function indices and the current loop.
#[derive(Debug)]
pub struct FlowManager {
    register_allocator: RegisterAllocator,
    label_generator: LabelGenerator,
    code_offsets: HashMap<usize, usize>,
    jump_tables: HashMap<u16, JumpTable>,
    function_indices: StrMap<usize>,
    current_loop_label: Option<(usize, usize)>,
}

impl View for FlowManager {
    type V = FlowView;

    closed spec fn view(&self) -> FlowView {
        FlowView {
            local_count: self.register_allocator.local_count(),
            temp_count: self.register_allocator.temp_count(),
            next_label: self.label_generator@,
            code_offsets: self.code_offsets@,
            jump_tables: self.jump_tables@,
            function_indices: self.function_indices@,
            loop_label: self.current_loop_label,
        }
    }
}

impl FlowManager {
    /// The register allocator and the function index map are consistent.
    pub closed spec fn wf(&self) -> bool {
        self.register_allocator.wf() && self.function_indices.wf()
    }

    /// A manager with nothing allocated, no labels, tables or functions, and
    /// no current loop.
    pub fn new() -> (m: Self)
        ensures
            m.wf(),
            m@ == (FlowView {
                local_count: 0,
                temp_count: 0,
                next_label: 0,
                code_offsets: Map::empty(),
                jump_tables: Map::empty(),
                function_indices: Map::empty(),
                loop_label: None,
            }),
    {
        FlowManager {
            register_allocator: RegisterAllocator::new(),
            label_generator: LabelGenerator::new(),
            code_offsets: HashMap::new(),
            jump_tables: HashMap::new(),
            function_indices: StrMap::new(),
            current_loop_label: None,
        }
    }

    /// Allocates the next local register.
    pub fn alloc_local(&mut self) -> (id: usize)
        requires
            old(self).wf(),
            old(self)@.local_count < usize::MAX,
        ensures
            final(self).wf(),
            id == old(self)@.local_count,
            final(self)@ == (FlowView { local_count: (id + 1) as usize, ..old(self)@ }),
    {
        self.register_allocator.alloc_local()
    }

    /// Allocates the next temporary register.
    pub fn alloc_temp(&mut self) -> (id: usize)
        requires
            old(self).wf(),
            old(self)@.temp_count < usize::MAX,
        ensures
            final(self).wf(),
            id == old(self)@.temp_count,
            final(self)@ == (FlowView { temp_count: (id + 1) as usize, ..old(self)@ }),
    {
        self.register_allocator.alloc_temp()
    }

    /// The id the next local allocation returns.
    pub fn next_local_id(&self) -> (id: usize)
        ensures
            id == self@.local_count,
    {
        self.register_allocator.next_local_id()
    }

    /// The id the next temporary allocation returns.
    pub fn next_temp_id(&self) -> (id: usize)
        ensures
            id == self@.temp_count,
    {
        self.register_allocator.next_temp_id()
    }

    /// Forgets all register allocations.
    pub fn reset_registers(&mut self)
        requires
            old(self).wf(),
        ensures
            final(self).wf(),
            final(self)@ == (FlowView { local_count: 0, temp_count: 0, ..old(self)@ }),
    {
        self.register_allocator.reset();
    }

    /// Hands out the next label.
    pub fn next_label(&mut self) -> (label: usize)
        requires
            old(self).wf(),
            old(self)@.next_label < usize::MAX,
        ensures
            final(self).wf(),
            label == old(self)@.next_label,
            final(self)@ == (FlowView { next_label: (label + 1) as usize, ..old(self)@ }),
    {
        self.label_generator.next()
    }

    /// Records the code offset of an instruction.
    pub fn add_code_offset(&mut self, instr_idx: usize, offset: usize)
        requires
            old(self).wf(),
        ensures
            final(self).wf(),
            final(self)@ == (FlowView {
                code_offsets: old(self)@.code_offsets.insert(instr_idx, offset),
                ..old(self)@
            }),
    {
        self.code_offsets.insert(instr_idx, offset);
    }

    /// The recorded code offset of an instruction, if any.
    pub fn get_code_offset(&self, instr_idx: &usize) -> (r: Option<&usize>)
        ensures
            match r {
                Some(o) => self@.code_offsets.contains_key(*instr_idx) && *o
                    == self@.code_offsets[*instr_idx],
                None => !self@.code_offsets.contains_key(*instr_idx),
            },
    {
        self.code_offsets.get(instr_idx)
    }

    /// Stores a jump table under its own index, replacing an earlier table
    /// with that index.
    pub fn add_jump_table(&mut self, table: JumpTable)
        requires
            old(self).wf(),
        ensures
            final(self).wf(),
            final(self)@ == (FlowView {
                jump_tables: old(self)@.jump_tables.insert(table.index, table),
                ..old(self)@
            }),
    {
        self.jump_tables.insert(table.index, table);
    }

    /// The jump table with the given index, if any.
    pub fn get_jump_table(&self, index: &u16) -> (r: Option<&JumpTable>)
        ensures
            match r {
                Some(t) => self@.jump_tables.contains_key(*index) && *t
                    == self@.jump_tables[*index],
                None => !self@.jump_tables.contains_key(*index),
            },
    {
        self.jump_tables.get(index)
    }

    /// The index for a new jump table: 0 when there is none, else one past
    /// the largest index in use, so it never collides with an existing table.
    pub fn get_jump_table_index(&self) -> (r: Option<u16>)
        requires
            !self@.jump_tables.contains_key(u16::MAX),
        ensures
            r matches Some(i) && is_next_table_index(self@.jump_tables.dom(), i),
    {
        let tables = &self.jump_tables;
        if tables.is_empty() {
            return Some(0);
        }
        let mut best: u16 = 0;
        let ghost keys = vstd::std_specs::hash::spec_keys_iter(tables).remaining().unref();
        let ghost mut seen: int = 0;
        let ghost mut witness: int = 0;
        proof {
            vstd::std_specs::hash::axiom_spec_keys_iter(tables);
        }
        for k in it: tables.keys()
            invariant
                it.seq().unref() == keys,
                seen == it.index(),
                keys.to_set() == tables@.dom(),
                forall|j: int| 0 <= j < it.index() ==> keys[j] <= best,
                it.index() == 0 ==> best == 0 && witness == 0,
                it.index() > 0 ==> 0 <= witness < it.index() && keys[witness] == best,
        {
            assert(keys[seen] == *k);
            if *k > best {
                best = *k;
                proof {
                    witness = seen;
                }
            }
            proof {
                seen = seen + 1;
            }
        }
        proof {
            assert(seen == keys.len());
            assert(keys.len() > 0) by {
                let x = tables@.dom().choose();
                assert(keys.to_set().contains(x));
            }
            assert(keys.to_set().contains(keys[witness]));
            assert forall|k: u16| tables@.dom().contains(k) implies k <= best by {
                assert(keys.to_set().contains(k));
                let jj = choose|jj: int| 0 <= jj < keys.len() && keys[jj] == k;
                assert(keys[jj] <= best);
            }
        }
        Some(best + 1)
    }

    /// Records the index of a function.
    pub fn add_function_index(&mut self, name: String, index: usize)
        requires
            old(self).wf(),
        ensures
            final(self).wf(),
            final(self)@ == (FlowView {
                function_indices: old(self)@.function_indices.insert(name@, index),
                ..old(self)@
            }),
    {
        self.function_indices.insert(name, index);
    }

    /// The recorded index of a function, if any.
    pub fn get_function_index(&self, name: &str) -> (r: Option<&usize>)
        requires
            self.wf(),
        ensures
            match r {
                Some(i) => self@.function_indices.contains_key(name@) && *i
                    == self@.function_indices[name@],
                None => !self@.function_indices.contains_key(name@),
            },
    {
        self.function_indices.get(name)
    }

    /// All recorded function indices.
    pub fn function_indices(&self) -> (m: &StrMap<usize>)
        requires
            self.wf(),
        ensures
            m.wf(),
            m@ == self@.function_indices,
    {
        &self.function_indices
    }

    /// Enters a loop with the given loop and end labels.
    pub fn set_loop_label(&mut self, loop_label: usize, end_label: usize)
        requires
            old(self).wf(),
        ensures
            final(self).wf(),
            final(self)@ == (FlowView { loop_label: Some((loop_label, end_label)), ..old(self)@ }),
    {
        self.current_loop_label = Some((loop_label, end_label));
    }

    /// The current loop's (loop label, end label), if any.
    pub fn loop_label(&self) -> (r: Option<(usize, usize)>)
        ensures
            r == self@.loop_label,
    {
        self.current_loop_label
    }

    /// Leaves the current loop.
    pub fn clear_loop_label(&mut self)
        requires
            old(self).wf(),
        ensures
            final(self).wf(),
            final(self)@ == (FlowView { loop_label: None, ..old(self)@ }),
    {
        self.current_loop_label = None;
    }
}

impl Default for FlowManager {
    fn default() -> (m: Self)
        ensures
            m.wf(),
            m@ == (FlowView {
                local_count: 0,
                temp_count: 0,
                next_label: 0,
                code_offsets: Map::empty(),
                jump_tables: Map::empty(),
                function_indices: Map::empty(),
                loop_label: None,
            }),
    {
        FlowManager::new()
    }
}

// ===== Symbols and scopes =====

/// A named value visible to the code generator.
#[derive(Debug)]
pub struct Symbol {
    pub name: String,
    pub ty: MonoType,
    pub storage: Storage,
    pub is_mut: bool,
    pub scope_level: usize,
}

/// Where a symbol's value lives.
#[derive(Debug, Clone, Copy, PartialEq, Eq)]
pub enum Storage {
    Local(usize),
    Arg(usize),
    Temp(usize),
    Global(usize),
}

/// Symbols by name.
#[derive(Debug)]
pub struct SymbolTable {
    symbols: StrMap<Symbol>,
}

impl View for SymbolTable {
    type V = Map<Seq<char>, Symbol>;

    closed spec fn view(&self) -> Map<Seq<char>, Symbol> {
        self.symbols@
    }
}

impl SymbolTable {
    /// The underlying map is consistent.
    pub closed spec fn wf(&self) -> bool {
        self.symbols.wf()
    }

    /// The entries in the order their names were first inserted.
    pub closed spec fn entry_seq(&self) -> Seq<(String, Symbol)> {
        self.symbols.entry_seq()
    }

    /// An empty table.
    pub fn new() -> (t: Self)
        ensures
            t.wf(),
            t@ == Map::<Seq<char>, Symbol>::empty(),
    {
        SymbolTable { symbols: StrMap::new() }
    }

    /// Binds `name` to `symbol`, replacing an earlier binding.
    pub fn insert(&mut self, name: String, symbol: Symbol)
        requires
            old(self).wf(),
        ensures
            final(self).wf(),
            final(self)@ == old(self)@.insert(name@, symbol),
    {
        self.symbols.insert(name, symbol);
    }

    /// The symbol bound to `name`, if any.
    pub fn get(&self, name: &str) -> (r: Option<&Symbol>)
        requires
            self.wf(),
        ensures
            match r {
                Some(s) => self@.contains_key(name@) && *s == self@[name@],
                None => !self@.contains_key(name@),
            },
    {
        self.symbols.get(name)
    }

    /// Mutable access to the symbol bound to `name`, if any.
    pub fn get_mut(&mut self, name: &str) -> (r: Option<&mut Symbol>)
        requires
            old(self).wf(),
        ensures
            final(self).wf(),
            match r {
                Some(s) => old(self)@.contains_key(name@) && *s == old(self)@[name@]
                    && final(self)@ == old(self)@.insert(name@, *final(s)),
                None => !old(self)@.contains_key(name@) && final(self)@ == old(self)@,
            },
    {
        self.symbols.get_mut(name)
    }

    /// Whether `name` is bound.
    pub fn contains(&self, name: &str) -> (b: bool)
        requires
            self.wf(),
        ensures
            b == self@.contains_key(name@),
    {
        self.symbols.contains_key(name)
    }

    /// Number of bound names.
    pub fn len(&self) -> (n: usize)
        requires
            self.wf(),
        ensures
            n == self@.len(),
    {
        self.symbols.len()
    }

    /// Whether no name is bound.
    pub fn is_empty(&self) -> (b: bool)
        requires
            self.wf(),
        ensures
            b == (self@.len() == 0),
    {
        self.symbols.is_empty()
    }

    /// The bindings, each name once, in the order of first insertion.
    pub fn iter(&self) -> (e: &Vec<(String, Symbol)>)
        requires
            self.wf(),
        ensures
            e@ == self.entry_seq(),
            e@.len() == self@.len(),
            forall|k: Seq<char>|
                #[trigger] self@.contains_key(k) <==> exists|i: int|
                    0 <= i < e@.len() && e@[i].0@ == k,
            forall|i: int| 0 <= i < e@.len() ==> #[trigger] self@[e@[i].0@] == e@[i].1,
    {
        proof {
            self.symbols.lemma_entries();
        }
        self.symbols.entries()
    }
}

impl Default for SymbolTable {
    fn default() -> (t: Self)
        ensures
            t.wf(),
            t@ == Map::<Seq<char>, Symbol>::empty(),
    {
        SymbolTable::new()
    }
}

/// The symbol `name` resolves to in a stack of scopes: the binding in the
/// innermost scope (the last one) that binds it.
pub open spec fn lookup_in(scopes: Seq<Map<Seq<char>, Symbol>>, name: Seq<char>) -> Option<Symbol>
    decreases scopes.len(),
{
    if scopes.len() == 0 {
        None
    } else if scopes.last().contains_key(name) {
        Some(scopes.last()[name])
    } else {
        lookup_in(scopes.drop_last(), name)
    }
}

/// The scopes after opening a new, empty innermost scope.
pub open spec fn pushed_scope(scopes: Seq<Map<Seq<char>, Symbol>>) -> Seq<Map<Seq<char>, Symbol>> {
    scopes.push(Map::empty())
}

/// The scopes after closing the innermost scope; the outermost scope is
/// never closed.
pub open spec fn popped_scope(scopes: Seq<Map<Seq<char>, Symbol>>) -> Seq<Map<Seq<char>, Symbol>> {
    if scopes.len() > 1 {
        scopes.drop_last()
    } else {
        scopes
    }
}

/// The scopes after binding `name` in the innermost scope.
pub open spec fn bound_in_current(
    scopes: Seq<Map<Seq<char>, Symbol>>,
    name: Seq<char>,
    symbol: Symbol,
) -> Seq<Map<Seq<char>, Symbol>> {
    scopes.update(scopes.len() - 1, scopes.last().insert(name, symbol))
}

/// The maps a stack of scopes denotes.
pub open spec fn scope_views(scopes: Seq<StrMap<Symbol>>) -> Seq<Map<Seq<char>, Symbol>> {
    scopes.map_values(|m: StrMap<Symbol>| m@)
}

/// Replacing one scope replaces its view.
proof fn lemma_scope_views_update(scopes: Seq<StrMap<Symbol>>)
    ensures
        forall|i: int, m: StrMap<Symbol>|
            0 <= i < scopes.len() ==> #[trigger] scope_views(scopes.update(i, m)) == scope_views(
                scopes,
            ).update(i, m@),
{
    assert forall|i: int, m: StrMap<Symbol>| 0 <= i < scopes.len() implies #[trigger] scope_views(
        scopes.update(i, m),
    ) == scope_views(scopes).update(i, m@) by {
        assert(scope_views(scopes.update(i, m)) =~= scope_views(scopes).update(i, m@));
    }
}

/// Nested symbol scopes over a stack of maps, with a level counter.
///
/// A manager made by [`SymbolScopeManager::new`] starts with one outermost
/// scope at level 0, which is never closed, so its level is the number of
/// scopes above the outermost. One made by `Default` starts with no scope
/// at level 0; opening a scope then raises the level to 1.
#[derive(Debug)]
pub struct SymbolScopeManager {
    symbol_table: SymbolTable,
    scopes: Vec<StrMap<Symbol>>,
    scope_level: usize,
}

impl SymbolScopeManager {
    /// The scopes, outermost first, as maps.
    pub closed spec fn scopes(&self) -> Seq<Map<Seq<char>, Symbol>> {
        scope_views(self.scopes@)
    }

    /// The level counter.
    pub closed spec fn level(&self) -> usize {
        self.scope_level
    }

    /// The separate symbol table.
    pub closed spec fn table(&self) -> SymbolTable {
        self.symbol_table
    }

    /// The outermost scope is open and the level counts the scopes above
    /// it: so it is for every manager made by [`SymbolScopeManager::new`],
    /// whatever is done with it.
    pub open spec fn rooted(&self) -> bool {
        self.scopes().len() >= 1 && self.level() + 1 == self.scopes().len()
    }

    /// The level is one less than the number of scopes (a manager that
    /// started with its outermost scope) or equal to it (one that started
    /// with none); every map is consistent.
    pub closed spec fn wf(&self) -> bool {
        &&& (self.scope_level + 1 == self.scopes@.len() || self.scope_level == self.scopes@.len())
        &&& forall|i: int| 0 <= i < self.scopes@.len() ==> #[trigger] self.scopes@[i].wf()
        &&& self.symbol_table.wf()
    }

    /// One empty scope at level 0 and an empty symbol table.
    pub fn new() -> (m: Self)
        ensures
            m.wf(),
            m.rooted(),
            m.scopes() == seq![Map::<Seq<char>, Symbol>::empty()],
            m.level() == 0,
            m.table().wf(),
            m.table()@ == Map::<Seq<char>, Symbol>::empty(),
    {
        let mut scopes: Vec<StrMap<Symbol>> = Vec::new();
        scopes.push(StrMap::new());
        let m = SymbolScopeManager { symbol_table: SymbolTable::new(), scopes, scope_level: 0 };
        assert(m.scopes() =~= seq![Map::<Seq<char>, Symbol>::empty()]);
        m
    }

    /// Opens a new innermost scope.
    pub fn push_scope(&mut self)
        requires
            old(self).wf(),
            old(self).level() < usize::MAX,
        ensures
            final(self).wf(),
            final(self).scopes() == pushed_scope(old(self).scopes()),
            final(self).level() == old(self).level() + 1,
            final(self).table() == old(self).table(),
            old(self).rooted() ==> final(self).rooted(),
    {
        self.scopes.push(StrMap::new());
        self.scope_level = self.scope_level + 1;
        assert(self.scopes() =~= pushed_scope(old(self).scopes()));
    }

    /// Closes the innermost scope, unless at most one scope is open.
    pub fn pop_scope(&mut self)
        requires
            old(self).wf(),
        ensures
            final(self).wf(),
            final(self).scopes() == popped_scope(old(self).scopes()),
            final(self).level() == (if old(self).scopes().len() > 1 {
                (old(self).level() - 1) as usize
            } else {
                old(self).level()
            }),
            final(self).table() == old(self).table(),
            old(self).rooted() ==> final(self).rooted(),
    {
        if self.scopes.len() > 1 {
            self.scopes.pop();
            self.scope_level = self.scope_level - 1;
            assert(self.scopes() =~= popped_scope(old(self).scopes()));
        }
    }

    /// Mutable access to the innermost scope.
    pub fn current_scope(&mut self) -> (r: &mut StrMap<Symbol>)
        requires
            old(self).wf(),
            old(self).scopes().len() >= 1,
        ensures
            r.wf(),
            r@ == old(self).scopes().last(),
            final(self).scopes() == old(self).scopes().update(
                old(self).scopes().len() - 1,
                final(r)@,
            ),
            final(self).level() == old(self).level(),
            final(self).table() == old(self).table(),
            final(self).wf() <==> final(r).wf(),
            old(self).rooted() ==> final(self).rooted(),
    {
        let last = self.scopes.len() - 1;
        let ghost before = self.scopes@;
        proof {
            lemma_scope_views_update(before);
        }
        vstd::std_specs::vec::vec_index_mut(&mut self.scopes, last)
    }

    /// Binds `name` to `symbol` in the innermost scope; with no scope open
    /// nothing happens.
    pub fn insert(&mut self, name: String, symbol: Symbol)
        requires
            old(self).wf(),
        ensures
            final(self).wf(),
            final(self).scopes() == (if old(self).scopes().len() > 0 {
                bound_in_current(old(self).scopes(), name@, symbol)
            } else {
                old(self).scopes()
            }),
            final(self).level() == old(self).level(),
            final(self).table() == old(self).table(),
            old(self).rooted() ==> final(self).rooted(),
    {
        if self.scopes.len() > 0 {
            let ghost k = name@;
            let ghost sym = symbol;
            let last = self.scopes.len() - 1;
            let scope = vstd::std_specs::vec::vec_index_mut(&mut self.scopes, last);
            scope.insert(name, symbol);
            assert(self.scopes() =~= bound_in_current(old(self).scopes(), k, sym));
        }
    }

    /// The symbol `name` resolves to, searching from the innermost scope
    /// outwards.
    pub fn lookup(&self, name: &str) -> (r: Option<&Symbol>)
        requires
            self.wf(),
        ensures
            match r {
                Some(s) => lookup_in(self.scopes(), name@) == Some(*s),
                None => lookup_in(self.scopes(), name@) is None,
            },
    {
        let mut i = self.scopes.len();
        assert(self.scopes().take(i as int) =~= self.scopes());
        while i > 0
            invariant
                self.wf(),
                i <= self.scopes@.len(),
                lookup_in(self.scopes(), name@) == lookup_in(self.scopes().take(i as int), name@),
            decreases i,
        {
            let ghost pre = self.scopes().take(i as int);
            assert(pre.drop_last() =~= self.scopes().take(i - 1));
            assert(pre.last() == self.scopes@[i - 1]@);
            match self.scopes[i - 1].get(name) {
                Some(symbol) => {
                    return Some(symbol);
                },
                None => {},
            }
            i = i - 1;
        }
        assert(self.scopes().take(0) =~= Seq::<Map<Seq<char>, Symbol>>::empty());
        None
    }

    /// The symbol bound to `name` in the innermost scope, if any; none when
    /// no scope is open.
    pub fn lookup_current(&self, name: &str) -> (r: Option<&Symbol>)
        requires
            self.wf(),
        ensures
            match r {
                Some(s) => self.scopes().len() > 0 && self.scopes().last().contains_key(name@)
                    && *s == self.scopes().last()[name@],
                None => self.scopes().len() == 0 || !self.scopes().last().contains_key(name@),
            },
    {
        if self.scopes.len() == 0 {
            return None;
        }
        self.scopes[self.scopes.len() - 1].get(name)
    }

    /// The level counter.
    pub fn scope_level(&self) -> (n: usize)
        ensures
            n == self.level(),
    {
        self.scope_level
    }

    /// The separate symbol table.
    pub fn symbol_table(&self) -> (t: &SymbolTable)
        ensures
            *t == self.table(),
            self.wf() ==> t.wf(),
    {
        &self.symbol_table
    }

    /// Mutable access to the separate symbol table.
    pub fn symbol_table_mut(&mut self) -> (t: &mut SymbolTable)
        ensures
            *t == old(self).table(),
            old(self).wf() ==> t.wf(),
            final(self).table() == *final(t),
            final(self).scopes() == old(self).scopes(),
            final(self).level() == old(self).level(),
            old(self).rooted() ==> final(self).rooted(),
            old(self).wf() ==> (final(self).wf() <==> final(t).wf()),
    {
        &mut self.symbol_table
    }
}

impl Default for SymbolScopeManager {
    /// No scope, level 0 and an empty symbol table.
    fn default() -> (m: Self)
        ensures
            m.wf(),
            m.scopes() == Seq::<Map<Seq<char>, Symbol>>::empty(),
            m.level() == 0,
            m.table().wf(),
            m.table()@ == Map::<Seq<char>, Symbol>::empty(),
    {
        let m = SymbolScopeManager { symbol_table: SymbolTable::new(), scopes: Vec::new(), scope_level: 0 };
        assert(m.scopes() =~= Seq::<Map<Seq<char>, Symbol>>::empty());
        m
    }
}

/// One operation on a stack of scopes.
pub enum ScopeOp {
    /// Open a scope.
    Push,
    /// Close the innermost scope.
    Pop,
    /// Bind a name in the innermost scope.
    Bind(Seq<char>, Symbol),
}

/// The scopes and level after one operation, as the manager's methods
/// state them.
pub open spec fn scope_step(
    state: (Seq<Map<Seq<char>, Symbol>>, int),
    op: ScopeOp,
) -> (Seq<Map<Seq<char>, Symbol>>, int) {
    let (scopes, level) = state;
    match op {
        ScopeOp::Push => (pushed_scope(scopes), level + 1),
        ScopeOp::Pop => (popped_scope(scopes), if scopes.len() > 1 { level - 1 } else { level }),
        ScopeOp::Bind(name, symbol) => (
            if scopes.len() > 0 { bound_in_current(scopes, name, symbol) } else { scopes },
            level,
        ),
    }
}

/// The scopes and level after a sequence of operations.
pub open spec fn scope_run(
    state: (Seq<Map<Seq<char>, Symbol>>, int),
    ops: Seq<ScopeOp>,
) -> (Seq<Map<Seq<char>, Symbol>>, int)
    decreases ops.len(),
{
    if ops.len() == 0 {
        state
    } else {
        scope_step(scope_run(state, ops.drop_last()), ops.last())
    }
}

/// From a new manager, whatever is done, the outermost scope stays open
/// (so the innermost scope always exists) and the level is the number of
/// scopes above it.
pub proof fn law_new_manager_keeps_outermost_scope(ops: Seq<ScopeOp>)
    ensures
        scope_run((seq![Map::<Seq<char>, Symbol>::empty()], 0), ops).0.len() >= 1,
        scope_run((seq![Map::<Seq<char>, Symbol>::empty()], 0), ops).1 == scope_run(
            (seq![Map::<Seq<char>, Symbol>::empty()], 0),
            ops,
        ).0.len() - 1,
    decreases ops.len(),
{
    if ops.len() > 0 {
        law_new_manager_keeps_outermost_scope(ops.drop_last());
    }
}

/// Opening a scope and closing it again leaves the scopes as they were.
pub proof fn law_push_then_pop(scopes: Seq<Map<Seq<char>, Symbol>>)
    requires
        scopes.len() >= 1,
    ensures
        popped_scope(pushed_scope(scopes)) == scopes,
{
    assert(pushed_scope(scopes).drop_last() =~= scopes);
}

/// A fresh scope hides nothing: every name resolves as before.
pub proof fn law_lookup_after_push(scopes: Seq<Map<Seq<char>, Symbol>>, name: Seq<char>)
    ensures
        lookup_in(pushed_scope(scopes), name) == lookup_in(scopes, name),
        !pushed_scope(scopes).last().contains_key(name),
{
    assert(pushed_scope(scopes).drop_last() =~= scopes);
}

/// A name just bound in the innermost scope resolves to that binding.
pub proof fn law_lookup_after_bind(
    scopes: Seq<Map<Seq<char>, Symbol>>,
    name: Seq<char>,
    symbol: Symbol,
)
    requires
        scopes.len() >= 1,
    ensures
        lookup_in(bound_in_current(scopes, name, symbol), name) == Some(symbol),
        bound_in_current(scopes, name, symbol).last().contains_key(name),
        bound_in_current(scopes, name, symbol).last()[name] == symbol,
        bound_in_current(scopes, name, symbol).drop_last() == scopes.drop_last(),
{
    assert(bound_in_current(scopes, name, symbol).drop_last() =~= scopes.drop_last());
}

/// Binding one name leaves the resolution of every other name unchanged.
pub proof fn law_bind_keeps_other_names(
    scopes: Seq<Map<Seq<char>, Symbol>>,
    name: Seq<char>,
    symbol: Symbol,
    other: Seq<char>,
)
    requires
        scopes.len() >= 1,
        other != name,
    ensures
        lookup_in(bound_in_current(scopes, name, symbol), other) == lookup_in(scopes, other),
{
    assert(bound_in_current(scopes, name, symbol).drop_last() =~= scopes.drop_last());
}

/// What is bound in a scope is gone once that scope is closed: after
/// opening a scope, binding a name in it and closing it, every name
/// resolves as it did before.
pub proof fn law_inner_bindings_end_with_scope(
    scopes: Seq<Map<Seq<char>, Symbol>>,
    name: Seq<char>,
    symbol: Symbol,
    other: Seq<char>,
)
    requires
        scopes.len() >= 1,
    ensures
        popped_scope(bound_in_current(pushed_scope(scopes), name, symbol)) == scopes,
        lookup_in(popped_scope(bound_in_current(pushed_scope(scopes), name, symbol)), other)
            == lookup_in(scopes, other),
{
    assert(bound_in_current(pushed_scope(scopes), name, symbol).drop_last() =~= scopes);
}

/// A binding found in the innermost scope is what a full lookup finds.
pub proof fn law_current_binding_is_found(scopes: Seq<Map<Seq<char>, Symbol>>, name: Seq<char>)
    requires
        scopes.len() >= 1,
        scopes.last().contains_key(name),
    ensures
        lookup_in(scopes, name) == Some(scopes.last()[name]),
{
}

/// A name not bound in the innermost scope resolves as it does in the outer
/// scopes; the innermost lookup finds nothing for it.
pub proof fn law_outer_binding_found(scopes: Seq<Map<Seq<char>, Symbol>>, name: Seq<char>)
    requires
        scopes.len() >= 1,
        !scopes.last().contains_key(name),
    ensures
        lookup_in(scopes, name) == lookup_in(scopes.drop_last(), name),
{
}

/// Closing the scope when only the outermost one is open changes nothing.
pub proof fn law_pop_keeps_outermost(scopes: Seq<Map<Seq<char>, Symbol>>)
    requires
        scopes.len() == 1,
    ensures
        popped_scope(scopes) == scopes,
{
}

/// Every operation keeps a manager rooted: the outermost scope stays open
/// and the level stays the number of scopes above it.
pub proof fn law_steps_keep_rooted(state: (Seq<Map<Seq<char>, Symbol>>, int), op: ScopeOp)
    requires
        state.0.len() >= 1,
        state.1 == state.0.len() - 1,
    ensures
        scope_step(state, op).0.len() >= 1,
        scope_step(state, op).1 == scope_step(state, op).0.len() - 1,
{
}

} // verus!
