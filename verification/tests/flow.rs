use yaoxiang::frontend::typecheck::MonoType;
use yaoxiang::middle::codegen::flow::{
    FlowManager, JumpTable, LabelGenerator, RegisterAllocator, Storage, Symbol, SymbolScopeManager,
    SymbolTable,
};

fn symbol(name: &str, ty: MonoType, storage: Storage, is_mut: bool, scope_level: usize) -> Symbol {
    Symbol { name: name.to_string(), ty, storage, is_mut, scope_level }
}

#[test]
fn test_label_generator() {
    let mut gen = LabelGenerator::new();
    assert_eq!(gen.next(), 0);
    assert_eq!(gen.next(), 1);
    gen.reset();
    assert_eq!(gen.next(), 0);
}

#[test]
fn test_register_allocator() {
    let mut reg = RegisterAllocator::new();
    assert_eq!(reg.alloc_local(), 0);
    assert_eq!(reg.alloc_local(), 1);
    assert_eq!(reg.alloc_temp(), 0);
    assert_eq!(reg.alloc_temp(), 1);
}

#[test]
fn test_flow_manager() {
    let mut cfm = FlowManager::new();
    assert_eq!(cfm.alloc_local(), 0);
    assert_eq!(cfm.alloc_temp(), 0);
    assert_eq!(cfm.next_label(), 0);
    cfm.add_function_index("main".to_string(), 0);
    assert_eq!(cfm.get_function_index("main"), Some(&0));
    cfm.set_loop_label(10, 20);
    assert_eq!(cfm.loop_label(), Some((10, 20)));
}

#[test]
fn test_scope_manager_basic() {
    let mut manager = SymbolScopeManager::new();
    manager.insert("x".to_string(), symbol("x", MonoType::Int(64), Storage::Local(0), false, 0));
    assert!(manager.lookup("x").is_some());
    assert!(manager.lookup("y").is_none());
}

#[test]
fn test_scope_nesting() {
    let mut manager = SymbolScopeManager::new();
    manager.insert("a".to_string(), symbol("a", MonoType::Int(64), Storage::Local(0), false, 0));
    manager.push_scope();
    assert_eq!(manager.scope_level(), 1);
    manager.insert("b".to_string(), symbol("b", MonoType::String, Storage::Local(1), true, 1));
    assert!(manager.lookup("a").is_some());
    assert!(manager.lookup("b").is_some());
    manager.pop_scope();
    assert_eq!(manager.scope_level(), 0);
    assert!(manager.lookup("b").is_none());
    assert!(manager.lookup("a").is_some());
}

#[test]
fn label_peek_does_not_advance() {
    let mut gen = LabelGenerator::default();
    assert_eq!(gen.peek_next(), 0);
    assert_eq!(gen.peek_next(), 0);
    assert_eq!(gen.next(), 0);
    assert_eq!(gen.peek_next(), 1);
}

#[test]
fn allocated_count_is_larger_counter() {
    let mut reg = RegisterAllocator::new();
    assert_eq!(reg.allocated_count(), 0);
    reg.alloc_local();
    reg.alloc_local();
    reg.alloc_local();
    reg.alloc_temp();
    assert_eq!(reg.next_local_id(), 3);
    assert_eq!(reg.next_temp_id(), 1);
    assert_eq!(reg.allocated_count(), 3);
    reg.reset();
    assert_eq!(reg.allocated_count(), 0);
    assert_eq!(reg.alloc_temp(), 0);
}

#[test]
fn jump_table_entries_replace() {
    let mut t = JumpTable::new(4);
    assert_eq!(t.len(), 0);
    t.add_entry(1, 10);
    t.add_entry(2, 20);
    t.add_entry(1, 11);
    assert_eq!(t.len(), 2);
    assert_eq!(t.get(&1), Some(&11));
    assert_eq!(t.get(&3), None);
    assert_eq!(t.index, 4);
}

#[test]
fn jump_table_index_is_fresh() {
    let mut fm = FlowManager::new();
    assert_eq!(fm.get_jump_table_index(), Some(0));
    fm.add_jump_table(JumpTable::new(0));
    assert_eq!(fm.get_jump_table_index(), Some(1));
    fm.add_jump_table(JumpTable::new(7));
    fm.add_jump_table(JumpTable::new(3));
    assert_eq!(fm.get_jump_table_index(), Some(8));
    assert!(fm.get_jump_table(&7).is_some());
    assert!(fm.get_jump_table(&5).is_none());
}

#[test]
fn flow_manager_offsets_and_loops() {
    let mut fm = FlowManager::default();
    assert_eq!(fm.get_code_offset(&3), None);
    fm.add_code_offset(3, 40);
    fm.add_code_offset(3, 44);
    assert_eq!(fm.get_code_offset(&3), Some(&44));
    assert_eq!(fm.loop_label(), None);
    fm.set_loop_label(1, 2);
    fm.clear_loop_label();
    assert_eq!(fm.loop_label(), None);
    fm.alloc_local();
    fm.alloc_local();
    assert_eq!(fm.next_local_id(), 2);
    assert_eq!(fm.next_temp_id(), 0);
    fm.reset_registers();
    assert_eq!(fm.next_local_id(), 0);
    assert_eq!(fm.get_function_index("missing"), None);
    fm.add_function_index("f".to_string(), 1);
    fm.add_function_index("g".to_string(), 2);
    fm.add_function_index("f".to_string(), 3);
    assert_eq!(fm.function_indices().len(), 2);
    assert_eq!(fm.get_function_index("f"), Some(&3));
}

#[test]
fn inner_scope_shadows_outer() {
    let mut m = SymbolScopeManager::new();
    m.insert("x".to_string(), symbol("x", MonoType::Int(64), Storage::Local(0), false, 0));
    m.push_scope();
    m.insert("x".to_string(), symbol("x", MonoType::Bool, Storage::Temp(5), true, 1));
    assert!(matches!(m.lookup("x").unwrap().storage, Storage::Temp(5)));
    assert!(m.lookup_current("x").is_some());
    m.pop_scope();
    assert!(matches!(m.lookup("x").unwrap().storage, Storage::Local(0)));
    // the outermost scope is never closed
    m.pop_scope();
    assert_eq!(m.scope_level(), 0);
    assert!(m.lookup("x").is_some());
}

#[test]
fn current_scope_is_innermost() {
    let mut m = SymbolScopeManager::new();
    m.push_scope();
    m.current_scope().insert("y".to_string(), symbol("y", MonoType::Char, Storage::Arg(2), false, 1));
    assert!(m.lookup_current("y").is_some());
    m.pop_scope();
    assert!(m.lookup("y").is_none());
}

#[test]
fn symbol_table_basics() {
    let mut t = SymbolTable::new();
    assert!(t.is_empty());
    t.insert("g".to_string(), symbol("g", MonoType::Int(32), Storage::Global(0), false, 0));
    t.insert("h".to_string(), symbol("h", MonoType::Void, Storage::Global(1), false, 0));
    assert_eq!(t.len(), 2);
    assert!(t.contains("g"));
    assert!(!t.contains("z"));
    t.get_mut("g").unwrap().is_mut = true;
    assert!(t.get("g").unwrap().is_mut);
    let names: Vec<&str> = t.iter().iter().map(|(n, _)| n.as_str()).collect();
    assert_eq!(names, vec!["g", "h"]);
    let mut m = SymbolScopeManager::default();
    m.symbol_table_mut().insert("k".to_string(), symbol("k", MonoType::Bool, Storage::Local(0), false, 0));
    assert_eq!(m.symbol_table().len(), 1);
    assert!(m.lookup("k").is_none());
}

#[test]
fn default_manager_starts_without_scopes() {
    let mut m = SymbolScopeManager::default();
    assert_eq!(m.scope_level(), 0);
    m.insert("x".to_string(), symbol("x", MonoType::Bool, Storage::Local(0), false, 0));
    assert!(m.lookup("x").is_none());
    assert!(m.lookup_current("x").is_none());
    m.pop_scope();
    assert_eq!(m.scope_level(), 0);
    m.push_scope();
    assert_eq!(m.scope_level(), 1);
    m.insert("x".to_string(), symbol("x", MonoType::Bool, Storage::Local(0), false, 1));
    assert!(m.lookup("x").is_some());
    assert!(SymbolScopeManager::new().symbol_table().is_empty());
}
