//! Escape analysis (simplified).
//!
//! Decides which local variables escape their function and so cannot live
//! on the stack. A local escapes when it is returned, when it is passed as
//! an argument of a call (the callee may keep it), or when a closure
//! captures it.
use vstd::prelude::*;
use std::collections::HashSet;
use crate::middle::core_ir::ir::{FunctionIR, Instruction, Operand, block_instructions};

verus! {

broadcast use vstd::std_specs::hash::group_hash_axioms;

/// Local `id` escapes through `instr`: it is the returned value, one of the
/// arguments of a call, or one of the values a closure captures.
pub open spec fn escapes_through(instr: Instruction, id: usize) -> bool {
    match instr {
        Instruction::Ret { value: Some(v), .. } => v == Operand::Local(id),
        Instruction::Call { args, .. } => exists|k: int|
            0 <= k < args@.len() && args@[k] == Operand::Local(id),
        Instruction::MakeClosure { env, .. } => exists|k: int|
            0 <= k < env@.len() && env@[k] == Operand::Local(id),
        _ => false,
    }
}

/// The locals that escape through some instruction of `instrs`.
pub open spec fn escaping_locals(instrs: Seq<Instruction>) -> Set<usize> {
    Set::new(|id: usize| exists|i: int| 0 <= i < instrs.len() && escapes_through(instrs[i], id))
}

/// Result of escape analysis: the ids of the escaping locals.
#[derive(Debug)]
pub struct EscapeAnalysisResult {
    pub escapes: HashSet<usize>,
}

impl EscapeAnalysisResult {
    /// Whether local `var_id` escapes.
    pub fn escapes(&self, var_id: usize) -> (b: bool)
        ensures
            b == self.escapes@.contains(var_id),
    {
        self.escapes.contains(&var_id)
    }
}

/// Escape analyzer (simplified).
#[derive(Debug)]
pub struct EscapeAnalyzer;

impl EscapeAnalyzer {
    /// A new analyzer.
    pub fn new() -> (a: Self) {
        EscapeAnalyzer
    }

    /// The locals of `func` that escape: those returned, those passed as
    /// call arguments and those captured by closures, anywhere in its body.
    pub fn analyze(&mut self, func: &FunctionIR) -> (r: EscapeAnalysisResult)
        ensures
            r.escapes@ == escaping_locals(block_instructions(func.spec_blocks())),
    {
        let instrs = func.all_instructions();
        let ghost all = instrs@.unref();
        let mut escapes: HashSet<usize> = HashSet::new();
        let mut i: usize = 0;
        while i < instrs.len()
            invariant
                i <= instrs@.len(),
                all == instrs@.unref(),
                escapes@ == escaping_locals(all.take(i as int)),
            decreases instrs@.len() - i,
        {
            let ghost before = escapes@;
            match instrs[i] {
                Instruction::Ret { value: Some(var), .. } => {
                    if let Some(id) = Self::operand_as_local(var) {
                        escapes.insert(id);
                    }
                },
                Instruction::Call { args, .. } => {
                    let mut k: usize = 0;
                    while k < args.len()
                        invariant
                            k <= args@.len(),
                            escapes@ == before.union(
                                Set::new(|id: usize| exists|j: int| 0 <= j < k && args@[j] == Operand::Local(id)),
                            ),
                        decreases args@.len() - k,
                    {
                        if let Some(id) = Self::operand_as_local(&args[k]) {
                            escapes.insert(id);
                        }
                        k = k + 1;
                        assert(escapes@ =~= before.union(
                            Set::new(|id: usize| exists|j: int| 0 <= j < k && args@[j] == Operand::Local(id)),
                        ));
                    }
                },
                Instruction::MakeClosure { env, .. } => {
                    let mut k: usize = 0;
                    while k < env.len()
                        invariant
                            k <= env@.len(),
                            escapes@ == before.union(
                                Set::new(|id: usize| exists|j: int| 0 <= j < k && env@[j] == Operand::Local(id)),
                            ),
                        decreases env@.len() - k,
                    {
                        if let Some(id) = Self::operand_as_local(&env[k]) {
                            escapes.insert(id);
                        }
                        k = k + 1;
                        assert(escapes@ =~= before.union(
                            Set::new(|id: usize| exists|j: int| 0 <= j < k && env@[j] == Operand::Local(id)),
                        ));
                    }
                },
                _ => {},
            }
            proof {
                let pre = all.take(i as int);
                let post = all.take(i + 1);
                assert(post =~= pre.push(all[i as int]));
                assert(escapes@ =~= escaping_locals(post)) by {
                    assert forall|id: usize| escaping_locals(post).contains(id) implies #[trigger] escapes@.contains(id) by {
                        let j = choose|j: int| 0 <= j < post.len() && escapes_through(post[j], id);
                        if j < i {
                            assert(pre[j] == post[j]);
                        }
                    }
                    assert forall|id: usize| #[trigger] escapes@.contains(id) implies escaping_locals(post).contains(id) by {
                        if before.contains(id) {
                            let j = choose|j: int| 0 <= j < pre.len() && escapes_through(pre[j], id);
                            assert(post[j] == pre[j]);
                        } else {
                            assert(escapes_through(post[i as int], id));
                        }
                    }
                }
            }
            i = i + 1;
        }
        assert(all.take(i as int) =~= all);
        EscapeAnalysisResult { escapes }
    }

    /// The local id an operand names, if it is a local.
    fn operand_as_local(operand: &Operand) -> (r: Option<usize>)
        ensures
            r == match *operand {
                Operand::Local(id) => Some(id),
                _ => None::<usize>,
            },
    {
        match operand {
            Operand::Local(id) => Some(*id),
            _ => None,
        }
    }
}

impl Default for EscapeAnalyzer {
    fn default() -> (a: Self) {
        EscapeAnalyzer
    }
}

} // verus!
