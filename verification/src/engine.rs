//! What an execution engine is made with.

use vstd::prelude::*;
use crate::handle::{low_u32, LLVMRef, ModuleRef};
use crate::module::Module;
use crate::request::Request;

verus! {

/// The optimisation level that a compiler's engine is made with.
pub const JIT_OPT_LVEL: usize = 2;

/// How far apart the backend may assume code and data to lie.
#[derive(Clone, Copy, Debug, PartialEq, Eq, Structural)]
pub enum CodeModel {
    Default,
    JITDefault,
    Tiny,
    Small,
    Kernel,
    Medium,
    Large,
}

/// The options that an execution engine is made with.
#[derive(Clone, Copy, Debug, PartialEq, Eq, Structural)]
pub struct McjitOptions {
    pub opt_level: u32,
    pub code_model: CodeModel,
    pub no_frame_pointer_elim: bool,
    pub enable_fast_isel: bool,
    /// Address of the memory manager that the engine is to use; zero stands
    /// for the backend's own.
    pub memory_manager: usize,
}

/// The options for an engine that optimises at level `opt_lv`: the code model
/// that the backend prefers for code made at run time, frame pointers left to
/// the backend, fast instruction selection, and the backend's own memory
/// manager. The backend reads the low 32 bits of the level.
pub open spec fn spec_mcjit_compiler_options(opt_lv: usize) -> McjitOptions {
    McjitOptions {
        opt_level: ((opt_lv as int) % 0x1_0000_0000) as u32,
        code_model: CodeModel::JITDefault,
        no_frame_pointer_elim: false,
        enable_fast_isel: true,
        memory_manager: 0,
    }
}

pub fn new_mcjit_compiler_options(opt_lv: usize) -> (options: McjitOptions)
    ensures
        options == spec_mcjit_compiler_options(opt_lv),
{
    McjitOptions {
        opt_level: low_u32(opt_lv),
        code_model: CodeModel::JITDefault,
        no_frame_pointer_elim: false,
        enable_fast_isel: true,
        memory_manager: 0,
    }
}

/// The request for an engine that runs `module` and optimises at level
/// `opt_lv`.
pub open spec fn spec_jit_ee(module: ModuleRef, opt_lv: usize) -> Request<'static> {
    Request::CreateMcjit { module, options: spec_mcjit_compiler_options(opt_lv) }
}

/// Asks for an engine that runs `m` and optimises at level `opt_lv`. Before
/// it is asked for, the engine's code must have been linked in and the native
/// target and its printer been initialised.
pub fn new_jit_ee(m: &Module, opt_lv: usize) -> (request: Request<'static>)
    ensures
        request == spec_jit_ee(m.handle(), opt_lv),
{
    Request::CreateMcjit { module: m.as_ref(), options: new_mcjit_compiler_options(opt_lv) }
}

/// The modules that an execution engine holds.
#[derive(Debug, PartialEq, Eq)]
pub struct ModuleSet {
    items: Vec<ModuleRef>,
}

impl View for ModuleSet {
    type V = Set<ModuleRef>;

    closed spec fn view(&self) -> Set<ModuleRef> {
        Set::new(|m: ModuleRef| self.items@.contains(m))
    }
}

impl ModuleSet {
    pub fn new() -> (set: ModuleSet)
        ensures
            set@ == Set::<ModuleRef>::empty(),
    {
        let set = ModuleSet { items: Vec::new() };
        assert(set@ =~= Set::<ModuleRef>::empty());
        set
    }

    pub fn contains(&self, module: ModuleRef) -> (yes: bool)
        ensures
            yes == self@.contains(module),
    {
        let mut i: usize = 0;
        while i < self.items.len()
            invariant
                i <= self.items@.len(),
                forall|k: int| 0 <= k < i ==> self.items@[k] != module,
            decreases self.items@.len() - i,
        {
            if self.items[i].0 == module.0 {
                return true;
            }
            i = i + 1;
        }
        false
    }

    /// Puts `module` into the set and says whether it was new to it.
    pub fn insert(&mut self, module: ModuleRef) -> (added: bool)
        ensures
            final(self)@ == old(self)@.insert(module),
            added == !old(self)@.contains(module),
    {
        if self.contains(module) {
            assert(self@ =~= old(self)@.insert(module));
            false
        } else {
            self.items.push(module);
            assert(self@ =~= old(self)@.insert(module)) by {
                assert forall|m: ModuleRef| self@.contains(m) == old(self)@.insert(module).contains(
                    m,
                ) by {
                    if m == module {
                        assert(self.items@[self.items@.len() - 1] == module);
                    } else if old(self).items@.contains(m) {
                        let k = choose|k: int|
                            0 <= k < old(self).items@.len() && old(self).items@[k] == m;
                        assert(self.items@[k] == m);
                    }
                }
            }
            true
        }
    }

    /// Takes `module` out of the set and says whether it was in it.
    pub fn remove(&mut self, module: ModuleRef) -> (removed: bool)
        ensures
            final(self)@ == old(self)@.remove(module),
            removed == old(self)@.contains(module),
    {
        let mut kept: Vec<ModuleRef> = Vec::new();
        let mut removed: bool = false;
        let mut i: usize = 0;
        while i < self.items.len()
            invariant
                i <= self.items@.len(),
                removed == exists|k: int| 0 <= k < i && self.items@[k] == module,
                forall|m: ModuleRef|
                    kept@.contains(m) <==> m != module && exists|k: int|
                        0 <= k < i && self.items@[k] == m,
            decreases self.items@.len() - i,
        {
            let item: ModuleRef = self.items[i];
            let ghost before = kept@;
            if item.0 == module.0 {
                removed = true;
            } else {
                kept.push(item);
                assert forall|m: ModuleRef|
                    kept@.contains(m) <==> m != module && exists|k: int|
                        0 <= k < i + 1 && self.items@[k] == m by {
                    if kept@.contains(m) {
                        let j = choose|j: int| 0 <= j < kept@.len() && kept@[j] == m;
                        if j < before.len() {
                            assert(before[j] == m);
                            assert(before.contains(m));
                        } else {
                            assert(self.items@[i as int] == m);
                        }
                    }
                    if m != module && exists|k: int| 0 <= k < i + 1 && self.items@[k] == m {
                        if m == item {
                            assert(kept@[kept@.len() - 1] == m);
                        } else {
                            assert(before.contains(m));
                            let j = choose|j: int| 0 <= j < before.len() && before[j] == m;
                            assert(kept@[j] == m);
                        }
                    }
                }
            }
            i = i + 1;
        }
        self.items = kept;
        assert(self@ =~= old(self)@.remove(module));
        removed
    }
}

} // verus!
