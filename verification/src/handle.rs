//! Handles to native backend objects.
//!
//! A handle is the address under which the backend knows an object, kept as a
//! plain number. Address zero is the null handle. Each kind of object has a
//! handle type of its own, so that a value can never stand where a block or a
//! type is expected.

use vstd::prelude::*;

verus! {

/// Handle to an execution context.
#[derive(Clone, Copy, Debug, PartialEq, Eq, Structural)]
pub struct ContextRef(pub usize);

/// Handle to a module.
#[derive(Clone, Copy, Debug, PartialEq, Eq, Structural)]
pub struct ModuleRef(pub usize);

/// Handle to a type.
#[derive(Clone, Copy, Debug, PartialEq, Eq, Structural)]
pub struct TypeRef(pub usize);

/// Handle to a value: a constant, an argument, an instruction, a global or a
/// function.
#[derive(Clone, Copy, Debug, PartialEq, Eq, Structural)]
pub struct ValueRef(pub usize);

/// Handle to a basic block.
#[derive(Clone, Copy, Debug, PartialEq, Eq, Structural)]
pub struct BlockRef(pub usize);

/// Handle to an instruction builder.
#[derive(Clone, Copy, Debug, PartialEq, Eq, Structural)]
pub struct BuilderRef(pub usize);

/// Handle to an execution engine.
#[derive(Clone, Copy, Debug, PartialEq, Eq, Structural)]
pub struct EngineRef(pub usize);

/// A wrapper that stands for one native object and can say which.
pub trait LLVMRef<T> {
    /// The handle that the wrapper stands for.
    spec fn handle(&self) -> T;

    fn as_ref(&self) -> (r: T)
        ensures
            r == self.handle(),
    ;
}

/// What a lookup found: nothing where the backend answered with the null
/// address, else what lies at the address.
pub fn ret_nullable_ptr(addr: usize) -> (found: Option<usize>)
    ensures
        addr == 0 ==> found is None,
        addr != 0 ==> found == Some(addr),
{
    if addr == 0 {
        None
    } else {
        Some(addr)
    }
}

/// The handles of `items`, in their order.
pub open spec fn handles_of<T, V: LLVMRef<T>>(items: Seq<&V>) -> Seq<T> {
    Seq::new(items.len(), |i: int| items[i].handle())
}

/// Collects the handles of a list of wrappers, in the order of the list.
pub fn to_llvmref_array<T, V: LLVMRef<T>>(items: &[&V]) -> (refs: Vec<T>)
    ensures
        refs@ == handles_of::<T, V>(items@),
{
    let mut refs: Vec<T> = Vec::new();
    let mut i: usize = 0;
    while i < items.len()
        invariant
            i <= items@.len(),
            refs@.len() == i,
            forall|j: int| 0 <= j < i ==> refs@[j] == (#[trigger] items@[j]).handle(),
        decreases items@.len() - i,
    {
        refs.push(items[i].as_ref());
        i = i + 1;
    }
    assert(refs@ =~= handles_of::<T, V>(items@));
    refs
}

/// The low 32 bits of `n`: what is left of a count or an index when it is
/// handed to the backend, which takes 32-bit numbers.
pub fn low_u32(n: usize) -> (low: u32)
    ensures
        low as int == (n as int) % 0x1_0000_0000,
{
    let low: u32 = #[verifier::truncate] (n as u32);
    assert(low as int == (n as int) % 0x1_0000_0000) by (bit_vector)
        requires
            low == n as u32,
    ;
    low
}

} // verus!
