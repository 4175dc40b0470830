//! Values: whatever can stand as an operand.
//!
//! A constant, a function's argument, an instruction, a phi node, a global
//! and a function are all values. Each kind has a wrapper of its own; each
//! turns into a plain [`Value`].

use vstd::prelude::*;
use vstd::std_specs::convert::FromSpecImpl;
use crate::block::BasicBlock;
use crate::handle::{ret_nullable_ptr, ContextRef, LLVMRef, ModuleRef, ValueRef};
use crate::request::{FailureAction, Request};
use crate::types::{Scalar, Ty};

verus! {

/// A value of any kind, with its type.
#[derive(Clone, Copy, Debug, PartialEq, Eq, Structural)]
pub struct Value {
    pub handle: ValueRef,
    pub ty: Ty,
}

impl Value {
    pub fn new(handle: ValueRef, ty: Ty) -> (value: Value)
        ensures
            value.handle == handle,
            value.ty == ty,
    {
        Value { handle, ty }
    }

    pub fn ty(&self) -> (ty: Ty)
        ensures
            ty == self.ty,
    {
        self.ty
    }
}

impl LLVMRef<ValueRef> for Value {
    open spec fn handle(&self) -> ValueRef {
        self.handle
    }

    fn as_ref(&self) -> ValueRef {
        self.handle
    }
}

/// An argument of a function.
#[derive(Clone, Copy, Debug, PartialEq, Eq, Structural)]
pub struct Arg {
    pub handle: ValueRef,
    pub ty: Ty,
}

impl LLVMRef<ValueRef> for Arg {
    open spec fn handle(&self) -> ValueRef {
        self.handle
    }

    fn as_ref(&self) -> ValueRef {
        self.handle
    }
}

impl From<Arg> for Value {
    fn from(arg: Arg) -> (value: Value) {
        Value { handle: arg.handle, ty: arg.ty }
    }
}

impl FromSpecImpl<Arg> for Value {
    open spec fn obeys_from_spec() -> bool {
        true
    }

    open spec fn from_spec(arg: Arg) -> Value {
        Value { handle: arg.handle, ty: arg.ty }
    }
}

/// A global variable of a module.
#[derive(Clone, Copy, Debug, PartialEq, Eq, Structural)]
pub struct GlobalValue {
    pub handle: ValueRef,
    pub ty: Ty,
    /// The module that the global belongs to.
    pub module: ModuleRef,
}

impl LLVMRef<ValueRef> for GlobalValue {
    open spec fn handle(&self) -> ValueRef {
        self.handle
    }

    fn as_ref(&self) -> ValueRef {
        self.handle
    }
}

impl From<GlobalValue> for Value {
    fn from(global: GlobalValue) -> (value: Value) {
        Value { handle: global.handle, ty: global.ty }
    }
}

impl FromSpecImpl<GlobalValue> for Value {
    open spec fn obeys_from_spec() -> bool {
        true
    }

    open spec fn from_spec(global: GlobalValue) -> Value {
        Value { handle: global.handle, ty: global.ty }
    }
}

/// A phi node: the value that depends on the block from which control came.
#[derive(Clone, Copy, Debug, PartialEq, Eq, Structural)]
pub struct PhiNode {
    pub handle: ValueRef,
    pub ty: Ty,
}

impl PhiNode {
    /// Lets the node take `value` when control comes from `block`.
    pub fn add_incoming(&self, value: &Value, block: &BasicBlock) -> (request: Request<'static>)
        ensures
            request == (Request::AddIncoming {
                phi: self.handle,
                value: value.handle,
                block: block.0,
            }),
    {
        Request::AddIncoming { phi: self.handle, value: value.handle, block: block.0 }
    }
}

impl LLVMRef<ValueRef> for PhiNode {
    open spec fn handle(&self) -> ValueRef {
        self.handle
    }

    fn as_ref(&self) -> ValueRef {
        self.handle
    }
}

impl From<PhiNode> for Value {
    fn from(phi: PhiNode) -> (value: Value) {
        Value { handle: phi.handle, ty: phi.ty }
    }
}

impl FromSpecImpl<PhiNode> for Value {
    open spec fn obeys_from_spec() -> bool {
        true
    }

    open spec fn from_spec(phi: PhiNode) -> Value {
        Value { handle: phi.handle, ty: phi.ty }
    }
}

/// A function of a module, with its declared parameters in their order.
#[derive(Debug, PartialEq, Eq)]
pub struct Function {
    pub handle: ValueRef,
    pub ty: Ty,
    pub params: Vec<Arg>,
    /// The module that the function belongs to.
    pub module: ModuleRef,
}

impl Function {
    pub fn new(handle: ValueRef, ty: Ty, params: Vec<Arg>, module: ModuleRef) -> (func: Function)
        ensures
            func.handle == handle,
            func.ty == ty,
            func.params == params,
            func.module == module,
    {
        Function { handle, ty, params, module }
    }

    /// Appends a new block named `name` to the function's blocks.
    pub fn append<'a>(&self, name: &'a str) -> (request: Request<'a>)
        ensures
            request == (Request::AppendBlock { func: self.handle, name }),
    {
        Request::AppendBlock { func: self.handle, name }
    }

    /// The argument that the function takes at `index`.
    pub fn arg(&self, index: usize) -> (arg: Arg)
        requires
            index < self.params@.len(),
        ensures
            arg == self.params@[index as int],
    {
        self.params[index]
    }

    /// Checks the function; a fault is reported, never printed.
    pub fn verify(&self) -> (request: Request<'static>)
        ensures
            request == (Request::VerifyFunction {
                func: self.handle,
                action: FailureAction::ReturnStatus,
            }),
    {
        Request::VerifyFunction { func: self.handle, action: FailureAction::ReturnStatus }
    }

    /// Writes the function's text to the diagnostic stream.
    pub fn dump(&self) -> (request: Request<'static>)
        ensures
            request == (Request::DumpValue { value: self.handle }),
    {
        Request::DumpValue { value: self.handle }
    }

    /// The function as a plain value.
    pub fn value(&self) -> (value: Value)
        ensures
            value == (Value { handle: self.handle, ty: self.ty }),
    {
        Value { handle: self.handle, ty: self.ty }
    }
}

impl LLVMRef<ValueRef> for Function {
    open spec fn handle(&self) -> ValueRef {
        self.handle
    }

    fn as_ref(&self) -> ValueRef {
        self.handle
    }
}

/// A walk over the globals of a module, from the first to the last and never
/// back.
///
/// The walk asks the backend for one global at a time; the null handle for an
/// answer ends it.
#[derive(Debug, PartialEq, Eq)]
pub struct ValueIter {
    pub module: ModuleRef,
    /// The global that was handed out last, if any was.
    pub last: Option<ValueRef>,
    /// Whether the walk has come to its end.
    pub finished: bool,
}

impl ValueIter {
    /// The walk over the globals of `module`, before its first step.
    pub open spec fn spec_new(module: ModuleRef) -> ValueIter {
        ValueIter { module, last: None, finished: false }
    }

    pub fn new(module: ModuleRef) -> (iter: ValueIter)
        ensures
            iter == Self::spec_new(module),
    {
        ValueIter { module, last: None, finished: false }
    }

    /// What the walk asks next: nothing once it is over, the module's first
    /// global at the start, else the global after the one handed out last.
    pub fn request(&self) -> (request: Option<Request<'static>>)
        ensures
            self.finished ==> request is None,
            !self.finished && self.last is None ==> request == Some(
                Request::FirstGlobal { module: self.module },
            ),
            !self.finished && self.last is Some ==> request == Some(
                Request::NextGlobal { global: self.last->0 },
            ),
    {
        if self.finished {
            None
        } else {
            match self.last {
                None => Some(Request::FirstGlobal { module: self.module }),
                Some(global) => Some(Request::NextGlobal { global }),
            }
        }
    }

    /// Takes the backend's answer to the last request and hands out the
    /// global it names. The null handle ends the walk, and a walk that is over
    /// hands out nothing more.
    pub fn advance(&mut self, found: ValueRef) -> (next: Option<ValueRef>)
        ensures
            final(self).module == old(self).module,
            old(self).finished || found.0 == 0 ==> {
                &&& next is None
                &&& final(self).finished
                &&& final(self).last == old(self).last
            },
            !old(self).finished && found.0 != 0 ==> {
                &&& next == Some(found)
                &&& !final(self).finished
                &&& final(self).last == Some(found)
            },
    {
        if self.finished {
            return None;
        }
        match ret_nullable_ptr(found.0) {
            None => {
                self.finished = true;
                None
            },
            Some(addr) => {
                self.last = Some(ValueRef(addr));
                Some(ValueRef(addr))
            },
        }
    }
}

/// The six comparisons.
#[derive(Clone, Copy, Debug, PartialEq, Eq, Structural)]
pub enum Predicate {
    Eq,
    Ne,
    Gt,
    Ge,
    Lt,
    Le,
}

impl Predicate {
    /// What the comparison says of two numbers.
    pub open spec fn compare(self, x: int, y: int) -> bool {
        match self {
            Predicate::Eq => x == y,
            Predicate::Ne => x != y,
            Predicate::Gt => x > y,
            Predicate::Ge => x >= y,
            Predicate::Lt => x < y,
            Predicate::Le => x <= y,
        }
    }
}

/// A host value that has a constant of the backend standing for it.
pub trait ToValue {
    /// The scalar kind whose type the constant has.
    spec fn scalar(&self) -> Scalar;

    /// The bits of the constant: the host value, sign-extended to 64 bits
    /// where it is signed.
    spec fn bits(&self) -> u64;

    /// Whether the host value is signed.
    spec fn signed(&self) -> bool;

    fn to_value(&self, ctx: ContextRef) -> (request: Request<'static>)
        ensures
            request == (Request::ConstInt {
                ctx,
                scalar: self.scalar(),
                bits: self.bits(),
                sign_extend: self.signed(),
            }),
    ;
}

impl ToValue for bool {
    open spec fn scalar(&self) -> Scalar {
        Scalar::Bool
    }

    open spec fn bits(&self) -> u64 {
        if *self {
            1
        } else {
            0
        }
    }

    open spec fn signed(&self) -> bool {
        false
    }

    fn to_value(&self, ctx: ContextRef) -> Request<'static> {
        let bits: u64 = if *self { 1 } else { 0 };
        Request::ConstInt { ctx, scalar: Scalar::Bool, bits, sign_extend: false }
    }
}

impl ToValue for u64 {
    open spec fn scalar(&self) -> Scalar {
        Scalar::U64
    }

    open spec fn bits(&self) -> u64 {
        *self
    }

    open spec fn signed(&self) -> bool {
        false
    }

    fn to_value(&self, ctx: ContextRef) -> Request<'static> {
        Request::ConstInt { ctx, scalar: Scalar::U64, bits: *self, sign_extend: false }
    }
}

impl ToValue for i8 {
    open spec fn scalar(&self) -> Scalar {
        Scalar::I8
    }

    open spec fn bits(&self) -> u64 {
        *self as u64
    }

    open spec fn signed(&self) -> bool {
        true
    }

    fn to_value(&self, ctx: ContextRef) -> Request<'static> {
        let bits: u64 = #[verifier::truncate] (*self as u64);
        Request::ConstInt { ctx, scalar: Scalar::I8, bits, sign_extend: true }
    }
}

impl ToValue for i16 {
    open spec fn scalar(&self) -> Scalar {
        Scalar::I16
    }

    open spec fn bits(&self) -> u64 {
        *self as u64
    }

    open spec fn signed(&self) -> bool {
        true
    }

    fn to_value(&self, ctx: ContextRef) -> Request<'static> {
        let bits: u64 = #[verifier::truncate] (*self as u64);
        Request::ConstInt { ctx, scalar: Scalar::I16, bits, sign_extend: true }
    }
}

impl ToValue for i32 {
    open spec fn scalar(&self) -> Scalar {
        Scalar::I32
    }

    open spec fn bits(&self) -> u64 {
        *self as u64
    }

    open spec fn signed(&self) -> bool {
        true
    }

    fn to_value(&self, ctx: ContextRef) -> Request<'static> {
        let bits: u64 = #[verifier::truncate] (*self as u64);
        Request::ConstInt { ctx, scalar: Scalar::I32, bits, sign_extend: true }
    }
}

impl ToValue for i64 {
    open spec fn scalar(&self) -> Scalar {
        Scalar::I64
    }

    open spec fn bits(&self) -> u64 {
        *self as u64
    }

    open spec fn signed(&self) -> bool {
        true
    }

    fn to_value(&self, ctx: ContextRef) -> Request<'static> {
        let bits: u64 = #[verifier::truncate] (*self as u64);
        Request::ConstInt { ctx, scalar: Scalar::I64, bits, sign_extend: true }
    }
}

} // verus!
