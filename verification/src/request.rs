//! What the front end asks of the backend, and how it reads the answer.
//!
//! No function of this library calls the backend. A function that needs the
//! backend returns a [`Request`]; the embedding program carries it out and
//! comes back with a [`Reply`].

use vstd::prelude::*;
use crate::engine::McjitOptions;
use crate::handle::{
    ret_nullable_ptr, BlockRef, BuilderRef, ContextRef, EngineRef, ModuleRef, TypeRef, ValueRef,
};
use crate::types::Scalar;

verus! {

/// What the backend's verifier does when it finds a fault.
#[derive(Clone, Copy, Debug, PartialEq, Eq, Structural)]
pub enum FailureAction {
    /// Print the fault and end the process.
    AbortProcess,
    /// Print the fault and report it.
    PrintMessage,
    /// Report the fault and print nothing.
    ReturnStatus,
}

/// What becomes of the source module when it is linked into another.
#[derive(Clone, Copy, Debug, PartialEq, Eq, Structural)]
pub enum LinkerMode {
    DestroySource,
    PreserveSource,
}

/// One thing asked of the backend.
#[derive(Debug, PartialEq, Eq)]
pub enum Request<'a> {
    /// The first number of the backend's version.
    VersionMajor,
    /// The second number of the backend's version.
    VersionMinor,
    /// Release a message buffer that the backend filled.
    DisposeMessage { buffer: usize },
    CreateContext,
    DisposeContext { ctx: ContextRef },
    CreateBuilder { ctx: ContextRef },
    DisposeBuilder { builder: BuilderRef },
    /// The block at which `builder` stands; the null handle if it stands
    /// nowhere.
    GetInsertBlock { builder: BuilderRef },
    /// Move `builder` into `block`, in front of the instruction `before`.
    PositionBuilder { builder: BuilderRef, block: BlockRef, before: ValueRef },
    PositionBuilderAtEnd { builder: BuilderRef, block: BlockRef },
    /// The type that stands for a scalar kind of the host.
    ScalarType { ctx: ContextRef, scalar: Scalar },
    PointerType { elem: TypeRef, address_space: u32 },
    FunctionType { ret: TypeRef, params: Vec<TypeRef>, var_arg: bool },
    /// The integer constant of the type of `scalar` with the low bits of
    /// `bits`; `sign_extend` says how a type wider than 64 bits is filled.
    ConstInt { ctx: ContextRef, scalar: Scalar, bits: u64, sign_extend: bool },
    CreateModule { ctx: ContextRef, name: &'a str },
    DisposeModule { module: ModuleRef },
    /// Read the file at `path` and parse it as a serialised module.
    ParseBitcode { ctx: ContextRef, path: &'a str },
    GetTarget { module: ModuleRef },
    GetDataLayout { module: ModuleRef },
    LinkModules { dest: ModuleRef, src: ModuleRef, mode: LinkerMode },
    /// Run on `module` the passes that the backend's pass manager builder
    /// picks for the two levels.
    Optimize { module: ModuleRef, opt_level: u32, size_level: u32 },
    VerifyModule { module: ModuleRef, action: FailureAction },
    VerifyFunction { func: ValueRef, action: FailureAction },
    /// Write the module's text to the diagnostic stream.
    DumpModule { module: ModuleRef },
    /// Write the value's text to the diagnostic stream.
    DumpValue { value: ValueRef },
    GetTypeByName { module: ModuleRef, name: &'a str },
    AddGlobal { module: ModuleRef, ty: TypeRef, name: &'a str },
    AddGlobalInAddressSpace { module: ModuleRef, ty: TypeRef, name: &'a str, address_space: u32 },
    /// Add a global of type `ty` and give it `initializer` as its value.
    AddGlobalConstant { module: ModuleRef, ty: TypeRef, name: &'a str, initializer: ValueRef },
    GetNamedGlobal { module: ModuleRef, name: &'a str },
    FirstGlobal { module: ModuleRef },
    NextGlobal { global: ValueRef },
    AddFunction { module: ModuleRef, name: &'a str, sig: TypeRef },
    GetNamedFunction { module: ModuleRef, name: &'a str },
    DeleteFunction { func: ValueRef },
    /// Add to `module` a function `name` that takes `params` and returns
    /// `ret`. With an `entry`, append a block of that name to the function and
    /// move the builder to its end.
    FunctionPrototype {
        module: ModuleRef,
        name: &'a str,
        ret: TypeRef,
        params: Vec<TypeRef>,
        entry: Option<(BuilderRef, &'a str)>,
    },
    AppendBlock { func: ValueRef, name: &'a str },
    AddIncoming { phi: ValueRef, value: ValueRef, block: BlockRef },
    LinkInMcjit,
    InitNativeTarget,
    InitNativeAsmPrinter,
    CreateMcjit { module: ModuleRef, options: McjitOptions },
    /// Release the engine and every module that it holds.
    DisposeEngine { engine: EngineRef },
    AddModule { engine: EngineRef, module: ModuleRef },
    RemoveModule { engine: EngineRef, module: ModuleRef },
    /// The address of the machine code or data of `global`; the null address
    /// if the engine holds none.
    GetPointerToGlobal { engine: EngineRef, global: ValueRef },
    AddGlobalMapping { engine: EngineRef, global: ValueRef, addr: usize },
}

/// The backend's answer to a request.
///
/// `status` is zero unless the backend reported a failure. `handle` is the
/// address of what was made or found, or the number that was asked for.
/// `message` is the text that came with the answer: the string that was
/// asked for, or the text of the diagnostic buffer if the backend filled
/// one. It is a copy: the backend's own buffer has been released by then,
/// whatever the status.
#[derive(Debug, PartialEq, Eq)]
pub struct Reply {
    pub status: i32,
    pub handle: usize,
    pub message: Option<String>,
}

impl Reply {
    /// The diagnostic text: that of the message, empty where there is none.
    pub open spec fn text(self) -> Seq<char> {
        match self.message {
            Some(m) => m@,
            None => Seq::empty(),
        }
    }

    /// The answer to a request that cannot fail and asks for nothing.
    pub fn done() -> (reply: Reply)
        ensures
            reply.status == 0,
            reply.handle == 0,
            reply.message is None,
    {
        Reply { status: 0, handle: 0, message: None }
    }

    /// The answer that hands back an address.
    pub fn found(handle: usize) -> (reply: Reply)
        ensures
            reply.status == 0,
            reply.handle == handle,
            reply.message is None,
    {
        Reply { status: 0, handle, message: None }
    }

    /// What a lookup by name found: nothing where the backend answered with
    /// the null address, which is no error.
    pub fn lookup(&self) -> (found: Option<usize>)
        ensures
            self.handle == 0 ==> found is None,
            self.handle != 0 ==> found == Some(self.handle),
    {
        ret_nullable_ptr(self.handle)
    }

    /// The answer that reports a status, with the diagnostic text if any.
    pub fn report(status: i32, message: Option<String>) -> (reply: Reply)
        ensures
            reply.status == status,
            reply.handle == 0,
            reply.message == message,
    {
        Reply { status, handle: 0, message }
    }
}

impl<'a> Request<'a> {
    /// What is owed to the message slot of a call once the call has returned
    /// and the slot's text has been copied: nothing if the slot is still
    /// empty, else the release of the buffer that the backend put there. The
    /// status of the call plays no part: a buffer that came with success is
    /// released like one that came with failure.
    pub fn release_message(buffer: usize) -> (request: Option<Request<'static>>)
        ensures
            buffer == 0 ==> request is None,
            buffer != 0 ==> request == Some(Request::DisposeMessage { buffer }),
    {
        if buffer == 0 {
            None
        } else {
            Some(Request::DisposeMessage { buffer })
        }
    }

    /// The module that passes out of its wrapper's hands through the
    /// request: the module that the backend releases, uses up, or puts into
    /// an engine. A wrapper must not release a module that a request has
    /// taken.
    pub open spec fn takes(self) -> Option<ModuleRef> {
        match self {
            Request::DisposeModule { module } => Some(module),
            Request::LinkModules { src, mode: LinkerMode::DestroySource, .. } => Some(src),
            Request::CreateMcjit { module, .. } => Some(module),
            Request::AddModule { module, .. } => Some(module),
            _ => None,
        }
    }

    /// Whether the backend's status decides if the request succeeded.
    pub open spec fn reports(self) -> bool {
        self is InitNativeTarget || self is InitNativeAsmPrinter || self.diagnoses()
    }

    /// Whether a failure of the request comes with a diagnostic from the
    /// backend.
    pub open spec fn diagnoses(self) -> bool {
        self is VerifyModule || self is VerifyFunction || self is LinkModules
            || self is ParseBitcode || self is CreateMcjit
    }

    /// The error that `reply` means for this request, if it means one.
    pub open spec fn failure(self, reply: Reply) -> Option<Seq<char>> {
        if reply.status == 0 {
            None
        } else if self is InitNativeTarget {
            Some("failed to initialize native target"@)
        } else if self is InitNativeAsmPrinter {
            Some("failed to initialize native asm printer"@)
        } else if self.diagnoses() {
            Some(reply.text())
        } else {
            None
        }
    }

    /// Reads the backend's answer to this request: the address it hands back,
    /// or the error. A request fails only if the backend's status decides it
    /// and is not zero; the error is then the backend's diagnostic, or a fixed
    /// text for the two steps that come with none.
    pub fn settle(&self, reply: Reply) -> (outcome: Result<usize, String>)
        ensures
            self.failure(reply) is None ==> outcome == Ok::<usize, String>(reply.handle),
            self.failure(reply) matches Some(text) ==> (outcome matches Err(e) && e@ == text),
    {
        if reply.status == 0 {
            return Ok(reply.handle);
        }
        match self {
            Request::InitNativeTarget => Err("failed to initialize native target".to_owned()),
            Request::InitNativeAsmPrinter => Err(
                "failed to initialize native asm printer".to_owned(),
            ),
            Request::VerifyModule { .. }
            | Request::VerifyFunction { .. }
            | Request::LinkModules { .. }
            | Request::ParseBitcode { .. }
            | Request::CreateMcjit { .. } => match reply.message {
                Some(message) => Err(message),
                None => Err(String::new()),
            },
            _ => Ok(reply.handle),
        }
    }
}

} // verus!
