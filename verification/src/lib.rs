//! The verified core of a JIT compiler front end.
//!
//! Everything here is decided on plain values: which backend instruction an
//! operation selects, what a backend status means, who owns a module. No
//! function of this library calls the backend: one that needs it returns a
//! [`Request`], or an [`Instr`] where it is a builder that selects an
//! instruction, and the embedding program carries that out and hands back
//! the [`Reply`].
//!
//! A compiler is made by a [`Construction`]: ask it for its next request,
//! carry the request out, hand it the reply, until it is ready or has failed.
//! What the backend hands back as an address is wrapped by the embedding
//! program into the values of this library ([`Value`], [`Function`], [`Ty`]),
//! which keep beside the address what the decisions here depend on: the shape
//! of a type, the parameters of a function, the module of a global.

pub mod analysis;
pub mod block;
pub mod builder;
pub mod compiler;
pub mod construction;
pub mod engine;
pub mod handle;
pub mod instr;
pub mod module;
pub mod request;
pub mod types;
pub mod value;
pub mod version;

pub use analysis::Verifier;
pub use block::BasicBlock;
pub use builder::{Builder, CastOp};
pub use compiler::JitCompiler;
pub use construction::{Construction, Progress};
pub use engine::{McjitOptions, JIT_OPT_LVEL};
pub use handle::{
    BlockRef, BuilderRef, ContextRef, EngineRef, LLVMRef, ModuleRef, TypeRef, ValueRef,
};
pub use instr::{Instr, IntPredicate, Opcode, RealPredicate};
pub use module::Module;
pub use request::{Reply, Request};
pub use types::{AddressSpace, FunctionTy, NativeKind, Scalar, Ty, TypeKind};
pub use value::{Arg, Function, GlobalValue, PhiNode, Predicate, ToValue, Value, ValueIter};
pub use version::Version;
