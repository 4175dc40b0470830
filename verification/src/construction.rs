//! The making of a compiler, step by step.
//!
//! Each step is one request to the backend and one answer. The order is
//! fixed: a context; the base module, unless the caller brought one; the three
//! steps that make the backend ready for engines, unless it is ready; the
//! engine; a builder; the types of the scalar kinds. The first answer that
//! means failure ends the making.

use vstd::prelude::*;
use vstd::pervasive::unreached;
use crate::builder::Builder;
use crate::compiler::{JitCompiler, JitView};
use crate::engine::{new_jit_ee, spec_jit_ee, JIT_OPT_LVEL};
use crate::handle::{BuilderRef, ContextRef, EngineRef, LLVMRef, ModuleRef, TypeRef};
use crate::module::Module;
use crate::request::{Reply, Request};
use crate::types::{Scalar, Ty};

verus! {

/// Where a compiler's base module comes from.
#[derive(Clone, Copy, Debug, PartialEq, Eq)]
pub enum Source<'a> {
    /// A new, empty module of this name.
    Fresh(&'a str),
    /// The module serialised in the file at this path.
    Bitcode(&'a str),
    /// A module that the caller has made.
    Given,
}

/// What the making of a compiler waits for.
#[derive(Clone, Copy, Debug, PartialEq, Eq)]
pub enum Stage<'a> {
    Context,
    /// A new base module of this name.
    NewModule(&'a str),
    /// The base module read from the file at this path.
    LoadModule(&'a str),
    LinkJit,
    InitTarget,
    InitAsmPrinter,
    Engine,
    Builder,
    /// The type of the next scalar kind that has none yet.
    Types,
}

impl<'a> Stage<'a> {
    /// Whether the stage is one of the three that make the backend ready for
    /// engines. They need to be gone through once in a process.
    pub open spec fn initializes(self) -> bool {
        self is LinkJit || self is InitTarget || self is InitAsmPrinter
    }
}

/// A compiler in the making.
#[derive(Debug, PartialEq, Eq)]
pub struct Construction<'a> {
    source: Source<'a>,
    stage: Stage<'a>,
    ctx: ContextRef,
    module: Option<Module>,
    ee: EngineRef,
    builder: BuilderRef,
    types: Vec<Ty>,
    initialized: bool,
    own_context: bool,
}

/// What a compiler in the making consists of.
pub struct ConstructionView<'a> {
    pub source: Source<'a>,
    pub stage: Stage<'a>,
    pub ctx: ContextRef,
    /// The base module, once there is one.
    pub base: Option<ModuleRef>,
    pub engine: EngineRef,
    pub builder: BuilderRef,
    /// The types found so far, in the order of [`scalar_at`].
    pub types: Seq<Ty>,
    /// Whether the engine's code is linked in and the native target and its
    /// printer are initialised.
    pub initialized: bool,
    /// Whether the context is one that the making asks for itself.
    pub own_context: bool,
}

/// Where the making of a compiler stands after a step.
pub enum StepView<'a> {
    Pending(ConstructionView<'a>),
    Ready(JitView),
    Failed { error: Seq<char>, cleanup: Seq<Request<'static>> },
}

/// The number of scalar kinds that a compiler keeps a type for.
pub const SCALARS: usize = 9;

/// The scalar kinds in the order in which a compiler asks for their types.
pub open spec fn scalar_at(i: int) -> Scalar {
    if i == 0 {
        Scalar::Void
    } else if i == 1 {
        Scalar::Bool
    } else if i == 2 {
        Scalar::I8
    } else if i == 3 {
        Scalar::I16
    } else if i == 4 {
        Scalar::I32
    } else if i == 5 {
        Scalar::I64
    } else if i == 6 {
        Scalar::U64
    } else if i == 7 {
        Scalar::F32
    } else {
        Scalar::F64
    }
}

/// The place of a scalar kind in that order.
pub open spec fn scalar_index(scalar: Scalar) -> int {
    match scalar {
        Scalar::Void => 0,
        Scalar::Bool => 1,
        Scalar::I8 => 2,
        Scalar::I16 => 3,
        Scalar::I32 => 4,
        Scalar::I64 => 5,
        Scalar::U64 => 6,
        Scalar::F32 => 7,
        Scalar::F64 => 8,
    }
}

fn scalar_of(i: usize) -> (scalar: Scalar)
    requires
        i < SCALARS,
    ensures
        scalar == scalar_at(i as int),
{
    if i == 0 {
        Scalar::Void
    } else if i == 1 {
        Scalar::Bool
    } else if i == 2 {
        Scalar::I8
    } else if i == 3 {
        Scalar::I16
    } else if i == 4 {
        Scalar::I32
    } else if i == 5 {
        Scalar::I64
    } else if i == 6 {
        Scalar::U64
    } else if i == 7 {
        Scalar::F32
    } else {
        Scalar::F64
    }
}

impl<'a> ConstructionView<'a> {
    /// The stage that follows once there is a base module: the first of the
    /// three that make the backend ready, or the engine if it is ready.
    pub open spec fn after_base(self) -> Stage<'a> {
        if self.initialized {
            Stage::Engine
        } else {
            Stage::LinkJit
        }
    }

    /// What is left to release, and in which order, when the making fails at
    /// its stage. The base module is released if it is there and no engine
    /// has been asked for yet; once one has, the module is left alone, since
    /// the backend may have used it up. The context goes last, if the making
    /// asked for it itself.
    pub open spec fn cleanup(self) -> Seq<Request<'static>> {
        let module = if self.stage.initializes() && self.base is Some {
            seq![Request::DisposeModule { module: self.base->0 }]
        } else {
            seq![]
        };
        let context = if self.own_context && !(self.stage is Context) {
            seq![Request::DisposeContext { ctx: self.ctx }]
        } else {
            seq![]
        };
        module + context
    }

    /// What the making asks of the backend next.
    pub open spec fn request(self) -> Request<'a> {
        match self.stage {
            Stage::Context => Request::CreateContext,
            Stage::NewModule(name) => Request::CreateModule { ctx: self.ctx, name },
            Stage::LoadModule(path) => Request::ParseBitcode { ctx: self.ctx, path },
            Stage::LinkJit => Request::LinkInMcjit,
            Stage::InitTarget => Request::InitNativeTarget,
            Stage::InitAsmPrinter => Request::InitNativeAsmPrinter,
            Stage::Engine => spec_jit_ee(self.base->0, JIT_OPT_LVEL),
            Stage::Builder => Request::CreateBuilder { ctx: self.ctx },
            Stage::Types => Request::ScalarType {
                ctx: self.ctx,
                scalar: scalar_at(self.types.len() as int),
            },
        }
    }

    /// Where the making stands once the backend has answered the request with
    /// `reply`. A reply that means failure ends it with the error. Otherwise
    /// the reply's address is kept as what was asked for and the making goes
    /// on to its next stage; the type of the last scalar kind completes the
    /// compiler, whose engine then holds the base module and nothing else.
    pub open spec fn step(self, reply: Reply) -> StepView<'a> {
        match self.request().failure(reply) {
            Some(text) => StepView::Failed { error: text, cleanup: self.cleanup() },
            None => match self.stage {
                Stage::Context => StepView::Pending(
                    ConstructionView {
                        stage: match self.source {
                            Source::Fresh(name) => Stage::NewModule(name),
                            Source::Bitcode(path) => Stage::LoadModule(path),
                            Source::Given => self.after_base(),
                        },
                        ctx: ContextRef(reply.handle),
                        ..self
                    },
                ),
                Stage::NewModule(_) | Stage::LoadModule(_) => StepView::Pending(
                    ConstructionView {
                        stage: self.after_base(),
                        base: Some(ModuleRef(reply.handle)),
                        ..self
                    },
                ),
                Stage::LinkJit => StepView::Pending(
                    ConstructionView { stage: Stage::InitTarget, ..self },
                ),
                Stage::InitTarget => StepView::Pending(
                    ConstructionView { stage: Stage::InitAsmPrinter, ..self },
                ),
                Stage::InitAsmPrinter => StepView::Pending(
                    ConstructionView { stage: Stage::Engine, initialized: true, ..self },
                ),
                Stage::Engine => StepView::Pending(
                    ConstructionView {
                        stage: Stage::Builder,
                        engine: EngineRef(reply.handle),
                        ..self
                    },
                ),
                Stage::Builder => StepView::Pending(
                    ConstructionView {
                        stage: Stage::Types,
                        builder: BuilderRef(reply.handle),
                        ..self
                    },
                ),
                Stage::Types => {
                    let found = Ty {
                        handle: TypeRef(reply.handle),
                        kind: scalar_at(self.types.len() as int).spec_kind(),
                    };
                    if self.types.len() + 1 < SCALARS {
                        StepView::Pending(
                            ConstructionView { types: self.types.push(found), ..self },
                        )
                    } else {
                        StepView::Ready(
                            JitView {
                                ctx: self.ctx,
                                base: self.base->0,
                                engine: self.engine,
                                builder: self.builder,
                                modules: Set::<ModuleRef>::empty().insert(self.base->0),
                                types: self.types.push(found),
                            },
                        )
                    }
                },
            },
        }
    }
}

/// Where the making of a compiler stands after a step.
#[derive(Debug, PartialEq, Eq)]
pub enum Progress<'a> {
    /// There is more to ask.
    Pending(Construction<'a>),
    /// The compiler is made.
    Ready(JitCompiler),
    /// The making has failed with this error. What it leaves behind is
    /// released by carrying out `cleanup` in its order.
    Failed { error: String, cleanup: Vec<Request<'static>> },
}

impl<'a> View for Progress<'a> {
    type V = StepView<'a>;

    open spec fn view(&self) -> StepView<'a> {
        match self {
            Progress::Pending(construction) => StepView::Pending(construction@),
            Progress::Ready(jit) => StepView::Ready(jit@),
            Progress::Failed { error, cleanup } => StepView::Failed {
                error: error@,
                cleanup: cleanup@,
            },
        }
    }
}

impl<'a> View for Construction<'a> {
    type V = ConstructionView<'a>;

    closed spec fn view(&self) -> ConstructionView<'a> {
        ConstructionView {
            source: self.source,
            stage: self.stage,
            ctx: self.ctx,
            base: match self.module {
                Some(module) => Some(module.handle()),
                None => None,
            },
            engine: self.ee,
            builder: self.builder,
            types: self.types@,
            initialized: self.initialized,
            own_context: self.own_context,
        }
    }
}

impl<'a> Construction<'a> {
    #[verifier::type_invariant]
    spec fn inv(&self) -> bool {
        &&& self.stage is Context ==> (self.module is Some <==> self.source is Given)
        &&& self.stage is NewModule || self.stage is LoadModule ==> self.module is None
        &&& !(self.stage is Context) && !(self.stage is NewModule) && !(self.stage is LoadModule)
            ==> self.module is Some && !self.module->0.owned()
        &&& self.types@.len() < SCALARS
        &&& !(self.stage is Types) ==> self.types@.len() == 0
        &&& forall|i: int|
            0 <= i < self.types@.len() ==> (#[trigger] self.types@[i]).kind == scalar_at(
                i,
            ).spec_kind()
    }

    /// The making at its start: nothing is there but the module that the
    /// caller brought, if any.
    pub(crate) fn start(
        source: Source<'a>,
        module: Option<Module>,
    ) -> (construction: Construction<'a>)
        requires
            module is Some <==> source is Given,
        ensures
            construction@ == (ConstructionView {
                source,
                stage: Stage::Context,
                ctx: ContextRef(0),
                base: match module {
                    Some(m) => Some(m.handle()),
                    None => None,
                },
                engine: EngineRef(0),
                builder: BuilderRef(0),
                types: Seq::empty(),
                initialized: false,
                own_context: true,
            }),
    {
        Construction {
            source,
            stage: Stage::Context,
            ctx: ContextRef(0),
            module,
            ee: EngineRef(0),
            builder: BuilderRef(0),
            types: Vec::new(),
            initialized: false,
            own_context: true,
        }
    }

    /// The making at the point where a context and the base module exist.
    /// The base module's release becomes the engine's duty.
    pub(crate) fn resume(ctx: ContextRef, module: Module) -> (construction: Construction<'a>)
        ensures
            construction@ == (ConstructionView {
                source: Source::Given,
                stage: Stage::LinkJit,
                ctx,
                base: Some(module.handle()),
                engine: EngineRef(0),
                builder: BuilderRef(0),
                types: Seq::empty(),
                initialized: false,
                own_context: false,
            }),
    {
        let mut module = module;
        module.forget();
        Construction {
            source: Source::Given,
            stage: Stage::LinkJit,
            ctx,
            module: Some(module),
            ee: EngineRef(0),
            builder: BuilderRef(0),
            types: Vec::new(),
            initialized: false,
            own_context: false,
        }
    }

    /// Whether the backend is known to be ready for engines.
    pub fn is_initialized(&self) -> (yes: bool)
        ensures
            yes == self@.initialized,
    {
        self.initialized
    }

    /// Tells the making that the backend has been made ready for engines
    /// earlier in this process: none of the three steps is asked for any
    /// more.
    pub fn skip_initialization(self) -> (construction: Construction<'a>)
        ensures
            construction@ == (ConstructionView {
                initialized: true,
                stage: if self@.stage.initializes() {
                    Stage::Engine
                } else {
                    self@.stage
                },
                ..self@
            }),
    {
        proof {
            use_type_invariant(&self);
        }
        let Construction {
            source,
            stage,
            ctx,
            module,
            ee,
            builder,
            types,
            initialized: _,
            own_context,
        } = self;
        let stage: Stage<'a> = match stage {
            Stage::LinkJit | Stage::InitTarget | Stage::InitAsmPrinter => Stage::Engine,
            other => other,
        };
        Construction {
            source,
            stage,
            ctx,
            module,
            ee,
            builder,
            types,
            initialized: true,
            own_context,
        }
    }

    /// What the making asks of the backend next.
    pub fn request(&self) -> (request: Request<'a>)
        ensures
            request == self@.request(),
    {
        proof {
            use_type_invariant(self);
        }
        match self.stage {
            Stage::Context => JitCompiler::create_llvm_ctx(),
            Stage::NewModule(name) => Module::new(self.ctx, name),
            Stage::LoadModule(path) => Module::new_from_bc(self.ctx, path),
            Stage::LinkJit => Request::LinkInMcjit,
            Stage::InitTarget => Request::InitNativeTarget,
            Stage::InitAsmPrinter => Request::InitNativeAsmPrinter,
            Stage::Engine => match &self.module {
                Some(module) => new_jit_ee(module, JIT_OPT_LVEL),
                None => unreached(),
            },
            Stage::Builder => Builder::new(self.ctx),
            Stage::Types => Request::ScalarType {
                ctx: self.ctx,
                scalar: scalar_of(self.types.len()),
            },
        }
    }

    /// Takes the backend's answer to the request and goes on.
    pub fn advance(self, reply: Reply) -> (progress: Progress<'a>)
        ensures
            progress@ == self@.step(reply),
            progress matches Progress::Ready(jit) ==> jit.wf(),
    {
        proof {
            use_type_invariant(&self);
        }
        let request = self.request();
        let outcome = request.settle(reply);
        let Construction {
            source,
            stage,
            ctx,
            module,
            ee,
            builder,
            mut types,
            initialized,
            own_context,
        } = self;
        let addr: usize = match outcome {
            Ok(addr) => addr,
            Err(error) => {
                let mut cleanup: Vec<Request<'static>> = Vec::new();
                match stage {
                    Stage::LinkJit | Stage::InitTarget | Stage::InitAsmPrinter => {
                        match &module {
                            Some(base) => {
                                cleanup.push(Request::DisposeModule { module: base.as_ref() });
                            },
                            None => {},
                        }
                    },
                    _ => {},
                }
                match stage {
                    Stage::Context => {},
                    _ => {
                        if own_context {
                            cleanup.push(Request::DisposeContext { ctx });
                        }
                    },
                }
                assert(cleanup@ =~= self@.cleanup());
                return Progress::Failed { error, cleanup };
            },
        };
        let after_base: Stage<'a> = if initialized { Stage::Engine } else { Stage::LinkJit };
        match stage {
            Stage::Context => {
                let mut module = module;
                let next: Stage<'a> = match source {
                    Source::Fresh(name) => Stage::NewModule(name),
                    Source::Bitcode(path) => Stage::LoadModule(path),
                    Source::Given => after_base,
                };
                match &mut module {
                    Some(given) => {
                        given.forget();
                    },
                    None => {},
                }
                Progress::Pending(
                    Construction {
                        source,
                        stage: next,
                        ctx: ContextRef(addr),
                        module,
                        ee,
                        builder,
                        types,
                        initialized,
                        own_context,
                    },
                )
            },
            Stage::NewModule(_) | Stage::LoadModule(_) => {
                let mut base = Module::adopt(ModuleRef(addr));
                base.forget();
                Progress::Pending(
                    Construction {
                        source,
                        stage: after_base,
                        ctx,
                        module: Some(base),
                        ee,
                        builder,
                        types,
                        initialized,
                        own_context,
                    },
                )
            },
            Stage::LinkJit => Progress::Pending(
                Construction {
                    source,
                    stage: Stage::InitTarget,
                    ctx,
                    module,
                    ee,
                    builder,
                    types,
                    initialized,
                    own_context,
                },
            ),
            Stage::InitTarget => Progress::Pending(
                Construction {
                    source,
                    stage: Stage::InitAsmPrinter,
                    ctx,
                    module,
                    ee,
                    builder,
                    types,
                    initialized,
                    own_context,
                },
            ),
            Stage::InitAsmPrinter => Progress::Pending(
                Construction {
                    source,
                    stage: Stage::Engine,
                    ctx,
                    module,
                    ee,
                    builder,
                    types,
                    initialized: true,
                    own_context,
                },
            ),
            Stage::Engine => Progress::Pending(
                Construction {
                    source,
                    stage: Stage::Builder,
                    ctx,
                    module,
                    ee: EngineRef(addr),
                    builder,
                    types,
                    initialized,
                    own_context,
                },
            ),
            Stage::Builder => Progress::Pending(
                Construction {
                    source,
                    stage: Stage::Types,
                    ctx,
                    module,
                    ee,
                    builder: BuilderRef(addr),
                    types,
                    initialized,
                    own_context,
                },
            ),
            Stage::Types => {
                let found = Ty::new(TypeRef(addr), scalar_of(types.len()).kind());
                types.push(found);
                if types.len() < SCALARS {
                    Progress::Pending(
                        Construction {
                            source,
                            stage,
                            ctx,
                            module,
                            ee,
                            builder,
                            types,
                            initialized,
                            own_context,
                        },
                    )
                } else {
                    match module {
                        Some(base) => {
                            let jit = JitCompiler::assemble(
                                ctx,
                                base,
                                ee,
                                Builder::attach(builder),
                                &types,
                            );
                            Progress::Ready(jit)
                        },
                        None => unreached(),
                    }
                }
            },
        }
    }
}

/// The number of requests that the making of a compiler still has to make
/// before the compiler is there, if none of them fails.
pub open spec fn steps_left(making: ConstructionView) -> int {
    match making.stage {
        Stage::Context => if making.source is Given {
            1 + steps_from(making.after_base())
        } else {
            2 + steps_from(making.after_base())
        },
        Stage::NewModule(_) | Stage::LoadModule(_) => 1 + steps_from(making.after_base()),
        Stage::Types => SCALARS - making.types.len(),
        stage => steps_from(stage),
    }
}

/// The number of requests from a stage that comes after the base module to
/// the finished compiler.
pub open spec fn steps_from(stage: Stage) -> int {
    match stage {
        Stage::LinkJit => 5 + SCALARS,
        Stage::InitTarget => 4 + SCALARS,
        Stage::InitAsmPrinter => 3 + SCALARS,
        Stage::Engine => 2 + SCALARS,
        Stage::Builder => 1 + SCALARS,
        _ => SCALARS as int,
    }
}

/// The making of a compiler comes to an end: each answer that does not fail
/// it leaves one request less to make, and the answer to the last request
/// completes the compiler.
pub proof fn law_making_ends(making: ConstructionView, reply: Reply)
    requires
        making.stage is Types ==> making.types.len() < SCALARS,
        !(making.stage is Types) ==> making.types.len() == 0,
    ensures
        steps_left(making) >= 1,
        making.step(reply) matches StepView::Pending(next) ==> steps_left(next) == steps_left(
            making,
        ) - 1,
        making.step(reply) is Ready ==> steps_left(making) == 1,
{
}

/// The making of a compiler fails exactly on an answer with a status other
/// than zero to a request whose status decides, and it fails with the error
/// that the answer means for that request.
pub proof fn law_making_fails_on_reported_failure(making: ConstructionView, reply: Reply)
    ensures
        making.step(reply) is Failed <==> reply.status != 0 && making.request().reports(),
        making.step(reply) matches StepView::Failed { error, cleanup } ==> making.request().failure(
            reply,
        ) == Some(error) && cleanup == making.cleanup(),
{
}

/// Once the backend is known to be ready for engines, and the making does
/// not stand in one of the three stages that make it ready, the making never
/// asks for one of them again.
pub proof fn law_backend_made_ready_once(making: ConstructionView, reply: Reply)
    requires
        making.initialized,
        !making.stage.initializes(),
    ensures
        !(making.request() is LinkInMcjit),
        !(making.request() is InitNativeTarget),
        !(making.request() is InitNativeAsmPrinter),
        making.step(reply) matches StepView::Pending(next) ==> next.initialized
            && !next.stage.initializes(),
{
}

} // verus!
