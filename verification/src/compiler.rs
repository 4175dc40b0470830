//! The compiler: a context, its base module, the engine that runs what the
//! module holds, and a builder.
//!
//! Once made, the compiler lets modules be put into its engine and taken out
//! again, and hands its requests on to its base module. It is torn down by
//! giving it up; the context goes last.

use vstd::prelude::*;
use crate::analysis::Verifier;
use crate::builder::Builder;
use crate::construction::{
    scalar_at, scalar_index, Construction, ConstructionView, Source, Stage, SCALARS,
};
use crate::engine::ModuleSet;
use crate::handle::{
    handles_of, to_llvmref_array, BuilderRef, ContextRef, EngineRef, LLVMRef, ModuleRef, TypeRef,
    ValueRef,
};
use crate::module::Module;
use crate::request::{Reply, Request};
use crate::types::{AddressSpace, FunctionTy, Scalar, Ty, TypeKind};
use crate::value::{Function, ToValue, Value, ValueIter};

verus! {

/// What a compiler consists of.
pub struct JitView {
    pub ctx: ContextRef,
    /// The base module. Its release is the engine's duty.
    pub base: ModuleRef,
    pub engine: EngineRef,
    pub builder: BuilderRef,
    /// The modules that the engine holds.
    pub modules: Set<ModuleRef>,
    /// The types of the scalar kinds, in the order of [`scalar_at`].
    pub types: Seq<Ty>,
}

/// A compiler: one context, the base module made in it, the engine that was
/// made from the base module, and a builder.
#[derive(Debug, PartialEq, Eq)]
pub struct JitCompiler {
    ctx: ContextRef,
    module: Module,
    ee: EngineRef,
    builder: Builder,
    held: ModuleSet,
    void_ty: Ty,
    bool_ty: Ty,
    i8_ty: Ty,
    i16_ty: Ty,
    i32_ty: Ty,
    i64_ty: Ty,
    u64_ty: Ty,
    f32_ty: Ty,
    f64_ty: Ty,
}

impl View for JitCompiler {
    type V = JitView;

    closed spec fn view(&self) -> JitView {
        JitView {
            ctx: self.ctx,
            base: self.module.handle(),
            engine: self.ee,
            builder: self.builder.handle(),
            modules: self.held@,
            types: seq![
                self.void_ty,
                self.bool_ty,
                self.i8_ty,
                self.i16_ty,
                self.i32_ty,
                self.i64_ty,
                self.u64_ty,
                self.f32_ty,
                self.f64_ty,
            ],
        }
    }
}

impl JitView {
    /// The type that the compiler keeps for `scalar`.
    pub open spec fn ty(self, scalar: Scalar) -> Ty {
        self.types[scalar_index(scalar)]
    }

    /// Whether the engine holds `module`. Only of a module that it holds does
    /// the engine have machine code, and so addresses for what the module
    /// defines.
    pub open spec fn holds(self, module: ModuleRef) -> bool {
        self.modules.contains(module)
    }

    /// The address at which the engine has what a global of the module
    /// `owner` stands for, where the engine itself answers `answer`: the
    /// engine's answer while it holds the module, the null address otherwise.
    pub open spec fn address(self, owner: ModuleRef, answer: usize) -> usize {
        if self.holds(owner) {
            answer
        } else {
            0
        }
    }

    /// The compiler once `module` has been put into its engine.
    pub open spec fn with_module(self, module: ModuleRef) -> JitView {
        JitView { modules: self.modules.insert(module), ..self }
    }

    /// The compiler once `module` has been taken out of its engine.
    pub open spec fn without_module(self, module: ModuleRef) -> JitView {
        JitView { modules: self.modules.remove(module), ..self }
    }
}

/// A module that is put into the engine is held by it; taken out, it is held
/// no more; put in again, it is held again, and the compiler is as it was
/// when the module was first put in. What happens to one module changes
/// nothing for another.
pub proof fn law_module_comes_and_goes(jit: JitView, module: ModuleRef, other: ModuleRef)
    requires
        other != module,
    ensures
        jit.with_module(module).holds(module),
        !jit.with_module(module).without_module(module).holds(module),
        jit.with_module(module).without_module(module).with_module(module) == jit.with_module(
            module,
        ),
        jit.with_module(module).holds(other) == jit.holds(other),
        jit.without_module(module).holds(other) == jit.holds(other),
{
    assert(jit.modules.insert(module).remove(module).insert(module) =~= jit.modules.insert(module));
}

/// Once a module has been put into the engine, every global of it has the
/// address that the engine answers; once the module has been taken out, every
/// global of it has the null address, whatever the engine answers; and once
/// the module has been put in again as it is, every global of it has the
/// address that the engine answers again.
pub proof fn law_addresses_follow_modules(jit: JitView, module: ModuleRef, answer: usize)
    ensures
        jit.with_module(module).address(module, answer) == answer,
        jit.with_module(module).without_module(module).address(module, answer) == 0,
        jit.with_module(module).without_module(module).with_module(module).address(module, answer)
            == answer,
{
}

impl JitCompiler {
    /// Whether the compiler is as its making left it: the base module is not
    /// this wrapper's to release, and the type kept for each scalar kind has
    /// the shape of that kind.
    pub closed spec fn wf(&self) -> bool {
        &&& !self.module.owned()
        &&& self@.types.len() == SCALARS
        &&& forall|i: int|
            0 <= i < SCALARS ==> (#[trigger] self@.types[i]).kind == scalar_at(i).spec_kind()
    }

    /// Puts a compiler together from its parts. The engine was made from
    /// `module` and holds it.
    pub(crate) fn assemble(
        ctx: ContextRef,
        module: Module,
        ee: EngineRef,
        builder: Builder,
        types: &Vec<Ty>,
    ) -> (jit: JitCompiler)
        requires
            !module.owned(),
            types@.len() == SCALARS,
            forall|i: int|
                0 <= i < SCALARS ==> (#[trigger] types@[i]).kind == scalar_at(i).spec_kind(),
        ensures
            jit.wf(),
            jit@ == (JitView {
                ctx,
                base: module.handle(),
                engine: ee,
                builder: builder.handle(),
                modules: Set::<ModuleRef>::empty().insert(module.handle()),
                types: types@,
            }),
            jit.spec_builder() == builder,
    {
        let mut held = ModuleSet::new();
        held.insert(module.as_ref());
        let jit = JitCompiler {
            ctx,
            module,
            ee,
            builder,
            held,
            void_ty: types[0],
            bool_ty: types[1],
            i8_ty: types[2],
            i16_ty: types[3],
            i32_ty: types[4],
            i64_ty: types[5],
            u64_ty: types[6],
            f32_ty: types[7],
            f64_ty: types[8],
        };
        assert(jit@.types =~= types@);
        jit
    }

    /// Starts the making of a compiler whose base module is new, empty and
    /// named `module_name`.
    pub fn new<'a>(module_name: &'a str) -> (construction: Construction<'a>)
        ensures
            construction@ == (ConstructionView {
                source: Source::Fresh(module_name),
                stage: Stage::Context,
                ctx: ContextRef(0),
                base: None,
                engine: EngineRef(0),
                builder: BuilderRef(0),
                types: Seq::empty(),
                initialized: false,
                own_context: true,
            }),
    {
        Construction::start(Source::Fresh(module_name), None)
    }

    /// Starts the making of a compiler whose base module is read from the
    /// file at `bitcode_path`.
    pub fn from_bc<'a>(bitcode_path: &'a str) -> (construction: Construction<'a>)
        ensures
            construction@ == (ConstructionView {
                source: Source::Bitcode(bitcode_path),
                stage: Stage::Context,
                ctx: ContextRef(0),
                base: None,
                engine: EngineRef(0),
                builder: BuilderRef(0),
                types: Seq::empty(),
                initialized: false,
                own_context: true,
            }),
    {
        Construction::start(Source::Bitcode(bitcode_path), None)
    }

    /// Starts the making of a compiler around `module`, in a context of its
    /// own.
    pub fn from_module(module: Module) -> (construction: Construction<'static>)
        ensures
            construction@ == (ConstructionView {
                source: Source::Given,
                stage: Stage::Context,
                ctx: ContextRef(0),
                base: Some(module.handle()),
                engine: EngineRef(0),
                builder: BuilderRef(0),
                types: Seq::empty(),
                initialized: false,
                own_context: true,
            }),
    {
        Construction::start(Source::Given, Some(module))
    }

    /// Asks for a context.
    pub fn create_llvm_ctx() -> (request: Request<'static>)
        ensures
            request == Request::CreateContext,
    {
        Request::CreateContext
    }

    /// Starts the making of a compiler around `module` in the context `ctx`,
    /// at the point where both exist. The base module's release becomes the
    /// engine's duty.
    pub fn new_internal(ctx: ContextRef, module: Module) -> (construction: Construction<'static>)
        ensures
            construction@ == (ConstructionView {
                source: Source::Given,
                stage: Stage::LinkJit,
                ctx,
                base: Some(module.handle()),
                engine: EngineRef(0),
                builder: BuilderRef(0),
                types: Seq::empty(),
                initialized: false,
                own_context: false,
            }),
    {
        Construction::resume(ctx, module)
    }

    pub fn context(&self) -> (ctx: ContextRef)
        ensures
            ctx == self@.ctx,
    {
        self.ctx
    }

    /// The base module.
    pub fn module(&self) -> (module: &Module)
        ensures
            module.handle() == self@.base,
            self.wf() ==> !module.owned(),
    {
        &self.module
    }

    pub fn engine(&self) -> (engine: EngineRef)
        ensures
            engine == self@.engine,
    {
        self.ee
    }

    /// The compiler's own builder.
    pub fn builder(&self) -> (builder: &Builder)
        ensures
            *builder == self.spec_builder(),
            builder.handle() == self@.builder,
    {
        &self.builder
    }

    /// The compiler's own builder, to be moved.
    pub fn builder_mut(&mut self) -> (builder: &mut Builder)
        ensures
            *builder == old(self).spec_builder(),
            final(self).spec_builder() == *final(builder),
            final(self)@ == (JitView { builder: final(builder).handle(), ..old(self)@ }),
            final(self).wf() == old(self).wf(),
    {
        &mut self.builder
    }

    /// The compiler's own builder, as a value of the specification.
    pub closed spec fn spec_builder(&self) -> Builder {
        self.builder
    }

    /// Asks for the target triple of the base module.
    pub fn target(&self) -> (request: Request<'static>)
        ensures
            request == (Request::GetTarget { module: self@.base }),
    {
        self.module.target()
    }

    /// Asks for the data layout of the base module.
    pub fn data_layout(&self) -> (request: Request<'static>)
        ensures
            request == (Request::GetDataLayout { module: self@.base }),
    {
        self.module.data_layout()
    }

    /// Puts `m` into the engine, whose duty it then is to release it. Nothing
    /// is asked and nothing changes if the engine holds `m` already.
    pub fn add_module(&mut self, m: &mut Module) -> (request: Option<Request<'static>>)
        ensures
            final(self)@ == old(self)@.with_module(old(m).handle()),
            final(self).wf() == old(self).wf(),
            final(m).handle() == old(m).handle(),
            old(self)@.holds(old(m).handle()) ==> request is None && final(m).owned() == old(
                m,
            ).owned(),
            !old(self)@.holds(old(m).handle()) ==> request == Some(
                Request::AddModule { engine: old(self)@.engine, module: old(m).handle() },
            ) && request->0.takes() == Some(old(m).handle()) && !final(m).owned(),
    {
        let module: ModuleRef = m.as_ref();
        if self.held.insert(module) {
            m.forget();
            Some(Request::AddModule { engine: self.ee, module })
        } else {
            assert(self@.modules =~= old(self)@.modules);
            None
        }
    }

    /// Takes `m` out of the engine and gives the duty to release it back to
    /// its wrapper. Nothing is asked and nothing changes if the engine does
    /// not hold `m`.
    pub fn remove_module(&mut self, m: &mut Module) -> (request: Option<Request<'static>>)
        ensures
            final(self)@ == old(self)@.without_module(old(m).handle()),
            final(self).wf() == old(self).wf(),
            final(m).handle() == old(m).handle(),
            !old(self)@.holds(old(m).handle()) ==> request is None && final(m).owned() == old(
                m,
            ).owned(),
            old(self)@.holds(old(m).handle()) ==> request == Some(
                Request::RemoveModule { engine: old(self)@.engine, module: old(m).handle() },
            ) && final(m).owned(),
    {
        let module: ModuleRef = m.as_ref();
        if self.held.remove(module) {
            m.reclaim();
            Some(Request::RemoveModule { engine: self.ee, module })
        } else {
            assert(self@.modules =~= old(self)@.modules);
            None
        }
    }

    /// Whether the engine holds `module`, and with it the machine code of
    /// what the module defines.
    pub fn holds(&self, module: &Module) -> (yes: bool)
        ensures
            yes == self@.holds(module.handle()),
    {
        self.held.contains(module.as_ref())
    }

    /// Optimises the base module by the passes that belong to the two levels.
    pub fn optimize(&self, opt_level: usize, size_level: usize) -> (request: Request<'static>)
        ensures
            request matches Request::Optimize { module: m, opt_level: o, size_level: s } && m
                == self@.base && o as int == (opt_level as int) % 0x1_0000_0000 && s as int == (
            size_level as int) % 0x1_0000_0000,
    {
        self.module.optimize(opt_level, size_level)
    }

    /// Checks the base module; a fault is reported, never printed.
    pub fn verify(&self) -> (request: Request<'static>)
        ensures
            request == Verifier::spec_verify_module(self@.base),
    {
        self.module.verify()
    }

    /// Writes the base module's text to the diagnostic stream.
    pub fn dump(&self) -> (request: Request<'static>)
        ensures
            request == (Request::DumpModule { module: self@.base }),
    {
        self.module.dump()
    }

    /// Asks for a further builder in the compiler's context.
    pub fn new_builder(&self) -> (request: Request<'static>)
        ensures
            request == (Request::CreateBuilder { ctx: self@.ctx }),
    {
        Builder::new(self.ctx)
    }

    /// Looks in the base module for the type named `name`.
    pub fn get_ty<'a>(&self, name: &'a str) -> (request: Request<'a>)
        ensures
            request == (Request::GetTypeByName { module: self@.base, name }),
    {
        self.module.get_ty(name)
    }

    /// Asks for the type of pointers to `ty`, in the generic address space.
    pub fn get_pointer_ty(&self, ty: &Ty) -> (request: Request<'static>)
        ensures
            request == (Request::PointerType {
                elem: ty.handle,
                address_space: AddressSpace::Generic.spec_number(),
            }),
    {
        Request::PointerType { elem: ty.handle, address_space: AddressSpace::Generic.number() }
    }

    pub fn get_void_ty(&self) -> (ty: &Ty)
        ensures
            *ty == self@.ty(Scalar::Void),
            self.wf() ==> ty.kind == TypeKind::Void,
    {
        &self.void_ty
    }

    pub fn get_bool_ty(&self) -> (ty: &Ty)
        ensures
            *ty == self@.ty(Scalar::Bool),
            self.wf() ==> ty.kind == (TypeKind::Integer { bits: 1 }),
    {
        proof {
            self.types_as_kept();
        }
        &self.bool_ty
    }

    pub fn get_i8_ty(&self) -> (ty: &Ty)
        ensures
            *ty == self@.ty(Scalar::I8),
            self.wf() ==> ty.kind == (TypeKind::Integer { bits: 8 }),
    {
        proof {
            self.types_as_kept();
        }
        &self.i8_ty
    }

    pub fn get_i16_ty(&self) -> (ty: &Ty)
        ensures
            *ty == self@.ty(Scalar::I16),
            self.wf() ==> ty.kind == (TypeKind::Integer { bits: 16 }),
    {
        proof {
            self.types_as_kept();
        }
        &self.i16_ty
    }

    pub fn get_i32_ty(&self) -> (ty: &Ty)
        ensures
            *ty == self@.ty(Scalar::I32),
            self.wf() ==> ty.kind == (TypeKind::Integer { bits: 32 }),
    {
        proof {
            self.types_as_kept();
        }
        &self.i32_ty
    }

    pub fn get_i64_ty(&self) -> (ty: &Ty)
        ensures
            *ty == self@.ty(Scalar::I64),
            self.wf() ==> ty.kind == (TypeKind::Integer { bits: 64 }),
    {
        proof {
            self.types_as_kept();
        }
        &self.i64_ty
    }

    pub fn get_u64_ty(&self) -> (ty: &Ty)
        ensures
            *ty == self@.ty(Scalar::U64),
            self.wf() ==> ty.kind == (TypeKind::Integer { bits: 64 }),
    {
        proof {
            self.types_as_kept();
        }
        &self.u64_ty
    }

    pub fn get_f32_ty(&self) -> (ty: &Ty)
        ensures
            *ty == self@.ty(Scalar::F32),
            self.wf() ==> ty.kind == (TypeKind::Float { bits: 32 }),
    {
        proof {
            self.types_as_kept();
        }
        &self.f32_ty
    }

    pub fn get_f64_ty(&self) -> (ty: &Ty)
        ensures
            *ty == self@.ty(Scalar::F64),
            self.wf() ==> ty.kind == (TypeKind::Float { bits: 64 }),
    {
        proof {
            self.types_as_kept();
        }
        &self.f64_ty
    }

    /// In a compiler as its making left it, the type kept for each scalar kind
    /// has the shape of that kind.
    pub proof fn types_as_kept(&self)
        ensures
            self.wf() ==> forall|scalar: Scalar|
                (#[trigger] self@.ty(scalar)).kind == scalar.spec_kind(),
    {
        if self.wf() {
            assert forall|scalar: Scalar|
                (#[trigger] self@.ty(scalar)).kind == scalar.spec_kind() by {
                let i = scalar_index(scalar);
                assert(self@.types[i].kind == scalar_at(i).spec_kind());
            }
        }
    }

    /// Asks for the type of functions that take `args` and return `ret`.
    pub fn create_func_ty(ret: &Ty, args: &[&Ty]) -> (request: Request<'static>)
        ensures
            request matches Request::FunctionType { ret: r, params: p, var_arg: v } && r
                == ret.handle && p@ == handles_of::<TypeRef, Ty>(args@) && !v,
    {
        FunctionTy::new(ret, args)
    }

    /// Asks for the constant that stands for `val`.
    pub fn get_const<T: ToValue>(&self, val: T) -> (request: Request<'static>)
        ensures
            request == (Request::ConstInt {
                ctx: self@.ctx,
                scalar: val.scalar(),
                bits: val.bits(),
                sign_extend: val.signed(),
            }),
    {
        val.to_value(self.ctx)
    }

    /// Adds to the base module a global of type `ty`, named `name`.
    pub fn add_global<'a>(&self, name: &'a str, ty: &Ty) -> (request: Request<'a>)
        ensures
            request == (Request::AddGlobal { module: self@.base, ty: ty.handle, name }),
    {
        self.module.add_global(name, ty)
    }

    /// Adds to the base module a global of type `ty`, named `name`, in the
    /// address space `sp`.
    pub fn add_global_in_addr_space<'a>(
        &self,
        name: &'a str,
        ty: &Ty,
        sp: AddressSpace,
    ) -> (request: Request<'a>)
        ensures
            request == (Request::AddGlobalInAddressSpace {
                module: self@.base,
                ty: ty.handle,
                name,
                address_space: sp.spec_number(),
            }),
    {
        self.module.add_global_in_addr_space(name, ty, sp)
    }

    /// Adds to the base module a global named `name` that has the type of
    /// `val` and starts out as `val`.
    pub fn add_global_constant<'a>(&self, name: &'a str, val: &Value) -> (request: Request<'a>)
        ensures
            request == (Request::AddGlobalConstant {
                module: self@.base,
                ty: val.ty.handle,
                name,
                initializer: val.handle,
            }),
    {
        self.module.add_global_constant(name, val)
    }

    /// Looks in the base module for the global named `name`.
    pub fn get_global<'a>(&self, name: &'a str) -> (request: Request<'a>)
        ensures
            request == (Request::GetNamedGlobal { module: self@.base, name }),
    {
        self.module.get_global(name)
    }

    /// The globals of the base module, from the first on.
    pub fn global_values(&self) -> (iter: ValueIter)
        ensures
            iter == ValueIter::spec_new(self@.base),
    {
        self.module.global_values()
    }

    /// Asks the engine for the address of `global`. The answer is the null
    /// address where the engine has nothing for the global; that is no error.
    pub fn get_ptr_to_global(&self, global: &Value) -> (request: Request<'static>)
        ensures
            request == (Request::GetPointerToGlobal {
                engine: self@.engine,
                global: global.handle,
            }),
    {
        Request::GetPointerToGlobal { engine: self.ee, global: global.handle }
    }

    /// Lets the engine take `addr` for the address of `global`.
    pub fn add_global_mapping<V: LLVMRef<ValueRef>>(
        &self,
        global: &V,
        addr: usize,
    ) -> (request: Request<'static>)
        ensures
            request == (Request::AddGlobalMapping {
                engine: self@.engine,
                global: global.handle(),
                addr,
            }),
    {
        Request::AddGlobalMapping { engine: self.ee, global: global.as_ref(), addr }
    }

    /// Adds to the base module a function of type `sig`, named `name`.
    pub fn add_func<'a>(&self, name: &'a str, sig: &FunctionTy) -> (request: Request<'a>)
        ensures
            request == (Request::AddFunction { module: self@.base, name, sig: sig.0 }),
    {
        self.module.add_func(name, sig)
    }

    /// Looks in the base module for the function named `name`.
    pub fn get_func<'a>(&self, name: &'a str) -> (request: Request<'a>)
        ensures
            request == (Request::GetNamedFunction { module: self@.base, name }),
    {
        self.module.get_func(name)
    }

    /// Adds to the base module a function named `name` that takes
    /// `param_tys` and returns `ret_ty`. With a builder, the function also
    /// gets a first block, named "entry", and the builder is moved to the end
    /// of that block.
    pub fn create_func_prototype<'a>(
        &self,
        name: &'a str,
        ret_ty: &Ty,
        param_tys: &[&Ty],
        builder: Option<&mut Builder>,
    ) -> (request: Request<'a>)
        ensures
            request matches Request::FunctionPrototype {
                module: m,
                name: n,
                ret: r,
                params: p,
                entry: e,
            } && m == self@.base && n == name && r == ret_ty.handle && p@ == handles_of::<
                TypeRef,
                Ty,
            >(param_tys@) && match builder {
                Some(b) => e == Some((b.handle(), "entry")) && final(b).handle() == b.handle()
                    && final(b).positioned(),
                None => e is None,
            },
    {
        let params: Vec<TypeRef> = to_llvmref_array(param_tys);
        let entry: Option<(BuilderRef, &'a str)> = match builder {
            Some(b) => {
                b.enter();
                Some((b.as_ref(), "entry"))
            },
            None => None,
        };
        Request::FunctionPrototype {
            module: self.module.as_ref(),
            name,
            ret: ret_ty.handle,
            params,
            entry,
        }
    }

    /// Asks the engine for the address of the machine code of `func`.
    pub fn get_func_ptr(&self, func: &Function) -> (request: Request<'static>)
        ensures
            request == (Request::GetPointerToGlobal { engine: self@.engine, global: func.handle }),
    {
        self.get_ptr_to_global(&func.value())
    }

    /// The address of what a global of the module `owner` stands for, read
    /// from the engine's answer to the request for it. The address counts
    /// only while the engine holds the module: of a module that was never put
    /// in, or was taken out, every global has the null address.
    pub fn address_of(&self, owner: ModuleRef, reply: &Reply) -> (addr: usize)
        ensures
            addr == self@.address(owner, reply.handle),
    {
        if self.held.contains(owner) {
            reply.handle
        } else {
            0
        }
    }

    /// Asks to have `func` taken out of its module and released.
    pub fn delete_func(&self, func: &Function) -> (request: Request<'static>)
        ensures
            request == (Request::DeleteFunction { func: func.handle }),
    {
        Request::DeleteFunction { func: func.handle }
    }

    /// Tears the compiler down. The builder is released first, then the
    /// engine, which releases the modules it holds, and the context last.
    pub fn teardown(self) -> (requests: Vec<Request<'static>>)
        ensures
            requests@ == seq![
                Request::DisposeBuilder { builder: self@.builder },
                Request::DisposeEngine { engine: self@.engine },
                Request::DisposeContext { ctx: self@.ctx },
            ],
    {
        let mut requests: Vec<Request<'static>> = Vec::new();
        requests.push(Request::DisposeBuilder { builder: self.builder.as_ref() });
        requests.push(Request::DisposeEngine { engine: self.ee });
        requests.push(Request::DisposeContext { ctx: self.ctx });
        assert(requests@ =~= seq![
            Request::DisposeBuilder { builder: self@.builder },
            Request::DisposeEngine { engine: self@.engine },
            Request::DisposeContext { ctx: self@.ctx },
        ]);
        requests
    }
}

} // verus!
