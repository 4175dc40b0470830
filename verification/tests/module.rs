use llvm_jit::request::{FailureAction, LinkerMode};
use llvm_jit::{
    AddressSpace, Arg, BasicBlock, BlockRef, ContextRef, Function, FunctionTy, GlobalValue, LLVMRef,
    Module, ModuleRef, NativeKind, PhiNode, Request, Scalar, Ty, TypeKind, TypeRef, Value,
    ValueIter, ValueRef,
};

fn int_ty() -> Ty {
    Ty::new(TypeRef(0x100), TypeKind::Integer { bits: 64 })
}

#[test]
fn a_module_is_asked_for_by_name_or_by_path() {
    assert_eq!(
        Module::new(ContextRef(1), "internal"),
        Request::CreateModule { ctx: ContextRef(1), name: "internal" }
    );
    assert_eq!(
        Module::new_from_bc(ContextRef(1), "target/test-module.bc"),
        Request::ParseBitcode { ctx: ContextRef(1), path: "target/test-module.bc" }
    );
}

#[test]
fn a_module_is_released_exactly_once() {
    let mut module = Module::adopt(ModuleRef(0x40));
    assert!(module.is_owned());
    assert_eq!(module.as_ref(), ModuleRef(0x40));
    assert_eq!(module.dispose(), Some(Request::DisposeModule { module: ModuleRef(0x40) }));
    assert!(!module.is_owned());
    assert_eq!(module.dispose(), None);
    assert_eq!(module.dispose(), None);
}

#[test]
fn a_forgotten_module_is_not_released_by_its_wrapper() {
    let mut module = Module::adopt(ModuleRef(0x40));
    module.forget();
    assert!(!module.is_owned());
    assert_eq!(module.as_ref(), ModuleRef(0x40));
    assert_eq!(module.dispose(), None);
    module.forget();
    assert!(!module.is_owned());
}

#[test]
fn linking_that_preserves_leaves_the_source_with_its_owner() {
    let dest = Module::adopt(ModuleRef(0x40));
    let mut src = Module::adopt(ModuleRef(0x41));
    assert_eq!(
        dest.link(&src),
        Request::LinkModules {
            dest: ModuleRef(0x40),
            src: ModuleRef(0x41),
            mode: LinkerMode::PreserveSource
        }
    );
    // The source is still there, still owned, and can be used and released.
    assert!(src.is_owned());
    assert_eq!(src.dump(), Request::DumpModule { module: ModuleRef(0x41) });
    assert_eq!(src.dispose(), Some(Request::DisposeModule { module: ModuleRef(0x41) }));
}

#[test]
fn linking_that_destroys_takes_the_source() {
    let dest = Module::adopt(ModuleRef(0x40));
    let src = Module::adopt(ModuleRef(0x41));
    assert_eq!(
        dest.link_destroy(src),
        Request::LinkModules {
            dest: ModuleRef(0x40),
            src: ModuleRef(0x41),
            mode: LinkerMode::DestroySource
        }
    );
    assert!(dest.is_owned());
}

#[test]
fn a_failed_link_carries_the_diagnostic() {
    let dest = Module::adopt(ModuleRef(0x40));
    let src = Module::adopt(ModuleRef(0x41));
    let request = dest.link(&src);
    let reply = llvm_jit::Reply::report(1, Some("symbol multiply defined!".to_string()));
    assert_eq!(request.settle(reply), Err("symbol multiply defined!".to_string()));
    assert_eq!(dest.link(&src).settle(llvm_jit::Reply::done()), Ok(0));
}

#[test]
fn optimisation_passes_both_levels() {
    let module = Module::adopt(ModuleRef(0x40));
    assert_eq!(
        module.optimize(3, 1),
        Request::Optimize { module: ModuleRef(0x40), opt_level: 3, size_level: 1 }
    );
    assert_eq!(
        module.optimize(0, 0),
        Request::Optimize { module: ModuleRef(0x40), opt_level: 0, size_level: 0 }
    );
    if usize::BITS > 32 {
        let wide: usize = (1usize << 32) + 2;
        assert_eq!(
            module.optimize(wide, wide + 1),
            Request::Optimize { module: ModuleRef(0x40), opt_level: 2, size_level: 3 }
        );
    }
}

#[test]
fn queries_and_checks_name_the_module() {
    let module = Module::adopt(ModuleRef(0x40));
    assert_eq!(module.target(), Request::GetTarget { module: ModuleRef(0x40) });
    assert_eq!(module.data_layout(), Request::GetDataLayout { module: ModuleRef(0x40) });
    assert_eq!(module.dump(), Request::DumpModule { module: ModuleRef(0x40) });
    assert_eq!(
        module.verify(),
        Request::VerifyModule { module: ModuleRef(0x40), action: FailureAction::ReturnStatus }
    );
    assert_eq!(
        module.get_ty("struct.point"),
        Request::GetTypeByName { module: ModuleRef(0x40), name: "struct.point" }
    );
    assert_eq!(
        module.get_global("counter"),
        Request::GetNamedGlobal { module: ModuleRef(0x40), name: "counter" }
    );
    assert_eq!(
        module.get_func("test1"),
        Request::GetNamedFunction { module: ModuleRef(0x40), name: "test1" }
    );
}

#[test]
fn globals_and_functions_are_added_by_name() {
    let module = Module::adopt(ModuleRef(0x40));
    assert_eq!(
        module.add_global("counter", &int_ty()),
        Request::AddGlobal { module: ModuleRef(0x40), ty: TypeRef(0x100), name: "counter" }
    );
    assert_eq!(
        module.add_global_in_addr_space("shared", &int_ty(), AddressSpace::Shared),
        Request::AddGlobalInAddressSpace {
            module: ModuleRef(0x40),
            ty: TypeRef(0x100),
            name: "shared",
            address_space: 3
        }
    );
    let five = Value::new(ValueRef(5), int_ty());
    assert_eq!(
        module.add_global_constant("five", &five),
        Request::AddGlobalConstant {
            module: ModuleRef(0x40),
            ty: TypeRef(0x100),
            name: "five",
            initializer: ValueRef(5)
        }
    );
    assert_eq!(
        module.add_func("fib", &FunctionTy(TypeRef(0x500))),
        Request::AddFunction { module: ModuleRef(0x40), name: "fib", sig: TypeRef(0x500) }
    );
}

#[test]
fn address_spaces_have_their_numbers() {
    assert_eq!(AddressSpace::Generic.number(), 0);
    assert_eq!(AddressSpace::Global.number(), 1);
    assert_eq!(AddressSpace::Shared.number(), 3);
    assert_eq!(AddressSpace::Const.number(), 4);
    assert_eq!(AddressSpace::Local.number(), 5);
}

#[test]
fn the_walk_over_globals_goes_forward_and_ends_at_null() {
    let module = Module::adopt(ModuleRef(0x40));
    let mut walk = module.global_values();
    assert_eq!(walk, ValueIter::new(ModuleRef(0x40)));
    assert_eq!(walk.request(), Some(Request::FirstGlobal { module: ModuleRef(0x40) }));
    assert_eq!(walk.advance(ValueRef(0x71)), Some(ValueRef(0x71)));
    assert_eq!(walk.request(), Some(Request::NextGlobal { global: ValueRef(0x71) }));
    assert_eq!(walk.advance(ValueRef(0x72)), Some(ValueRef(0x72)));
    assert_eq!(walk.request(), Some(Request::NextGlobal { global: ValueRef(0x72) }));
    assert_eq!(walk.advance(ValueRef(0)), None);
    // Once over, the walk asks nothing and hands out nothing.
    assert_eq!(walk.request(), None);
    assert_eq!(walk.advance(ValueRef(0x73)), None);
    assert_eq!(walk.request(), None);
}

#[test]
fn the_walk_over_no_globals_ends_at_once() {
    let mut walk = ValueIter::new(ModuleRef(0x40));
    assert_eq!(walk.request(), Some(Request::FirstGlobal { module: ModuleRef(0x40) }));
    assert_eq!(walk.advance(ValueRef(0)), None);
    assert_eq!(walk.request(), None);
}

#[test]
fn types_are_told_apart_by_handle_and_asked_by_kind() {
    let word = int_ty();
    let single = Ty::new(TypeRef(0x200), TypeKind::Float { bits: 32 });
    let pointer = Ty::new(TypeRef(0x300), TypeKind::Pointer);
    let nothing = Ty::new(TypeRef(0x400), TypeKind::Void);
    assert!(word.is_integer() && !word.is_float() && !word.is_pointer());
    assert!(!single.is_integer() && single.is_float() && !single.is_pointer());
    assert!(!pointer.is_integer() && !pointer.is_float() && pointer.is_pointer());
    assert!(!nothing.is_integer() && !nothing.is_float() && !nothing.is_pointer());
    assert!(word.equals(&int_ty()));
    assert!(!word.equals(&single));
    assert_eq!(word.as_ref(), TypeRef(0x100));
    assert_eq!(
        word.pointer_to(),
        Request::PointerType { elem: TypeRef(0x100), address_space: 0 }
    );
    assert_eq!(
        Ty::void_ty(ContextRef(1)),
        Request::ScalarType { ctx: ContextRef(1), scalar: Scalar::Void }
    );
}

#[test]
fn scalar_kinds_have_their_shapes() {
    assert_eq!(Scalar::Void.kind(), TypeKind::Void);
    assert_eq!(Scalar::Bool.kind(), TypeKind::Integer { bits: 1 });
    assert_eq!(Scalar::I8.kind(), TypeKind::Integer { bits: 8 });
    assert_eq!(Scalar::I16.kind(), TypeKind::Integer { bits: 16 });
    assert_eq!(Scalar::I32.kind(), TypeKind::Integer { bits: 32 });
    assert_eq!(Scalar::I64.kind(), TypeKind::Integer { bits: 64 });
    assert_eq!(Scalar::U64.kind(), TypeKind::Integer { bits: 64 });
    assert_eq!(Scalar::F32.kind(), TypeKind::Float { bits: 32 });
    assert_eq!(Scalar::F64.kind(), TypeKind::Float { bits: 64 });
    assert_eq!(
        Scalar::U64.llvm_ty(ContextRef(2)),
        Request::ScalarType { ctx: ContextRef(2), scalar: Scalar::U64 }
    );
}

#[test]
fn a_function_type_lists_its_parameters_in_order() {
    let word = int_ty();
    let single = Ty::new(TypeRef(0x200), TypeKind::Float { bits: 32 });
    assert_eq!(
        FunctionTy::new(&word, &[&single, &word]),
        Request::FunctionType {
            ret: TypeRef(0x100),
            params: vec![TypeRef(0x200), TypeRef(0x100)],
            var_arg: false
        }
    );
    assert_eq!(
        FunctionTy::new(&word, &[]),
        Request::FunctionType { ret: TypeRef(0x100), params: vec![], var_arg: false }
    );
}

#[test]
fn a_function_hands_out_its_arguments() {
    let first = Arg { handle: ValueRef(0xa0), ty: int_ty() };
    let second = Arg { handle: ValueRef(0xa1), ty: int_ty() };
    let func = Function::new(ValueRef(0xf0), int_ty(), vec![first, second], ModuleRef(0x40));
    assert_eq!(func.module, ModuleRef(0x40));
    assert_eq!(func.arg(0), first);
    assert_eq!(func.arg(1), second);
    assert_eq!(Value::from(func.arg(1)), Value::new(ValueRef(0xa1), int_ty()));
    assert_eq!(func.value(), Value::new(ValueRef(0xf0), int_ty()));
    assert_eq!(func.as_ref(), ValueRef(0xf0));
    assert_eq!(func.append("entry"), Request::AppendBlock { func: ValueRef(0xf0), name: "entry" });
    assert_eq!(func.dump(), Request::DumpValue { value: ValueRef(0xf0) });
    assert_eq!(
        func.verify(),
        Request::VerifyFunction { func: ValueRef(0xf0), action: FailureAction::ReturnStatus }
    );
}

#[test]
fn every_kind_of_value_turns_into_a_plain_value() {
    let global = GlobalValue { handle: ValueRef(0x70), ty: int_ty(), module: ModuleRef(0x40) };
    assert_eq!(Value::from(global), Value::new(ValueRef(0x70), int_ty()));
    assert_eq!(global.as_ref(), ValueRef(0x70));
    let phi = PhiNode { handle: ValueRef(0x90), ty: int_ty() };
    assert_eq!(Value::from(phi), Value::new(ValueRef(0x90), int_ty()));
    assert_eq!(
        phi.add_incoming(&Value::new(ValueRef(5), int_ty()), &BasicBlock(BlockRef(0xe1))),
        Request::AddIncoming { phi: ValueRef(0x90), value: ValueRef(5), block: BlockRef(0xe1) }
    );
}

#[test]
fn the_shape_of_a_type_follows_the_backend_kind() {
    assert_eq!(TypeKind::of(NativeKind::Void, 0), TypeKind::Void);
    assert_eq!(TypeKind::of(NativeKind::Integer, 1), TypeKind::Integer { bits: 1 });
    assert_eq!(TypeKind::of(NativeKind::Integer, 64), TypeKind::Integer { bits: 64 });
    assert_eq!(TypeKind::of(NativeKind::Integer, 128), TypeKind::Integer { bits: 128 });
    assert_eq!(TypeKind::of(NativeKind::Half, 0), TypeKind::Float { bits: 16 });
    assert_eq!(TypeKind::of(NativeKind::BFloat, 0), TypeKind::Float { bits: 16 });
    assert_eq!(TypeKind::of(NativeKind::Float, 0), TypeKind::Float { bits: 32 });
    assert_eq!(TypeKind::of(NativeKind::Double, 0), TypeKind::Float { bits: 64 });
    assert_eq!(TypeKind::of(NativeKind::X86FP80, 0), TypeKind::Float { bits: 80 });
    assert_eq!(TypeKind::of(NativeKind::FP128, 0), TypeKind::Float { bits: 128 });
    assert_eq!(TypeKind::of(NativeKind::PPCFP128, 0), TypeKind::Float { bits: 128 });
    assert_eq!(TypeKind::of(NativeKind::Pointer, 0), TypeKind::Pointer);
    assert_eq!(TypeKind::of(NativeKind::Function, 0), TypeKind::Function);
    // The width counts for integers only.
    assert_eq!(TypeKind::of(NativeKind::Double, 7), TypeKind::Float { bits: 64 });
    for other in [
        NativeKind::Label,
        NativeKind::Struct,
        NativeKind::Array,
        NativeKind::Vector,
        NativeKind::Metadata,
        NativeKind::X86MMX,
        NativeKind::Token,
        NativeKind::ScalableVector,
        NativeKind::X86AMX,
    ] {
        assert_eq!(TypeKind::of(other, 32), TypeKind::Other);
    }
}

#[test]
fn scalar_kinds_have_the_shapes_of_their_backend_types() {
    assert_eq!(Scalar::Void.kind(), TypeKind::of(NativeKind::Void, 0));
    assert_eq!(Scalar::Bool.kind(), TypeKind::of(NativeKind::Integer, 1));
    assert_eq!(Scalar::I8.kind(), TypeKind::of(NativeKind::Integer, 8));
    assert_eq!(Scalar::I16.kind(), TypeKind::of(NativeKind::Integer, 16));
    assert_eq!(Scalar::I32.kind(), TypeKind::of(NativeKind::Integer, 32));
    assert_eq!(Scalar::I64.kind(), TypeKind::of(NativeKind::Integer, 64));
    assert_eq!(Scalar::U64.kind(), TypeKind::of(NativeKind::Integer, 64));
    assert_eq!(Scalar::F32.kind(), TypeKind::of(NativeKind::Float, 0));
    assert_eq!(Scalar::F64.kind(), TypeKind::of(NativeKind::Double, 0));
}
