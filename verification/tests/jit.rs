//! The compiler driven end to end, with a small machine in place of the
//! backend: it keeps what it is asked to build and interprets it.

use llvm_jit::{
    Arg, BasicBlock, BlockRef, Builder, BuilderRef, Construction, Function, FunctionTy, Instr,
    JitCompiler, LLVMRef, Module, ModuleRef, Predicate, Progress, Reply, Request, Scalar, ToValue,
    Ty, TypeKind, TypeRef, Value, ValueRef, Verifier,
};
use std::collections::{HashMap, HashSet};

struct FunctionBody {
    module: usize,
    sig: usize,
    params: Vec<usize>,
    blocks: Vec<usize>,
}

#[derive(Default)]
struct Machine {
    last: usize,
    scalars: HashMap<usize, Scalar>,
    signatures: HashMap<usize, (usize, Vec<usize>)>,
    constants: HashMap<usize, u64>,
    types_of: HashMap<usize, usize>,
    arguments: HashMap<usize, usize>,
    functions: HashMap<usize, FunctionBody>,
    names: HashMap<(usize, String), usize>,
    blocks: HashMap<usize, Vec<(usize, Instr<'static>)>>,
    positions: HashMap<usize, usize>,
    engine: HashSet<usize>,
    mapped: HashMap<usize, usize>,
    host: HashMap<usize, fn(u64) -> u64>,
}

impl Machine {
    fn fresh(&mut self) -> usize {
        self.last += 0x10;
        self.last
    }

    fn scalar_type(&mut self, scalar: Scalar) -> usize {
        let known = self.scalars.iter().find(|(_, s)| s.kind() == scalar.kind()).map(|(h, _)| *h);
        match known {
            Some(handle) => handle,
            None => {
                let handle = self.fresh();
                self.scalars.insert(handle, scalar);
                handle
            }
        }
    }

    fn ty(&self, handle: usize) -> Ty {
        let kind = match self.scalars.get(&handle) {
            Some(scalar) => scalar.kind(),
            None if self.signatures.contains_key(&handle) => TypeKind::Function,
            None => TypeKind::Pointer,
        };
        Ty::new(TypeRef(handle), kind)
    }

    fn value(&self, handle: usize) -> Value {
        Value::new(ValueRef(handle), self.ty(self.types_of[&handle]))
    }

    fn function(&self, handle: usize) -> Function {
        let body = &self.functions[&handle];
        let params = body
            .params
            .iter()
            .map(|p| Arg { handle: ValueRef(*p), ty: self.ty(self.types_of[p]) })
            .collect();
        Function::new(ValueRef(handle), self.ty(body.sig), params, ModuleRef(body.module))
    }

    /// Carries out a request.
    fn perform(&mut self, request: &Request) -> Reply {
        match request {
            Request::CreateContext
            | Request::CreateModule { .. }
            | Request::CreateBuilder { .. } => Reply::found(self.fresh()),
            Request::CreateMcjit { module, .. } => {
                self.engine.insert(module.0);
                Reply::found(self.fresh())
            }
            Request::ScalarType { scalar, .. } => Reply::found(self.scalar_type(*scalar)),
            Request::FunctionType { ret, params, .. } => {
                let handle = self.fresh();
                self.signatures.insert(handle, (ret.0, params.iter().map(|p| p.0).collect()));
                Reply::found(handle)
            }
            Request::ConstInt { scalar, bits, .. } => {
                let ty = self.scalar_type(*scalar);
                let handle = self.fresh();
                self.constants.insert(handle, *bits);
                self.types_of.insert(handle, ty);
                Reply::found(handle)
            }
            Request::AddFunction { module, name, sig } => {
                Reply::found(self.add_function(module.0, name, sig.0))
            }
            Request::FunctionPrototype { module, name, ret, params, entry } => {
                let sig = self.fresh();
                self.signatures.insert(sig, (ret.0, params.iter().map(|p| p.0).collect()));
                let func = self.add_function(module.0, name, sig);
                if let Some((builder, _)) = entry {
                    let block = self.append_block(func);
                    self.positions.insert(builder.0, block);
                }
                Reply::found(func)
            }
            Request::GetNamedFunction { module, name } => {
                Reply::found(*self.names.get(&(module.0, name.to_string())).unwrap_or(&0))
            }
            Request::AppendBlock { func, .. } => Reply::found(self.append_block(func.0)),
            Request::PositionBuilderAtEnd { builder, block } => {
                self.positions.insert(builder.0, block.0);
                Reply::done()
            }
            Request::VerifyModule { .. } | Request::VerifyFunction { .. } => Reply::done(),
            Request::AddModule { module, .. } => {
                self.engine.insert(module.0);
                Reply::done()
            }
            Request::RemoveModule { module, .. } => {
                self.engine.remove(&module.0);
                Reply::found(module.0)
            }
            Request::AddGlobalMapping { global, addr, .. } => {
                self.mapped.insert(global.0, *addr);
                Reply::done()
            }
            Request::GetPointerToGlobal { global, .. } => {
                let defined = !self.functions[&global.0].blocks.is_empty();
                let held = self.engine.contains(&self.functions[&global.0].module);
                match self.mapped.get(&global.0) {
                    Some(addr) => Reply::found(*addr),
                    None if defined && held => Reply::found(global.0),
                    None => Reply::found(0),
                }
            }
            _ => Reply::done(),
        }
    }

    fn add_function(&mut self, module: usize, name: &str, sig: usize) -> usize {
        let func = self.fresh();
        let mut params = Vec::new();
        for (at, ty) in self.signatures[&sig].1.clone().into_iter().enumerate() {
            let param = self.fresh();
            self.types_of.insert(param, ty);
            self.arguments.insert(param, at);
            params.push(param);
        }
        self.types_of.insert(func, sig);
        self.functions.insert(func, FunctionBody { module, sig, params, blocks: Vec::new() });
        self.names.insert((module, name.to_string()), func);
        func
    }

    fn append_block(&mut self, func: usize) -> usize {
        let block = self.fresh();
        self.blocks.insert(block, Vec::new());
        self.functions.get_mut(&func).unwrap().blocks.push(block);
        block
    }

    /// Puts an instruction where the builder stands, and hands back its
    /// result.
    fn emit(&mut self, builder: &Builder, instr: Instr<'static>) -> Value {
        let result = self.fresh();
        let ty = match &instr {
            Instr::Alloca { .. } => usize::MAX,
            Instr::IntCompare { .. } => self.scalar_type(Scalar::Bool),
            Instr::Load { .. } => self.scalar_type(Scalar::U64),
            _ => self.scalar_type(Scalar::Void),
        };
        self.types_of.insert(result, ty);
        let block = self.positions[&builder.as_ref().0];
        self.blocks.get_mut(&block).unwrap().push((result, instr));
        self.value(result)
    }

    /// Calls what lies at an address that the engine gave.
    fn call(&self, address: usize, argument: u64) -> u64 {
        match self.host.get(&address) {
            Some(native) => native(argument),
            None => self.interpret(address, argument),
        }
    }

    fn interpret(&self, func: usize, argument: u64) -> u64 {
        let mut registers: HashMap<usize, u64> = HashMap::new();
        let mut memory: HashMap<usize, u64> = HashMap::new();
        let mut block = self.functions[&func].blocks[0];
        loop {
            let mut next = None;
            for (result, instr) in &self.blocks[&block] {
                let read = |handle: &ValueRef| -> u64 {
                    if let Some(bits) = self.constants.get(&handle.0) {
                        *bits
                    } else if self.arguments.contains_key(&handle.0) {
                        argument
                    } else {
                        registers[&handle.0]
                    }
                };
                match instr {
                    Instr::Alloca { .. } => {
                        memory.insert(*result, 0);
                    }
                    Instr::Store { value, ptr } => {
                        let stored = read(value);
                        memory.insert(ptr.0, stored);
                    }
                    Instr::Load { ptr } => {
                        let loaded = memory[&ptr.0];
                        registers.insert(*result, loaded);
                    }
                    Instr::IntCompare { pred, lhs, rhs } => {
                        let bits = match self.value(lhs.0).ty().kind {
                            TypeKind::Integer { bits } => bits,
                            other => panic!("expected numbers, got {:?}", other),
                        };
                        let decided = pred.eval(bits, read(lhs), read(rhs));
                        registers.insert(*result, decided as u64);
                    }
                    Instr::CondBr { cond, then_block, else_block } => {
                        next = Some(if read(cond) != 0 { then_block.0 } else { else_block.0 });
                    }
                    Instr::Br { dest } => next = Some(dest.0),
                    Instr::Ret { value } => return read(value),
                    other => panic!("the machine does not run {:?}", other),
                }
            }
            block = next.unwrap();
        }
    }
}

fn make(machine: &mut Machine, start: Construction) -> Result<JitCompiler, String> {
    let mut making = start;
    loop {
        let reply = machine.perform(&making.request());
        match making.advance(reply) {
            Progress::Pending(next) => making = next,
            Progress::Ready(jit) => return Ok(jit),
            Progress::Failed { error, .. } => return Err(error),
        }
    }
}

fn u64_ty(machine: &mut Machine, jit: &JitCompiler) -> Ty {
    let handle = machine.perform(&Scalar::U64.llvm_ty(jit.context())).handle;
    machine.ty(handle)
}

fn block(machine: &mut Machine, func: &Function, name: &str) -> BasicBlock {
    BasicBlock(BlockRef(machine.perform(&func.append(name)).handle))
}

fn constant(machine: &mut Machine, jit: &JitCompiler, number: u64) -> Value {
    let handle = machine.perform(&number.to_value(jit.context())).handle;
    machine.value(handle)
}

fn func_ptr(machine: &mut Machine, jit: &JitCompiler, func: &Function) -> Option<usize> {
    let reply = machine.perform(&jit.get_func_ptr(func));
    Some(jit.address_of(func.module, &reply))
}

fn find_func(machine: &mut Machine, request: Request) -> Option<Function> {
    let found = machine.perform(&request).lookup();
    found.map(|handle| machine.function(handle))
}

#[test]
fn test_cond_br() {
    let mut machine = Machine::default();
    let mut jit = make(&mut machine, JitCompiler::new("test1")).ok().unwrap();

    let word = u64_ty(&mut machine, &jit);
    let sig = machine.perform(&FunctionTy::new(&word, &[&word])).handle;
    let func_ty = FunctionTy(TypeRef(sig));
    let handle = machine.perform(&jit.add_func("fib", &func_ty)).handle;
    let func = machine.function(handle);
    let value = func.arg(0);

    let entry = block(&mut machine, &func, "entry");
    let then_bb = block(&mut machine, &func, "then_block");
    let else_bb = block(&mut machine, &func, "else_block");
    let merge_bb = block(&mut machine, &func, "merge_block");

    machine.perform(&jit.builder_mut().position_at_end(&entry));
    let builder = jit.builder();
    let local = machine.emit(builder, builder.create_alloca(&word));
    let five = constant(&mut machine, &jit, 5);
    let cond = machine.emit(builder, builder.create_cmp(&value.into(), &five, Predicate::Lt));
    machine.emit(builder, builder.create_cond_br(&cond, &then_bb, &else_bb));

    machine.perform(&jit.builder_mut().position_at_end(&then_bb));
    let builder = jit.builder();
    let eight = constant(&mut machine, &jit, 8);
    machine.emit(builder, builder.create_store(&eight, &local));
    machine.emit(builder, builder.create_br(&merge_bb));

    machine.perform(&jit.builder_mut().position_at_end(&else_bb));
    let builder = jit.builder();
    let sixteen = constant(&mut machine, &jit, 16);
    machine.emit(builder, builder.create_store(&sixteen, &local));
    machine.emit(builder, builder.create_br(&merge_bb));

    machine.perform(&jit.builder_mut().position_at_end(&merge_bb));
    let builder = jit.builder();
    let ret_val = machine.emit(builder, builder.create_load(&local));
    machine.emit(builder, builder.create_ret(&ret_val));

    let reply = machine.perform(&jit.verify());
    Verifier::verdict(reply).unwrap();

    let fib = func_ptr(&mut machine, &jit, &func).unwrap();

    for i in 0..10 {
        if i < 5 {
            assert_eq!(8, machine.call(fib, i));
        } else {
            assert_eq!(16, machine.call(fib, i));
        }
    }
}

#[test]
fn a_signed_comparison_takes_a_set_high_bit_for_a_negative_number() {
    let mut machine = Machine::default();
    let jit = make(&mut machine, JitCompiler::new("signs")).ok().unwrap();
    let word = u64_ty(&mut machine, &jit);
    let five = constant(&mut machine, &jit, 5);
    let one = constant(&mut machine, &jit, 1);
    let zero = constant(&mut machine, &jit, 0);
    let mut builder = Builder::attach(BuilderRef(machine.perform(&jit.new_builder()).handle));
    let mut compiled = Vec::new();
    for signed in [true, false] {
        let name = if signed { "signed" } else { "unsigned" };
        let request = jit.create_func_prototype(name, &word, &[&word], Some(&mut builder));
        let handle = machine.perform(&request).handle;
        let func = machine.function(handle);
        let yes = block(&mut machine, &func, "yes");
        let no = block(&mut machine, &func, "no");
        let value: Value = func.arg(0).into();
        let cond = if signed {
            builder.create_cmp(&value, &five, Predicate::Lt)
        } else {
            builder.create_ucmp(&value, &five, Predicate::Lt)
        };
        let cond = machine.emit(&builder, cond);
        machine.emit(&builder, builder.create_cond_br(&cond, &yes, &no));
        machine.perform(&builder.position_at_end(&yes));
        machine.emit(&builder, builder.create_ret(&one));
        machine.perform(&builder.position_at_end(&no));
        machine.emit(&builder, builder.create_ret(&zero));
        compiled.push(func_ptr(&mut machine, &jit, &func).unwrap());
    }
    let (signed, unsigned) = (compiled[0], compiled[1]);
    for small in [0u64, 4] {
        assert_eq!(machine.call(signed, small), 1);
        assert_eq!(machine.call(unsigned, small), 1);
    }
    for large in [5u64, 6, 0x7fff_ffff_ffff_ffff] {
        assert_eq!(machine.call(signed, large), 0);
        assert_eq!(machine.call(unsigned, large), 0);
    }
    for negative in [0x8000_0000_0000_0000u64, u64::MAX] {
        assert_eq!(machine.call(signed, negative), 1);
        assert_eq!(machine.call(unsigned, negative), 0);
    }
}

#[test]
fn test_modules() {
    let mut machine = Machine::default();
    let jit = make(&mut machine, JitCompiler::new("test_jit")).ok().unwrap();
    let mut jit = jit;
    let ctx = jit.context();

    let created = machine.perform(&Module::new(jit.context(), "internal")).handle;
    let mut module1 = Module::adopt(ModuleRef(created));

    let mut bld = Builder::attach(BuilderRef(machine.perform(&jit.new_builder()).handle));
    let word_handle = machine.perform(&Scalar::U64.llvm_ty(ctx)).handle;
    let word = machine.ty(word_handle);
    let sig = machine.perform(&JitCompiler::create_func_ty(&word, &[&word])).handle;
    let func_ty = &FunctionTy(TypeRef(sig));
    let handle = machine.perform(&module1.add_func("test1", func_ty)).handle;
    let func = machine.function(handle);

    let entry = block(&mut machine, &func, "entry");
    machine.perform(&bld.position_at_end(&entry));
    machine.emit(&bld, bld.create_ret(&func.arg(0).into()));
    machine.perform(&func.dump());
    let reply = machine.perform(&func.verify());
    Verifier::verdict(reply).ok().expect("Function test is invalid");

    assert!(find_func(&mut machine, jit.get_func("test1")).is_none());
    assert!(find_func(&mut machine, module1.get_func("test1")).is_some());

    let found_func = find_func(&mut machine, module1.get_func("test1")).expect("test1 not found");
    let found_fn_ptr_1 =
        func_ptr(&mut machine, &jit, &found_func).expect("test1 ptr not found (try 1)");
    assert!((found_fn_ptr_1 == 0) == true);

    let request = jit.add_module(&mut module1).unwrap();
    machine.perform(&request);
    let found_fn_ptr_2 =
        func_ptr(&mut machine, &jit, &found_func).expect("test1 ptr not found (try 2)");
    assert!((found_fn_ptr_2 == 0) == false);

    assert_eq!(19800401, machine.call(found_fn_ptr_2, 19800401));

    let request = jit.remove_module(&mut module1).unwrap();
    machine.perform(&request);
    let found_fn_ptr_3 =
        func_ptr(&mut machine, &jit, &found_func).expect("test1 ptr not found (try 3)");
    assert!((found_fn_ptr_3 == 0) == true);

    let request = jit.add_module(&mut module1).unwrap();
    machine.perform(&request);
    let found_fn_ptr_4 =
        func_ptr(&mut machine, &jit, &found_func).expect("test1 ptr not found (try 4)");
    assert!((found_fn_ptr_4 == 0) == false);
}

fn test_extern_fn(x: u64) -> u64 {
    x
}

#[test]
fn test_global_mapping() {
    let mut machine = Machine::default();
    let jit = make(&mut machine, JitCompiler::new("test_jit")).ok().unwrap();
    let ctx = jit.context();

    let word_handle = machine.perform(&Scalar::U64.llvm_ty(ctx)).handle;
    let word = machine.ty(word_handle);
    let request = jit.create_func_prototype("test", &word, &[&word], None);
    let handle = machine.perform(&request).handle;
    let func = machine.function(handle);
    let fn_ptr: usize = 0x7e57;
    machine.host.insert(fn_ptr, test_extern_fn);
    machine.perform(&jit.add_global_mapping(&func, fn_ptr));

    println!("before transmute");
    let same = func_ptr(&mut machine, &jit, &func).unwrap();
    println!("after transmute");

    for i in 0..10 {
        assert_eq!(i, machine.call(same, i));
    }

    println!("after execute same");

    let reply = machine.perform(&jit.verify());
    Verifier::verdict(reply).unwrap();
    println!("after verify");
}
