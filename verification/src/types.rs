//! Types of values, as far as the front end looks into them.

use vstd::prelude::*;
use crate::handle::{handles_of, to_llvmref_array, ContextRef, LLVMRef, TypeRef};
use crate::request::Request;

verus! {

/// The shape of a type, as far as an operation's choice depends on it.
#[derive(Clone, Copy, Debug, PartialEq, Eq, Structural)]
pub enum TypeKind {
    Void,
    /// An integer of `bits` bits; a boolean is an integer of one bit.
    Integer { bits: u32 },
    /// A floating-point number of `bits` bits.
    Float { bits: u32 },
    Pointer,
    Function,
    /// Any other shape: an aggregate, a vector, a label.
    Other,
}

/// The backend's own kinds of types.
#[derive(Clone, Copy, Debug, PartialEq, Eq, Structural)]
pub enum NativeKind {
    Void,
    Half,
    Float,
    Double,
    X86FP80,
    FP128,
    PPCFP128,
    Label,
    Integer,
    Function,
    Struct,
    Array,
    Pointer,
    Vector,
    Metadata,
    X86MMX,
    Token,
    ScalableVector,
    BFloat,
    X86AMX,
}

impl TypeKind {
    /// The shape of a type of the backend's kind `native`; `int_bits` is the
    /// width of the type where it is an integer. Every floating-point kind
    /// counts as a float of its width.
    pub open spec fn spec_of(native: NativeKind, int_bits: u32) -> TypeKind {
        match native {
            NativeKind::Void => TypeKind::Void,
            NativeKind::Integer => TypeKind::Integer { bits: int_bits },
            NativeKind::Half => TypeKind::Float { bits: 16 },
            NativeKind::BFloat => TypeKind::Float { bits: 16 },
            NativeKind::Float => TypeKind::Float { bits: 32 },
            NativeKind::Double => TypeKind::Float { bits: 64 },
            NativeKind::X86FP80 => TypeKind::Float { bits: 80 },
            NativeKind::FP128 => TypeKind::Float { bits: 128 },
            NativeKind::PPCFP128 => TypeKind::Float { bits: 128 },
            NativeKind::Pointer => TypeKind::Pointer,
            NativeKind::Function => TypeKind::Function,
            _ => TypeKind::Other,
        }
    }

    pub fn of(native: NativeKind, int_bits: u32) -> (kind: TypeKind)
        ensures
            kind == Self::spec_of(native, int_bits),
    {
        match native {
            NativeKind::Void => TypeKind::Void,
            NativeKind::Integer => TypeKind::Integer { bits: int_bits },
            NativeKind::Half => TypeKind::Float { bits: 16 },
            NativeKind::BFloat => TypeKind::Float { bits: 16 },
            NativeKind::Float => TypeKind::Float { bits: 32 },
            NativeKind::Double => TypeKind::Float { bits: 64 },
            NativeKind::X86FP80 => TypeKind::Float { bits: 80 },
            NativeKind::FP128 => TypeKind::Float { bits: 128 },
            NativeKind::PPCFP128 => TypeKind::Float { bits: 128 },
            NativeKind::Pointer => TypeKind::Pointer,
            NativeKind::Function => TypeKind::Function,
            _ => TypeKind::Other,
        }
    }
}

/// A type: the handle under which the backend knows it, and its shape.
///
/// The backend keeps one object for each shape, so two types are the same
/// exactly when their handles are.
#[derive(Clone, Copy, Debug, PartialEq, Eq, Structural)]
pub struct Ty {
    pub handle: TypeRef,
    pub kind: TypeKind,
}

impl Ty {
    pub fn new(handle: TypeRef, kind: TypeKind) -> (ty: Ty)
        ensures
            ty.handle == handle,
            ty.kind == kind,
    {
        Ty { handle, kind }
    }

    /// Whether `self` and `other` are one type.
    pub open spec fn same(self, other: Ty) -> bool {
        self.handle == other.handle
    }

    pub fn is_integer(&self) -> (yes: bool)
        ensures
            yes == (self.kind is Integer),
    {
        match self.kind {
            TypeKind::Integer { .. } => true,
            _ => false,
        }
    }

    pub fn is_float(&self) -> (yes: bool)
        ensures
            yes == (self.kind is Float),
    {
        match self.kind {
            TypeKind::Float { .. } => true,
            _ => false,
        }
    }

    pub fn is_pointer(&self) -> (yes: bool)
        ensures
            yes == (self.kind is Pointer),
    {
        match self.kind {
            TypeKind::Pointer => true,
            _ => false,
        }
    }

    /// Whether `self` and `other` are one type: whether their handles agree.
    pub fn equals(&self, other: &Ty) -> (yes: bool)
        ensures
            yes == self.same(*other),
    {
        self.handle.0 == other.handle.0
    }

    /// Asks for the type of pointers to `self`, in the generic address space.
    pub fn pointer_to(&self) -> (request: Request<'static>)
        ensures
            request == (Request::PointerType {
                elem: self.handle,
                address_space: AddressSpace::Generic.spec_number(),
            }),
    {
        Request::PointerType { elem: self.handle, address_space: AddressSpace::Generic.number() }
    }

    /// Asks for the type that has no values.
    pub fn void_ty(ctx: ContextRef) -> (request: Request<'static>)
        ensures
            request == (Request::ScalarType { ctx, scalar: Scalar::Void }),
    {
        Request::ScalarType { ctx, scalar: Scalar::Void }
    }
}

impl LLVMRef<TypeRef> for Ty {
    open spec fn handle(&self) -> TypeRef {
        self.handle
    }

    fn as_ref(&self) -> TypeRef {
        self.handle
    }
}

/// The type of a function: its handle.
#[derive(Clone, Copy, Debug, PartialEq, Eq, Structural)]
pub struct FunctionTy(pub TypeRef);

impl FunctionTy {
    /// Asks for the type of functions that take `args` and return `ret`.
    pub fn new(ret: &Ty, args: &[&Ty]) -> (request: Request<'static>)
        ensures
            request matches Request::FunctionType { ret: r, params: p, var_arg: v } && r
                == ret.handle && p@ == handles_of::<TypeRef, Ty>(args@) && !v,
    {
        let params: Vec<TypeRef> = to_llvmref_array(args);
        Request::FunctionType { ret: ret.handle, params, var_arg: false }
    }
}

impl LLVMRef<TypeRef> for FunctionTy {
    open spec fn handle(&self) -> TypeRef {
        self.0
    }

    fn as_ref(&self) -> TypeRef {
        self.0
    }
}

/// The address spaces in which a global can live.
#[derive(Clone, Copy, Debug, PartialEq, Eq, Structural)]
pub enum AddressSpace {
    Generic,
    Global,
    Shared,
    Const,
    Local,
}

impl AddressSpace {
    /// The number under which the backend knows the address space.
    pub open spec fn spec_number(self) -> u32 {
        match self {
            AddressSpace::Generic => 0,
            AddressSpace::Global => 1,
            AddressSpace::Shared => 3,
            AddressSpace::Const => 4,
            AddressSpace::Local => 5,
        }
    }

    pub fn number(&self) -> (n: u32)
        ensures
            n == self.spec_number(),
    {
        match self {
            AddressSpace::Generic => 0,
            AddressSpace::Global => 1,
            AddressSpace::Shared => 3,
            AddressSpace::Const => 4,
            AddressSpace::Local => 5,
        }
    }
}

/// The host's scalar kinds that have a type of their own in the backend.
#[derive(Clone, Copy, Debug, PartialEq, Eq, Structural)]
pub enum Scalar {
    Void,
    Bool,
    I8,
    I16,
    I32,
    I64,
    U64,
    F32,
    F64,
}

impl Scalar {
    /// The shape of the backend type that stands for the scalar kind. The
    /// backend's integers carry no sign, so `I64` and `U64` share a shape.
    pub open spec fn spec_kind(self) -> TypeKind {
        match self {
            Scalar::Void => TypeKind::Void,
            Scalar::Bool => TypeKind::Integer { bits: 1 },
            Scalar::I8 => TypeKind::Integer { bits: 8 },
            Scalar::I16 => TypeKind::Integer { bits: 16 },
            Scalar::I32 => TypeKind::Integer { bits: 32 },
            Scalar::I64 => TypeKind::Integer { bits: 64 },
            Scalar::U64 => TypeKind::Integer { bits: 64 },
            Scalar::F32 => TypeKind::Float { bits: 32 },
            Scalar::F64 => TypeKind::Float { bits: 64 },
        }
    }

    /// Asks for the type that stands for the scalar kind in `ctx`.
    pub fn llvm_ty(&self, ctx: ContextRef) -> (request: Request<'static>)
        ensures
            request == (Request::ScalarType { ctx, scalar: *self }),
    {
        Request::ScalarType { ctx, scalar: *self }
    }

    pub fn kind(&self) -> (kind: TypeKind)
        ensures
            kind == self.spec_kind(),
    {
        match self {
            Scalar::Void => TypeKind::Void,
            Scalar::Bool => TypeKind::Integer { bits: 1 },
            Scalar::I8 => TypeKind::Integer { bits: 8 },
            Scalar::I16 => TypeKind::Integer { bits: 16 },
            Scalar::I32 => TypeKind::Integer { bits: 32 },
            Scalar::I64 => TypeKind::Integer { bits: 64 },
            Scalar::U64 => TypeKind::Integer { bits: 64 },
            Scalar::F32 => TypeKind::Float { bits: 32 },
            Scalar::F64 => TypeKind::Float { bits: 64 },
        }
    }
}

} // verus!
