//! Modules: named containers of globals and functions.

use vstd::prelude::*;
use crate::analysis::Verifier;
use crate::handle::{low_u32, ContextRef, LLVMRef, ModuleRef};
use crate::request::{LinkerMode, Request};
use crate::types::{AddressSpace, FunctionTy, Ty};
use crate::value::{Value, ValueIter};

verus! {

/// A module, and whether this wrapper is the one that has to release it.
///
/// A module is released exactly once. The wrapper that was made for it owns it
/// until the module is handed to an execution engine or linked away; from then
/// on the wrapper only names the module.
#[derive(Debug, PartialEq, Eq)]
pub struct Module {
    handle: ModuleRef,
    owned: bool,
}

impl Module {
    /// Whether the wrapper has to release the module.
    pub closed spec fn owned(&self) -> bool {
        self.owned
    }

    /// Asks for an empty module named `name`.
    pub fn new<'a>(ctx: ContextRef, name: &'a str) -> (request: Request<'a>)
        ensures
            request == (Request::CreateModule { ctx, name }),
    {
        Request::CreateModule { ctx, name }
    }

    /// Asks for the module that is serialised in the file at `path`.
    pub fn new_from_bc<'a>(ctx: ContextRef, path: &'a str) -> (request: Request<'a>)
        ensures
            request == (Request::ParseBitcode { ctx, path }),
    {
        Request::ParseBitcode { ctx, path }
    }

    /// The owning wrapper of the module that the backend made under `handle`.
    pub fn adopt(handle: ModuleRef) -> (module: Module)
        ensures
            module.handle() == handle,
            module.owned(),
    {
        Module { handle, owned: true }
    }

    pub fn is_owned(&self) -> (yes: bool)
        ensures
            yes == self.owned(),
    {
        self.owned
    }

    /// Gives up the duty to release the module: someone else has taken it.
    pub fn forget(&mut self)
        ensures
            final(self).handle() == old(self).handle(),
            !final(self).owned(),
    {
        self.owned = false;
    }

    /// Takes the duty to release the module back.
    pub(crate) fn reclaim(&mut self)
        ensures
            final(self).handle() == old(self).handle(),
            final(self).owned(),
    {
        self.owned = true;
    }

    /// Asks to have the module released, if that is this wrapper's duty, and
    /// ends the duty: asked twice, the second answer is nothing.
    pub fn dispose(&mut self) -> (request: Option<Request<'static>>)
        ensures
            final(self).handle() == old(self).handle(),
            !final(self).owned(),
            old(self).owned() ==> request == Some(
                Request::DisposeModule { module: old(self).handle() },
            ) && request->0.takes() == Some(old(self).handle()),
            !old(self).owned() ==> request is None,
    {
        if self.owned {
            self.owned = false;
            Some(Request::DisposeModule { module: self.handle })
        } else {
            None
        }
    }

    /// Asks for the module's target triple.
    pub fn target(&self) -> (request: Request<'static>)
        ensures
            request == (Request::GetTarget { module: self.handle() }),
    {
        Request::GetTarget { module: self.handle }
    }

    /// Asks for the module's data layout.
    pub fn data_layout(&self) -> (request: Request<'static>)
        ensures
            request == (Request::GetDataLayout { module: self.handle() }),
    {
        Request::GetDataLayout { module: self.handle }
    }

    /// The request to link `other` into this module and leave `other` as it
    /// is.
    pub open spec fn spec_link(&self, other: &Module) -> Request<'static> {
        Request::LinkModules {
            dest: self.handle(),
            src: other.handle(),
            mode: LinkerMode::PreserveSource,
        }
    }

    /// The request to link `other` into this module and use `other` up.
    pub open spec fn spec_link_destroy(&self, other: &Module) -> Request<'static> {
        Request::LinkModules {
            dest: self.handle(),
            src: other.handle(),
            mode: LinkerMode::DestroySource,
        }
    }

    /// Links `other` into this module and leaves `other` as it is, with its
    /// owner.
    pub fn link(&self, other: &Module) -> (request: Request<'static>)
        ensures
            request == self.spec_link(other),
            request.takes() is None,
    {
        Request::LinkModules {
            dest: self.handle,
            src: other.handle,
            mode: LinkerMode::PreserveSource,
        }
    }

    /// Links `other` into this module. The link uses `other` up: its wrapper
    /// is taken and nothing is left to release.
    pub fn link_destroy(&self, other: Module) -> (request: Request<'static>)
        requires
            other.owned(),
        ensures
            request == self.spec_link_destroy(&other),
            request.takes() == Some(other.handle()),
    {
        Request::LinkModules {
            dest: self.handle,
            src: other.handle,
            mode: LinkerMode::DestroySource,
        }
    }

    /// Optimises the module by the passes that belong to the two levels. The
    /// backend reads the low 32 bits of each level.
    pub fn optimize(&self, opt_level: usize, size_level: usize) -> (request: Request<'static>)
        ensures
            request matches Request::Optimize { module: m, opt_level: o, size_level: s } && m
                == self.handle() && o as int == (opt_level as int) % 0x1_0000_0000 && s as int == (
            size_level as int) % 0x1_0000_0000,
    {
        Request::Optimize {
            module: self.handle,
            opt_level: low_u32(opt_level),
            size_level: low_u32(size_level),
        }
    }

    /// Checks the module; a fault is reported, never printed.
    pub fn verify(&self) -> (request: Request<'static>)
        ensures
            request == Verifier::spec_verify_module(self.handle()),
    {
        Verifier::verify_module(self.handle)
    }

    /// Writes the module's text to the diagnostic stream.
    pub fn dump(&self) -> (request: Request<'static>)
        ensures
            request == (Request::DumpModule { module: self.handle() }),
    {
        Request::DumpModule { module: self.handle }
    }

    /// Looks for the type named `name`.
    pub fn get_ty<'a>(&self, name: &'a str) -> (request: Request<'a>)
        ensures
            request == (Request::GetTypeByName { module: self.handle(), name }),
    {
        Request::GetTypeByName { module: self.handle, name }
    }

    /// Adds a global of type `ty`, named `name`.
    pub fn add_global<'a>(&self, name: &'a str, ty: &Ty) -> (request: Request<'a>)
        ensures
            request == (Request::AddGlobal { module: self.handle(), ty: ty.handle, name }),
    {
        Request::AddGlobal { module: self.handle, ty: ty.handle, name }
    }

    /// Adds a global of type `ty`, named `name`, in the address space `sp`.
    pub fn add_global_in_addr_space<'a>(
        &self,
        name: &'a str,
        ty: &Ty,
        sp: AddressSpace,
    ) -> (request: Request<'a>)
        ensures
            request == (Request::AddGlobalInAddressSpace {
                module: self.handle(),
                ty: ty.handle,
                name,
                address_space: sp.spec_number(),
            }),
    {
        Request::AddGlobalInAddressSpace {
            module: self.handle,
            ty: ty.handle,
            name,
            address_space: sp.number(),
        }
    }

    /// Adds a global named `name` that has the type of `val` and starts out
    /// as `val`.
    pub fn add_global_constant<'a>(&self, name: &'a str, val: &Value) -> (request: Request<'a>)
        ensures
            request == (Request::AddGlobalConstant {
                module: self.handle(),
                ty: val.ty.handle,
                name,
                initializer: val.handle,
            }),
    {
        Request::AddGlobalConstant {
            module: self.handle,
            ty: val.ty.handle,
            name,
            initializer: val.handle,
        }
    }

    /// Looks for the global named `name`.
    pub fn get_global<'a>(&self, name: &'a str) -> (request: Request<'a>)
        ensures
            request == (Request::GetNamedGlobal { module: self.handle(), name }),
    {
        Request::GetNamedGlobal { module: self.handle, name }
    }

    /// The module's globals, from the first on.
    pub fn global_values(&self) -> (iter: ValueIter)
        ensures
            iter == ValueIter::spec_new(self.handle()),
    {
        ValueIter::new(self.handle)
    }

    /// Adds a function of type `sig`, named `name`.
    pub fn add_func<'a>(&self, name: &'a str, sig: &FunctionTy) -> (request: Request<'a>)
        ensures
            request == (Request::AddFunction { module: self.handle(), name, sig: sig.0 }),
    {
        Request::AddFunction { module: self.handle, name, sig: sig.0 }
    }

    /// Looks for the function named `name`.
    pub fn get_func<'a>(&self, name: &'a str) -> (request: Request<'a>)
        ensures
            request == (Request::GetNamedFunction { module: self.handle(), name }),
    {
        Request::GetNamedFunction { module: self.handle, name }
    }
}

/// Linking that preserves takes no module: the source stays in the hands of
/// its wrapper, which the link only borrows. Linking that destroys takes the
/// source, and nothing but the source; the wrapper is given up to the link, so
/// that the source cannot be used or released again.
pub proof fn law_link_takes_the_source_only_to_destroy(dest: &Module, src: &Module)
    ensures
        dest.spec_link(src).takes() is None,
        dest.spec_link_destroy(src).takes() == Some(src.handle()),
{
}

impl LLVMRef<ModuleRef> for Module {
    closed spec fn handle(&self) -> ModuleRef {
        self.handle
    }

    fn as_ref(&self) -> ModuleRef {
        self.handle
    }
}

} // verus!
