//! Checking that what was built is sound.

use vstd::prelude::*;
use crate::handle::ModuleRef;
use crate::request::{FailureAction, Reply, Request};
use crate::value::Function;

verus! {

/// The verifier of modules and functions.
///
/// Checking is the backend's work and changes nothing in what it checks. The
/// verifier is always asked to report a fault, never to print it or to end the
/// process.
pub struct Verifier;

impl Verifier {
    /// The request for a check of `module`.
    pub open spec fn spec_verify_module(module: ModuleRef) -> Request<'static> {
        Request::VerifyModule { module, action: FailureAction::ReturnStatus }
    }

    /// Asks for a check of a whole module.
    pub fn verify_module(module: ModuleRef) -> (request: Request<'static>)
        ensures
            request == Self::spec_verify_module(module),
    {
        Request::VerifyModule { module, action: FailureAction::ReturnStatus }
    }

    /// Asks for a check of a single function.
    pub fn verify_func(func: &Function) -> (request: Request<'static>)
        ensures
            request == (Request::VerifyFunction {
                func: func.handle,
                action: FailureAction::ReturnStatus,
            }),
    {
        func.verify()
    }

    /// What the verifier found: nothing where it reported status zero, else its
    /// diagnostic, which is empty if it gave none.
    pub fn verdict(reply: Reply) -> (verdict: Result<(), String>)
        ensures
            reply.status == 0 ==> verdict is Ok,
            reply.status != 0 ==> (verdict matches Err(e) && e@ == reply.text()),
    {
        if reply.status == 0 {
            Ok(())
        } else {
            match reply.message {
                Some(message) => Err(message),
                None => Err(String::new()),
            }
        }
    }
}

} // verus!
