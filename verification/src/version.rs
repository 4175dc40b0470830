//! The backend's version and the oldest one this library works with.

use vstd::prelude::*;
use crate::handle::low_u32;
use crate::request::{Reply, Request};

verus! {

/// Major number of the oldest supported backend.
pub const MIN_MAJOR: u32 = 3;

/// Minor number of the oldest supported backend.
pub const MIN_MINOR: u32 = 6;

/// A backend version, as its two leading numbers.
#[derive(Clone, Copy, Debug, PartialEq, Eq, Structural)]
pub struct Version {
    pub major: u32,
    pub minor: u32,
}

impl Version {
    /// Whether `self` is at least the oldest supported version.
    pub open spec fn supported(self) -> bool {
        self.major > MIN_MAJOR || (self.major == MIN_MAJOR && self.minor >= MIN_MINOR)
    }

    pub fn new(major: u32, minor: u32) -> (v: Version)
        ensures
            v.major == major,
            v.minor == minor,
    {
        Version { major, minor }
    }

    /// The two requests for the backend's version: for its first number and
    /// for its second.
    pub fn query() -> (requests: (Request<'static>, Request<'static>))
        ensures
            requests == (Request::VersionMajor, Request::VersionMinor),
    {
        (Request::VersionMajor, Request::VersionMinor)
    }

    /// The version that the backend's two answers name.
    pub fn read(major: &Reply, minor: &Reply) -> (v: Version)
        ensures
            v.major as int == (major.handle as int) % 0x1_0000_0000,
            v.minor as int == (minor.handle as int) % 0x1_0000_0000,
    {
        Version { major: low_u32(major.handle), minor: low_u32(minor.handle) }
    }

    /// The oldest backend version that is supported.
    pub fn minimum() -> (v: Version)
        ensures
            v.major == MIN_MAJOR,
            v.minor == MIN_MINOR,
            v.supported(),
    {
        Version { major: MIN_MAJOR, minor: MIN_MINOR }
    }

    pub fn is_supported(&self) -> (ok: bool)
        ensures
            ok == self.supported(),
    {
        self.major > MIN_MAJOR || (self.major == MIN_MAJOR && self.minor >= MIN_MINOR)
    }
}

} // verus!
