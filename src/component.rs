//! Typed handles to the compiler's interfaces, each one owned reference to
//! one object, and the projection of the specific interfaces onto the
//! general component-type interface.

use vstd::prelude::*;
use crate::error::{error_from_null, result_from_blob, Blob, Error, Result};
use crate::handle::{counts_after_add_ref, IUnknown, ObjectTable};

verus! {

/// The 128-bit identity of an interface.
#[derive(Clone, Copy, Debug, PartialEq, Eq)]
pub struct UUID {
    pub data1: u32,
    pub data2: u16,
    pub data3: u16,
    pub data4: [u8; 8],
}

/// A typed interface handle: which object it refers to, and the identity of
/// the interface it speaks.
pub trait Interface {
    spec fn object(&self) -> usize;

    fn iid() -> UUID;
}

/// Status the compiler uses for a failure with no more specific cause.
pub const FAIL: i32 = -2147467259;

/// Outcome of a call that hands its result back with an owned reference
/// (compose, link, specialize, code and metadata queries): a failed status
/// gives its diagnostics or bare status; a successful one whose result is a
/// live object gives a handle to it, with no count changed.
pub fn owned_result(
    table: &ObjectTable,
    code: i32,
    out: Option<usize>,
    diagnostics: Option<Blob>,
) -> (r: Result<IUnknown>)
    ensures
        match r {
            Ok(h) => code >= 0 && out == Some(h.object()) && table.is_live(h.object()),
            Err(Error::Code(c)) => (code < 0 ==> c == code && diagnostics is None)
                && (code >= 0 ==> c == FAIL && !(out is Some && table.is_live(out->0))),
            Err(Error::Blob(b)) => code < 0 && diagnostics is Some && b@ == diagnostics->0@,
        },
        code >= 0 && out is Some && table.is_live(out->0) ==> r is Ok,
{
    let status = result_from_blob(code, diagnostics);
    match status {
        Err(e) => Err(e),
        Ok(()) => match table.adopt(out) {
            Some(h) => Ok(h),
            None => Err(Error::Code(FAIL)),
        },
    }
}

/// Outcome of a module load, whose result does not carry a reference of its
/// own: a null result gives the diagnostics (or a bare failure where there
/// are none); a live module gets one more reference, and its handle owns it.
pub fn loaded_module(
    table: &mut ObjectTable,
    out: Option<usize>,
    diagnostics: Option<Blob>,
) -> (r: Result<Module>)
    requires
        out is Some && old(table).is_live(out->0) ==> old(table)@[out->0 as int] < u64::MAX,
    ensures
        match r {
            Ok(m) => out == Some(m.object()) && old(table).is_live(m.object())
                && final(table)@ == counts_after_add_ref(old(table)@, m.object() as int),
            Err(e) => !(out is Some && old(table).is_live(out->0)) && final(table)@ == old(table)@
                && match e {
                    Error::Code(c) => c == FAIL && diagnostics is None,
                    Error::Blob(b) => diagnostics is Some && b@ == diagnostics->0@,
                },
        },
{
    match table.retain(out) {
        Some(h) => Ok(Module(ComponentType(h))),
        None => Err(error_from_null(FAIL, diagnostics)),
    }
}

/// A specific interface whose object also answers the general interface
/// `T`. Projecting borrows the handle: it neither takes nor gives back a
/// reference, and names the same object.
pub trait Downcast<T: Interface>: Interface {
    fn downcast(&self) -> (r: &T)
        ensures
            r.object() == self.object(),
    ;
}

/// The factory that creates sessions.
#[derive(Debug)]
pub struct GlobalSession(pub IUnknown);

/// A compilation session: loads modules and composes component types.
#[derive(Debug)]
pub struct Session(pub IUnknown);

/// Binding-usage metadata of compiled code.
#[derive(Debug)]
pub struct Metadata(pub IUnknown);

/// Something that can be laid out, linked and compiled to target code.
#[derive(Debug)]
pub struct ComponentType(pub IUnknown);

/// An entry point of a module.
#[derive(Debug)]
pub struct EntryPoint(pub ComponentType);

/// A type conformance to be linked into a program.
#[derive(Debug)]
pub struct TypeConformance(pub ComponentType);

/// A loaded module.
#[derive(Debug)]
pub struct Module(pub ComponentType);

impl Interface for GlobalSession {
    open spec fn object(&self) -> usize {
        self.0.object()
    }

    fn iid() -> UUID {
        UUID { data1: 0xc140b5fd, data2: 0x0c78, data3: 0x452e, data4: [0xba, 0x7c, 0x1a, 0x1e, 0x70, 0xc7, 0xf7, 0x1c] }
    }
}

impl Interface for Session {
    open spec fn object(&self) -> usize {
        self.0.object()
    }

    fn iid() -> UUID {
        UUID { data1: 0x67618701, data2: 0xd116, data3: 0x468f, data4: [0xab, 0x3b, 0x47, 0x4b, 0xed, 0xce, 0x0e, 0x3d] }
    }
}

impl Interface for Metadata {
    open spec fn object(&self) -> usize {
        self.0.object()
    }

    fn iid() -> UUID {
        UUID { data1: 0x8044a8a3, data2: 0xddc0, data3: 0x4b7f, data4: [0xaf, 0x8e, 0x02, 0x6e, 0x90, 0x5d, 0x73, 0x32] }
    }
}

impl Interface for ComponentType {
    open spec fn object(&self) -> usize {
        self.0.object()
    }

    fn iid() -> UUID {
        UUID { data1: 0x5bc42be8, data2: 0x5c50, data3: 0x4929, data4: [0x9e, 0x5e, 0xd1, 0x5e, 0x7c, 0x24, 0x01, 0x5f] }
    }
}

impl Interface for EntryPoint {
    open spec fn object(&self) -> usize {
        self.0.object()
    }

    fn iid() -> UUID {
        UUID { data1: 0x8f241361, data2: 0xf5bd, data3: 0x4ca0, data4: [0xa3, 0xac, 0x02, 0xf7, 0xfa, 0x24, 0x02, 0xb8] }
    }
}

impl Interface for TypeConformance {
    open spec fn object(&self) -> usize {
        self.0.object()
    }

    fn iid() -> UUID {
        UUID { data1: 0x73eb3147, data2: 0xe544, data3: 0x41b5, data4: [0xb8, 0xf0, 0xa2, 0x44, 0xdf, 0x21, 0x94, 0x0b] }
    }
}

impl Interface for Module {
    open spec fn object(&self) -> usize {
        self.0.object()
    }

    fn iid() -> UUID {
        UUID { data1: 0x0c720e64, data2: 0x8722, data3: 0x4d31, data4: [0x89, 0x90, 0x63, 0x8a, 0x98, 0xb1, 0xc2, 0x79] }
    }
}

impl Downcast<ComponentType> for EntryPoint {
    fn downcast(&self) -> (r: &ComponentType) {
        &self.0
    }
}

impl Downcast<ComponentType> for TypeConformance {
    fn downcast(&self) -> (r: &ComponentType) {
        &self.0
    }
}

impl Downcast<ComponentType> for Module {
    fn downcast(&self) -> (r: &ComponentType) {
        &self.0
    }
}

} // verus!
