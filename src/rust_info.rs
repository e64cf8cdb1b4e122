//! Facts about the generated wrapper crate that its emitter consumes.
use vstd::prelude::*;

verus! {

/// How a wrapper method takes its receiver.
#[derive(Clone, Copy, Debug, PartialEq, Eq, Hash, Structural)]
pub enum RustMethodSelfArgKind {
    Static,
    ConstRef,
    MutRef,
    Value,
}

/// What a trait implementation of a wrapper type needs besides its methods.
#[derive(Debug)]
pub enum TraitImplExtra {
    /// The type is deleted through this boundary function.
    CppDeletable { deleter_name: String },
}

/// The package section of the wrapper crate's manifest.
#[derive(Debug)]
pub struct InputCargoTomlData {
    /// Name of the crate.
    pub name: String,
    /// Version of the crate.
    pub version: String,
    /// Authors of the crate.
    pub authors: Vec<String>,
    /// Name of the native library.
    pub links: Option<String>,
}

} // verus!
