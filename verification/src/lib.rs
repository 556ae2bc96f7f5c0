//! Build-time generation of the marshalling glue between natively compiled
//! host functions and functions running inside a sandboxed WebAssembly guest.
//!
//! The library classifies native parameter and return types into a small set
//! of ABI categories, encodes a function signature into the compact textual
//! form the guest virtual machine resolves calls against, and synthesizes the
//! text of a native entry point that validates and converts each
//! guest-encoded value before invoking the real function.  It also models the
//! runtime-side primitives that the generated code relies on: guest
//! linear-memory validation and address translation, and the packing and
//! unpacking of wire-width values around an exported-function call.

use vstd::prelude::*;

pub mod binding_function;
pub mod cast;
pub mod encoder;
pub mod helper;
pub mod host_binding;
pub mod host_function;
pub mod memory;
pub mod strutil;
pub mod types;
pub mod value;
pub mod wasi_context;

verus! {

/// Details of a failed guest call: the runtime's message and the guest's
/// exit code.
#[derive(Debug)]
pub struct ExecError {
    pub message: String,
    pub exit_code: u32,
}

/// All kinds of faults surfaced by the embedded WebAssembly runtime.
#[derive(Debug)]
pub enum RuntimeError {
    NotImplemented,
    /// Runtime initialization error.
    InitializationFailure,
    /// File operation error, usually while loading a compiled module.
    WasmFileFSError(std::io::Error),
    /// A compilation error: the module bytes are invalid.
    CompilationError(String),
    /// Instantiation failure.
    InstantiationFailure(String),
    /// Error while executing a guest function.
    ExecutionError(ExecError),
    /// An export lookup found no function of the requested name.
    FunctionNotFound,
}

/// The error type of `std::io`, opaque to this library; it rides along in
/// `RuntimeError::WasmFileFSError`.
#[verifier::external_type_specification]
#[verifier::external_body]
pub struct ExIoError(std::io::Error);

impl From<std::io::Error> for RuntimeError {
    fn from(e: std::io::Error) -> (r: Self)
        ensures
            r == RuntimeError::WasmFileFSError(e),
    {
        RuntimeError::WasmFileFSError(e)
    }
}

impl vstd::std_specs::convert::FromSpecImpl<std::io::Error> for RuntimeError {
    open spec fn obeys_from_spec() -> bool {
        true
    }

    open spec fn from_spec(e: std::io::Error) -> Self {
        RuntimeError::WasmFileFSError(e)
    }
}

/// Panic hook of the minimal no-std guest module.  A sandboxed guest has no
/// process to abort, so the guest build of this hook spins in place; a
/// verified library proves its loops terminate, so the hook stands here as
/// an empty entry point.
pub fn panic_handler() {
}

} // verus!
