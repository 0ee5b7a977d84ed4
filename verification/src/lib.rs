//! Verified core of a proxy-library injection tool.
//!
//! The tool loads into a host process under the filename of a genuine input
//! library, forwards every call of the impersonated entry point to the real
//! library, patches a few bytes of the host's code image behind byte-level
//! precondition checks, and gates its own activation behind a timed key-hold
//! gesture.
//!
//! This crate holds the verified logic of that lifecycle: the code patcher
//! over a model of the host image, the activation-gate state machine, the
//! once-only resolution of the real library, and the process-attach
//! orchestration. The surrounding platform glue (library loading, page
//! protection, key polling, the render hook) performs the effects that these
//! functions decide on.

pub mod gate;
pub mod memory;
pub mod patches;
pub mod proxy;
pub mod startup;

use vstd::prelude::*;

verus! {

/// The unrecoverable startup errors: the injected presence aborts its own
/// startup on either, rather than leaving the host half-initialized.
#[derive(Clone, Copy, PartialEq, Eq, Structural, Debug)]
pub enum StartupError {
    /// The genuine library could not be located or loaded, or its expected
    /// export was not found: the proxy cannot forward.
    RealLibraryUnresolved,
    /// The render hook could not be installed: the tool ejects itself.
    HookInstallFailed,
}

} // verus!
