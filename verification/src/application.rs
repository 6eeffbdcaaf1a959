//! The adapter as an application: what it is made of, and what it offers.

use vstd::prelude::*;

verus! {

/// An adapter that is about to serve a client: the builder of the debugger, the process to
/// debug, and the outputs of that process.
#[derive(Debug, PartialEq, Eq)]
pub struct DapApplication<Builder, Process, Output> {
    pub debugger_builder: Builder,
    pub process: Process,
    pub stdout: Output,
    pub stderr: Output,
}

impl<Builder, Process, Output> DapApplication<Builder, Process, Output> {
    pub fn new(
        debugger_builder: Builder,
        process: Process,
        stdout: Output,
        stderr: Output,
    ) -> (r: Self)
        ensures
            r.debugger_builder == debugger_builder,
            r.process == process,
            r.stdout == stdout,
            r.stderr == stderr,
    {
        DapApplication { debugger_builder, process, stdout, stderr }
    }
}

/// The requests that the adapter answers beyond the ones that every adapter does.
#[derive(Clone, Copy, Debug, PartialEq, Eq)]
pub struct Capabilities {
    pub supports_configuration_done_request: bool,
    pub supports_cancel_request: bool,
    pub supports_restart_request: bool,
    pub supports_terminate_request: bool,
}

/// Tells a client what the adapter offers.
pub fn initialize() -> (r: Capabilities)
    ensures
        r.supports_configuration_done_request,
        r.supports_cancel_request,
        !r.supports_restart_request,
        r.supports_terminate_request,
{
    Capabilities {
        supports_configuration_done_request: true,
        supports_cancel_request: true,
        supports_restart_request: false,
        supports_terminate_request: true,
    }
}

} // verus!
