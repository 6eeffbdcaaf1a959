//! The logic of a debug adapter: what it decides and what it answers, between a debugger on the
//! one side and a client of the Debug Adapter Protocol on the other.
//!
//! Requests that take several calls of the debugger are state machines. A step says what to do
//! next; a function takes the step and how it went, and gives the step that follows.

pub mod application;
pub mod breakpoint;
pub mod error;
pub mod evaluate;
pub mod event;
pub mod focus;
pub mod frame;
pub mod handles;
pub mod launch;
pub mod node;
pub mod numbers;
pub mod placement;
pub mod query;
pub mod scope;
pub mod session;
pub mod text;
pub mod thread;
pub mod value;
