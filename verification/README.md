# bugstalker_dap

The debug adapter of BugStalker: it lets a client of the Debug Adapter Protocol drive the debugger.

- `src/` is the verified library: what the adapter decides and what it answers. Frame ids and pages
  of a stack, scopes, evaluation, the tree of variables and its handles, breakpoints, threads, the
  start of the debuggee, and the events that a client hears of.
- `app/` runs it: it calls the debugger, talks to the client, and converts between the library's
  types and those of the protocol crate.
- `tests/` holds the tests of the library.

A request that takes several calls of the debugger is a state machine. A step says what to do next;
a function takes the step and how it went, and gives the step that follows. The contracts are stated
over views, and the laws that relate several functions are public proof functions named `law_*`.
