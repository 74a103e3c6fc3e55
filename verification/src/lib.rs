//! Drives an external interactive debugger against a running test process:
//! builds the command script fed to the debugger, locates the debugger
//! executable, decides the session's lifecycle steps, and verifies the
//! captured debugger output against an ordered list of literal or
//! regular-expression expectations.

pub mod debugger;
pub mod matcher;
pub mod script;
pub mod session;
pub mod text;
