//! Structured-control-flow emitter for two Lua dialects.
//!
//! A compiler backend walking nested blocks, loops and conditionals calls one
//! of two interchangeable editions to print the target-language text for
//! entering a construct, leaving it, and branching out of zero or more
//! enclosing constructs at once. `LuaJIT` targets a dialect with labeled
//! `goto`; `Luau` targets a dialect with only lexical `break`/`continue` and
//! simulates multi-level jumps with single-iteration wrappers and one shared
//! sentinel variable in the emitted code.

pub mod edition;
pub mod laws;
pub mod lines;
pub mod text;
