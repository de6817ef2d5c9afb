//! A small interactive shell: line parsing, path expansion, executable
//! selection, builtin dispatch and a pipeline state machine, each with a
//! verified contract. Everything that touches the operating system is
//! performed by the caller, which feeds the results back in as plain values.
pub mod builtin;
pub mod laws;
pub mod path;
pub mod pipeline;
pub mod search;
pub mod text;
