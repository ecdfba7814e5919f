//! A code-execution judge core: a bounded task queue, the table of language
//! toolchains, the options builder, the isolation-tool adapter and the
//! bookkeeping of the sandbox pool.
pub mod api;
pub mod errors;
pub mod execution;
pub mod isolate;
pub mod manager;
pub mod meta;
pub mod options;
pub mod queue;
pub mod sandbox;
pub mod text;
pub mod toolchains;
