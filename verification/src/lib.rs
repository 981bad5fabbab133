//! Control plane of a serverless platform that serves a function from
//! containers while it records a trace, and from the compiled trace afterwards.
pub mod autoscaler;
pub mod codegen;
pub mod common;
pub mod compiler;
pub mod deployment;
pub mod dispatcher;
pub mod error;
pub mod function_manager;
pub mod function_table;
pub mod header;
pub mod models;
pub mod name_map;
pub mod names;
pub mod shim;
pub mod storage;
pub mod storage_error;
pub mod trace_compiler;
pub mod untyped_traces;
pub mod upload;
pub mod windowed_max;
