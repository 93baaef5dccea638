//! Host-side logic of a WebAssembly smart-contract runtime: sandbox memory access,
//! weight metering, call flags, return codes, chain extensions and dispatchable calls.
pub mod weight;
pub mod call_flags;
pub mod errors;
pub mod costs;
pub mod exec_result;
pub mod codec;
pub mod memory;
pub mod gas;
pub mod runtime;
pub mod hashing;
pub mod host;
pub mod host_call;
pub mod host_misc;
pub mod env;
pub mod chain_extension;
pub mod pallet;
pub mod metadata;
pub mod laws;
