//! A test-harness layer over an EVM engine: cheatcodes that mutate execution
//! context and storage out of band, a state backend that layers local
//! overrides over lazily-fetched remote chain state at a pinned block, a
//! vicinity resolver, a structured log collector, and a uniform executor
//! interface that the cheatcode interceptor wraps.

pub mod abi;
pub mod account;
pub mod assoc;
pub mod backend;
pub mod cheatcode_handler;
pub mod context;
pub mod executor;
pub mod keccak;
pub mod logs;
pub mod provider;
pub mod sig;
pub mod types;
pub mod vicinity;
