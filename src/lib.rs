//! Safe marshaling of data across the boundary between a host and a sandboxed
//! WebAssembly guest: region descriptors living in guest linear memory, the
//! transfer of bytes in and out of such regions, and the environment that a
//! guest module is allowed to import from.

pub mod engine;
pub mod env;
pub mod error;
pub mod memory;
pub mod payload;
pub mod region;
