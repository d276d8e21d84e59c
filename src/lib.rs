//! Safety layer over a native neural-network inference engine.
//!
//! The native engine hands out raw output buffers and managed memory blocks
//! whose validity windows and release protocols are easy to get wrong. This
//! crate models each of those resources as plain values with an explicit
//! lifecycle state, so that every acquisition is matched by exactly one
//! release and no view is ever taken over a released or null buffer.
pub mod error;
pub mod tensor;
pub mod output;
pub mod cast;
pub mod memory;
pub mod attr;
pub mod session;
pub mod prelude;
