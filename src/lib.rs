//! Validated command-sequence builder for buffer transfer commands.
//!
//! [`builder::UnsafeCommandBufferBuilder`] records copies, fills and updates of buffers. Each
//! command is checked against the state of the builder and the shape of its arguments before
//! it is appended, and every buffer it uses is kept alive by the builder. The checks on copy
//! regions live in [`region`], and the laws they obey in [`region_laws`].

pub mod builder;
pub mod command;
pub mod error;
pub mod region;
pub mod region_laws;
pub mod region_list;
pub mod resource;
