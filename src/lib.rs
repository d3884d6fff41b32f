//! Safe surface over a native multimedia library's C interface.
//!
//! The library holds the rules of the binding layer: how managed text and
//! buffers become native ones and back, which native resources are live in a
//! device context, and which operations the device's lifecycle allows. The
//! foreign calls themselves are made by the caller with the values these
//! functions hand out.
pub mod buffer;
pub mod codes;
pub mod device;
pub mod flags;
pub mod handles;
pub mod input;
pub mod marshal;
