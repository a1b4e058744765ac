//! WebGPU pipeline descriptions, resolved for a native graphics library.
//!
//! A scripting runtime receives pipeline descriptions shaped as the WebGPU
//! standard shapes them: enumerations are names, and most fields may be left
//! out. This library reads the names, fills in what was left out, and decides
//! what each pipeline operation asks of the native library. It neither looks
//! anything up in the runtime's resource table nor calls the device: an
//! operation is given the handles that were found, and gives back the request
//! to make.
//!
//! Handles are values of the caller's own types. An identifier under which
//! the table held nothing ends an operation with an error, whichever
//! identifier it is. Names outside a vocabulary are a caller's error: the
//! functions that resolve a description require it to be valid, and each
//! description has a test for that.
//!
//! The few values that come from the native library's own definitions are
//! read in `native`, the one module whose contracts are taken on trust.

pub mod blend;
pub mod depth_stencil;
pub mod error;
pub mod multisample;
pub mod native;
pub mod pipeline;
pub mod primitive;
pub mod resource;
pub mod stage;
pub mod text;
pub mod texture;
pub mod vertex;
