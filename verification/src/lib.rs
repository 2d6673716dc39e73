//! Decoding and re-encoding of Terse Executable (TE) images, the section
//! geometry shared with Portable Executable images, and the Authenticode
//! certificate table, with every function's behaviour stated and proved.

pub mod error;
pub mod options;
pub mod pe;
pub mod te;
pub mod wire;
