//! What Terse Executable images share with Portable Executable images: data
//! directories, section geometry and address resolution, and the certificate
//! table.

pub mod certs;
pub mod data_directories;
pub mod utils;
