//! Planning and validation logic for installing a bootable container image
//! onto a block device or an already mounted filesystem.

pub mod baseline;
pub mod command;
pub mod deploy;
pub mod error;
pub mod filesystem;
pub mod finish;
pub mod ident;
pub mod image;
pub mod mountspec;
pub mod options;
pub mod partition;
pub mod paths;
pub mod preflight;
pub mod resolve;
pub mod rootdir;
pub mod setup;
pub mod size;
pub mod text;
