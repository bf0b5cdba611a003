//! Client-side core for a remote object store: addressing of remote objects,
//! paginated search, and chunked transfer of file content.

pub mod cli;
pub mod commands;
pub mod download;
pub mod env;
pub mod error;
pub mod location;
pub mod manifest;
pub mod model;
pub mod naming;
pub mod objects;
pub mod roundtrip;
pub mod search;
pub mod text;
pub mod upload;
