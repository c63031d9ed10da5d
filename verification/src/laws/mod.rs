//! What the operations of the library are for, stated by how results relate to inputs.

pub mod backend;
pub mod benchmark;
pub mod cleanup;
pub mod detection;
pub mod formatting;
pub mod languages;
pub mod request;
pub mod service;
pub mod static_files;
pub mod table;
pub mod text;
