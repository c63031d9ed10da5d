//! The decision logic of a self-hosted machine translation service.
//!
//! The service takes translation requests, puts them to a large language model on an inference
//! server, and gives the cleaned and formatted output back. What a request is answered, what is put
//! to the model, what its replies mean and when something is tried again is decided here, in
//! functions without input and output. The server round them does what they ask for.

pub mod args;
pub mod backend;
pub mod benchmark;
pub mod cleanup;
pub mod detection;
pub mod error_response;
pub mod formatting;
pub mod languages;
pub mod laws;
pub mod prompt;
pub mod rehearsal;
pub mod request;
pub mod service;
pub mod static_files;
pub mod std_text;
pub mod table;
pub mod text;
