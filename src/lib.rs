//! A declarative validator engine for coding challenges.
//!
//! A validator is written as a short spec string such as
//! `http_get:string(/echo/hi),int(200),string(hi)`. The parser turns it into a
//! name and typed parameters, the factory into a ready-to-run validator, and
//! each validator states the requests or commands it needs and how their
//! results are judged into a [`results::TestCase`]. Performing the network,
//! process and container work is left to the caller.
pub mod api;
pub mod basic;
pub mod compile;
pub mod docker;
pub mod doctor;
pub mod factory;
pub mod go_docker;
pub mod http;
pub mod json;
pub mod laws;
pub mod number;
pub mod parser;
pub mod process;
pub mod protocol;
pub mod registry;
pub mod results;
pub mod runtime;
pub mod scenario;
pub mod shell;
pub mod text;

pub use factory::{create_validator, RuntimeValidator};
pub use parser::{parse_validator, ParamValue, ParsedValidator};
pub use results::{TestCase, TestResults};
