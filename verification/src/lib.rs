//! A Model Context Protocol server that offers problem-solving frameworks
//! (OODA loop, first principles, six thinking hats, Pareto analysis, root
//! cause analysis, Occam's razor, the 5x5 rule) as tools over JSON-RPC.
//!
//! The library holds the request handling: a JSON value model, the
//! dispatch of JSON-RPC methods, the tool catalogue, the keyword-based
//! recommendation of tools and the prompt texts.
pub mod json;
pub mod text;
pub mod tools;
pub mod prompts;
pub mod rpc;
pub mod laws;

pub use json::{JsonModel, JsonValue};
