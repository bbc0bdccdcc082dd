//! A queue-driven dispatcher that hands messages of a hosted queue to a
//! FastCGI responder and acknowledges those whose script succeeded.

pub mod cgi;
pub mod cli;
pub mod config;
pub mod dictionary;
pub mod item;
pub mod json;
pub mod logging;
pub mod mapping;
pub mod pool;
pub mod queue;
pub mod runner;
pub mod text;
pub mod worker;
