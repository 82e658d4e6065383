//! A command gateway for the `pyra-cli` program: it turns a logical operation
//! into the exact argument list the program expects, and turns what the
//! finished process left behind into a structured response.

pub mod bytes;
pub mod config;
pub mod deadline;
pub mod encoding;
pub mod escape;
pub mod operation;
pub mod response;
