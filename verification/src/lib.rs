//! The command bridge of an image upscaler: it turns a request into the
//! command line of the helper script and turns what the finished process left
//! behind into the answer for the caller.

pub mod decimal;
pub mod outcome;
pub mod request;
pub mod script;
pub mod whitespace;

pub use decimal::decimal_string;
pub use outcome::{not_started_message, relay, report, ProcessOutcome};
pub use request::{CommandLine, UpscaleRequest};
pub use script::script_path;
pub use whitespace::{char_is_whitespace, trim};
