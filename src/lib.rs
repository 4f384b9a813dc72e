//! Publishing one message to several social platforms: credential bundle,
//! per-platform protocol decisions and the fan-out that joins their outcomes.
pub mod credentials;
pub mod json;
pub mod orchestrator;
pub mod outcome;
pub mod platforms;
