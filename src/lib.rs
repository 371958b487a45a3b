pub mod environment;
pub mod errors;
pub mod laws;
pub mod paths;
pub mod runtime;
pub mod supervisor;
pub mod text;
