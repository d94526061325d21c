//! A poor man's mock helper.
//!
//! A hand-written mock forwards every intercepted call to a [`FunnyBot`], which
//! records the call's argument and answers with the next pre-programmed result.

pub mod bot;
pub mod laws;
pub mod source;

pub use bot::FunnyBot;
pub use source::GeneratorSource;
pub use source::ListSource;
pub use source::RepeatSource;
pub use source::ResultSource;
