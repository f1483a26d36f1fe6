//! Safe, verified core of a binding to a callback-driven streaming speech
//! recognition engine: result codes, tokens, callback marshaling, the
//! ownership of callback contexts and the teardown order of sessions.

pub mod config;
pub mod decimal;
pub mod error;
pub mod marshal;
pub mod model;
pub mod result_type;
pub mod session;
pub mod text;
pub mod token;

pub use config::{AprilConfig, AprilConfigFlags, AprilConfigParts, AprilSpeakerId};
pub use error::{Error, Result};
pub use marshal::RawToken;
pub use model::InitGate;
pub use result_type::AprilResultType;
pub use session::AprilSession;
pub use token::{AprilToken, AprilTokenFlags, AprilTokens};
