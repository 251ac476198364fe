//! Speak a line of text through a cloud speech-synthesis service.
//!
//! The library holds the decisions of one run: validating the input,
//! turning the credential tool's output into an `Authorization` value,
//! framing the JSON request, decoding the returned audio, and the order in
//! which these happen. The caller performs the actions it is handed (run a
//! process, send a request, play a file) and reports back what happened.
pub mod error;
pub mod auth;
pub mod request;
pub mod audio;
pub mod session;

pub use error::SayError;
pub use auth::{token_from_output, authorization_value, is_valid_header_value};
pub use request::{Request, Input, Voice, AudioConfig, frame_request_json};
pub use audio::SynthesisResponse;
pub use session::{Session, Phase, Action, Event, playback_of};
