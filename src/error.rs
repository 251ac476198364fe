use vstd::prelude::*;

verus! {

/// Why a run ended without playing the synthesized audio.
#[derive(Clone, Copy, Debug, PartialEq, Eq, Structural)]
pub enum SayError {
    /// The text to speak is empty.
    EmptyText,
    /// The variable naming the credentials file is not set.
    MissingCredentials,
    /// The request could not be sent or no response came back.
    Transport,
    /// The credential tool's token cannot stand in an HTTP header.
    InvalidToken,
    /// The response body was not the expected JSON document.
    MalformedResponse,
    /// The audio content was not valid padded standard base64.
    Decode,
    /// The decoded audio could not be written to a temporary file.
    AudioFile,
    /// An event arrived that the session was not waiting for.
    UnexpectedEvent,
}

/// Exit status of a run that ends abnormally, as an unwinding panic does.
pub const ABNORMAL_EXIT: i32 = 101;

impl SayError {
    pub open spec fn spec_exit_code(self) -> i32 {
        match self {
            SayError::EmptyText => 1,
            SayError::MissingCredentials => 2,
            SayError::Transport => 3,
            _ => ABNORMAL_EXIT,
        }
    }

    /// The process exit status that reports this error.
    pub fn exit_code(&self) -> (r: i32)
        ensures
            r == self.spec_exit_code(),
    {
        match self {
            SayError::EmptyText => 1,
            SayError::MissingCredentials => 2,
            SayError::Transport => 3,
            _ => ABNORMAL_EXIT,
        }
    }
}

} // verus!
