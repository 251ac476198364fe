use vstd::prelude::*;
use base64::Engine;
use crate::error::SayError;

verus! {

/// The part of a synthesis response that the run reads: the audio, in
/// padded standard base64.
#[derive(Default, Debug, Clone, PartialEq)]
pub struct SynthesisResponse {
    pub audio_content: String,
}

/// What the padded standard base64 engine of `base64` decodes `s` to:
/// `None` where it reports an error.
pub uninterp spec fn base64_decoded(s: Seq<char>) -> Option<Seq<u8>>;

/// The error of `base64`'s decoding.
#[verifier::external_type_specification]
#[verifier::external_body]
pub struct ExDecodeError(base64::DecodeError);

/// Relies on `base64::engine::GeneralPurpose::decode` with the standard
/// alphabet and padding: the bytes that the text encodes, or an error.
#[verifier::external_body]
fn decode_base64(s: &str) -> (r: Result<Vec<u8>, base64::DecodeError>)
    ensures
        r is Ok <==> base64_decoded(s@) is Some,
        r is Ok ==> r->Ok_0@ == base64_decoded(s@)->Some_0,
{
    base64::engine::GeneralPurpose::new(
        &base64::alphabet::STANDARD,
        base64::engine::general_purpose::PAD,
    ).decode(s)
}

impl SynthesisResponse {
    /// The audio bytes that the response carries.
    pub fn audio_bytes(&self) -> (r: Result<Vec<u8>, SayError>)
        ensures
            r is Ok <==> base64_decoded(self.audio_content@) is Some,
            r is Ok ==> r->Ok_0@ == base64_decoded(self.audio_content@)->Some_0,
            r is Err ==> r == Err::<Vec<u8>, SayError>(SayError::Decode),
    {
        match decode_base64(self.audio_content.as_str()) {
            Ok(bytes) => Ok(bytes),
            Err(_) => Err(SayError::Decode),
        }
    }
}

} // verus!
