//! The stop pipeline's decisions: whether a finished recording is sent, and
//! the request that carries it.
use vstd::prelude::*;
use crate::config::Config;
use crate::transcription::{build_request, is_file_part, is_text_part, UploadRequest};
use crate::wav::{long_enough, worth_transcribing};

verus! {

/// Plans the upload of a finished recording: nothing when the container is
/// under the debounce threshold (the short recording is skipped silently),
/// otherwise the transcription request built from the configuration.
pub fn plan_upload(config: &Config, blob: Vec<u8>) -> (r: Option<UploadRequest>)
    ensures
        r is None <==> !long_enough(blob@.len() as int),
        r matches Some(req) ==> {
            &&& req.url@ == config.api_url@ + "/v1/transcribe"@
            &&& req.authorization@ == "Bearer "@ + config.api_token@
            &&& req.parts@.len() == 2
            &&& is_file_part(req.parts@[0], "file"@, "audio.wav"@, "audio/wav"@, blob@)
            &&& is_text_part(req.parts@[1], "language"@, config.language@)
        },
{
    if !worth_transcribing(blob.as_slice()) {
        return None;
    }
    Some(build_request(config.api_url.as_str(), config.api_token.as_str(), blob, config.language.as_str()))
}

} // verus!
