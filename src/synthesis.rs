//! A conversion of text to speech: the request posted to the server, the
//! record handed back to the front end, and what to do after each reply.
//!
//! The caller performs the exchanges. It posts the request to
//! `synthesize_url()`, passes what came back to `after_reply`, and where that
//! asks for a download, fetches the address, writes the bytes to the output
//! path and passes the outcome to `after_download`.
use vstd::prelude::*;
use crate::api::{
    api_base,
    is_status_code,
    server_url,
    status_line,
    status_text,
};

verus! {

/// The body of a synthesis request.
#[derive(Clone, Debug)]
pub struct TtsRequest {
    pub text: String,
    pub voice: String,
    pub format: String,
    pub language: String,
}

/// What a conversion came to.
#[derive(Clone, Debug)]
pub struct ConversionResult {
    pub success: bool,
    pub output_path: Option<String>,
    pub error: Option<String>,
    pub file_size: Option<String>,
    pub processing_time: Option<String>,
    pub download_url: Option<String>,
}

/// What came of posting a synthesis request.
#[derive(Clone, Debug)]
pub enum SynthesisReply {
    /// The server could not be reached; the detail says why.
    Unreachable(String),
    /// The server answered with a status outside `2xx`, and with this body
    /// where it could be read.
    Rejected { status: u16, body: Option<String> },
    /// The server answered with a success status, but the body could not be
    /// read as a result; the detail says why.
    Malformed(String),
    /// The server answered with a success status and this result.
    Accepted(ConversionResult),
}

/// What came of fetching and saving the audio of an accepted conversion.
#[derive(Clone, Debug)]
pub enum DownloadOutcome {
    /// The download address could not be reached; the detail says why.
    Unreachable(String),
    /// The download was answered with a status outside `2xx`.
    Rejected(u16),
    /// The body of the download could not be read; the detail says why.
    Unreadable(String),
    /// The audio could not be written to the output path; the detail says why.
    NotSaved(String),
    /// The audio was written to the output path.
    Saved,
}

/// What the caller does next in a conversion.
#[derive(Debug)]
pub enum ConversionStep {
    /// Fetch `url` and write its body to the output path; `result` is what
    /// the server accepted.
    Download { url: String, result: ConversionResult },
    /// The conversion is over, with this outcome.
    Finished(Result<ConversionResult, String>),
}

/// `r` reports a failed conversion with message `msg` and nothing else.
pub open spec fn is_failure(r: ConversionResult, msg: Seq<char>) -> bool {
    &&& !r.success
    &&& r.output_path is None
    &&& r.error is Some
    &&& r.error->0@ == msg
    &&& r.file_size is None
    &&& r.processing_time is None
    &&& r.download_url is None
}

/// `r` is `base` marked as failed with message `msg`, its other fields kept.
pub open spec fn failed_from(r: ConversionResult, base: ConversionResult, msg: Seq<char>) -> bool {
    &&& !r.success
    &&& r.error is Some
    &&& r.error->0@ == msg
    &&& r.output_path == base.output_path
    &&& r.file_size == base.file_size
    &&& r.processing_time == base.processing_time
    &&& r.download_url == base.download_url
}

pub open spec fn unreachable_message(detail: Seq<char>) -> Seq<char> {
    "Failed to connect to API server: "@ + detail
        + ". Make sure the server is running with 'uv run kiwi server'"@
}

pub open spec fn wants_download(r: ConversionResult) -> bool {
    r.success && r.download_url is Some
}

/// The request for `text` in `voice` and audio `format`, always in US English.
pub fn tts_request(text: String, voice: String, format: String) -> (r: TtsRequest)
    ensures
        r.text == text,
        r.voice == voice,
        r.format == format,
        r.language@ == "en-US"@,
{
    TtsRequest { text, voice, format, language: String::from_str("en-US") }
}

/// A result that reports failure with message `error` and nothing else.
pub fn failed_conversion(error: String) -> (r: ConversionResult)
    ensures
        is_failure(r, error@),
{
    ConversionResult {
        success: false,
        output_path: None,
        error: Some(error),
        file_size: None,
        processing_time: None,
        download_url: None,
    }
}

/// What follows the server's reply to a synthesis request. An accepted,
/// successful result that names a download address leads to the download;
/// every other reply ends the conversion.
pub fn after_reply(reply: SynthesisReply) -> (step: ConversionStep)
    requires
        reply matches SynthesisReply::Rejected { status, body } ==> (body is Some || is_status_code(
            status,
        )),
    ensures
        match reply {
            SynthesisReply::Unreachable(detail) => step matches ConversionStep::Finished(Ok(r))
                && is_failure(r, unreachable_message(detail@)),
            SynthesisReply::Rejected { status, body: Some(text) } => step matches ConversionStep::Finished(
                Ok(r),
            ) && is_failure(r, "API error: "@ + text@),
            SynthesisReply::Rejected { status, body: None } => step matches ConversionStep::Finished(
                Ok(r),
            ) && is_failure(r, "API returned status: "@ + status_line(status)),
            SynthesisReply::Malformed(detail) => step matches ConversionStep::Finished(Err(e))
                && e@ == "Failed to parse TTS response: "@ + detail@,
            SynthesisReply::Accepted(res) => if wants_download(res) {
                step matches ConversionStep::Download { url, result } && result == res && url@
                    == api_base() + res.download_url->0@
            } else {
                step == ConversionStep::Finished(Ok(res))
            },
        },
{
    match reply {
        SynthesisReply::Unreachable(detail) => {
            let msg = String::from_str("Failed to connect to API server: ").concat(
                detail.as_str(),
            ).concat(". Make sure the server is running with 'uv run kiwi server'");
            ConversionStep::Finished(Ok(failed_conversion(msg)))
        },
        SynthesisReply::Rejected { status, body } => {
            let msg = match body {
                Some(text) => String::from_str("API error: ").concat(text.as_str()),
                None => String::from_str("API returned status: ").concat(
                    status_text(status).as_str(),
                ),
            };
            ConversionStep::Finished(Ok(failed_conversion(msg)))
        },
        SynthesisReply::Malformed(detail) => ConversionStep::Finished(
            Err(String::from_str("Failed to parse TTS response: ").concat(detail.as_str())),
        ),
        SynthesisReply::Accepted(res) => {
            if res.success {
                match &res.download_url {
                    Some(path) => {
                        let url = server_url(path.as_str());
                        return ConversionStep::Download { url, result: res };
                    },
                    None => {},
                }
            }
            ConversionStep::Finished(Ok(res))
        },
    }
}

/// The result of a conversion once its download has been attempted: on
/// success the accepted result with the output path filled in, otherwise the
/// accepted result marked as failed with a message that says which stage
/// failed.
pub fn after_download(result: ConversionResult, outcome: DownloadOutcome, output_path: String) -> (r:
    ConversionResult)
    requires
        outcome matches DownloadOutcome::Rejected(status) ==> is_status_code(status),
    ensures
        match outcome {
            DownloadOutcome::Saved => r == (ConversionResult {
                output_path: Some(output_path),
                ..result
            }),
            DownloadOutcome::Unreachable(detail) => failed_from(
                r,
                result,
                "Failed to download audio file: "@ + detail@,
            ),
            DownloadOutcome::Rejected(status) => failed_from(
                r,
                result,
                "Download failed with status: "@ + status_line(status),
            ),
            DownloadOutcome::Unreadable(detail) => failed_from(
                r,
                result,
                "Failed to read audio data: "@ + detail@,
            ),
            DownloadOutcome::NotSaved(detail) => failed_from(
                r,
                result,
                "Failed to save audio file: "@ + detail@,
            ),
        },
{
    let msg = match outcome {
        DownloadOutcome::Saved => {
            return ConversionResult { output_path: Some(output_path), ..result };
        },
        DownloadOutcome::Unreachable(detail) => String::from_str(
            "Failed to download audio file: ",
        ).concat(detail.as_str()),
        DownloadOutcome::Rejected(status) => String::from_str(
            "Download failed with status: ",
        ).concat(status_text(status).as_str()),
        DownloadOutcome::Unreadable(detail) => String::from_str(
            "Failed to read audio data: ",
        ).concat(detail.as_str()),
        DownloadOutcome::NotSaved(detail) => String::from_str("Failed to save audio file: ").concat(
            detail.as_str(),
        ),
    };
    ConversionResult { success: false, error: Some(msg), ..result }
}

} // verus!
