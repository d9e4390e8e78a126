//! Transcription providers: what a provider reports, and how a provider is
//! chosen.

use vstd::prelude::*;
use vstd::string::*;
use crate::text::str_eq;

pub mod deepgram;

verus! {

/// The transcript text that stands for the end of the stream. A result that
/// carries it is consumed by the event loop and never displayed.
pub const STREAM_ENDED: &'static str = "Transcription stream ended";

/// One piece of transcript from a provider.
#[derive(Debug, Clone)]
pub struct TranscriptionResult {
    pub transcript: String,
    pub speaker_id: Option<i32>,
}

/// A transcription result as plain values.
pub struct ResultView {
    pub transcript: Seq<char>,
    pub speaker_id: Option<i32>,
}

impl View for TranscriptionResult {
    type V = ResultView;

    open spec fn view(&self) -> ResultView {
        ResultView { transcript: self.transcript@, speaker_id: self.speaker_id }
    }
}

/// The results as plain values.
pub open spec fn result_views(results: Seq<TranscriptionResult>) -> Seq<ResultView> {
    Seq::new(results.len(), |i: int| results[i]@)
}

impl ResultView {
    /// Whether this result stands for the end of the stream.
    pub open spec fn is_stream_end(self) -> bool {
        self.transcript == STREAM_ENDED@
    }
}

impl TranscriptionResult {
    /// Whether this result stands for the end of the stream.
    pub fn is_stream_end(&self) -> (ended: bool)
        ensures
            ended == self@.is_stream_end(),
    {
        str_eq(self.transcript.as_str(), STREAM_ENDED)
    }
}

/// Configuration for creating a transcriber.
pub enum TranscriberConfig {
    /// The Deepgram streaming provider.
    Deepgram { api_key: String, language: String, model: String },
}

/// Creates the transcriber that `config` asks for.
pub fn create_transcriber(config: TranscriberConfig) -> (transcriber: deepgram::DeepgramTranscriber)
    ensures
        config matches TranscriberConfig::Deepgram { api_key, language, model }
            && transcriber@ == deepgram::DeepgramTranscriber::configured(
            api_key@,
            language@,
            model@,
        ),
{
    match config {
        TranscriberConfig::Deepgram { api_key, language, model } => {
            deepgram::DeepgramTranscriber::new(api_key.as_str(), language.as_str(), model.as_str())
        },
    }
}

} // verus!
