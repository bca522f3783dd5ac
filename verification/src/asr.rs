//! The recognizer settings that the server derives from its configuration.
use vstd::prelude::*;

use crate::config::Config;
use crate::paths::{join, joined_path};

verus! {

/// The path of model file `name` in directory `dir`.
pub fn model_path(dir: &str, name: &str) -> (r: String)
    ensures
        r@ == joined_path(dir@, name@),
{
    join(dir, name)
}

/// What the streaming recognizer is created with.
///
/// `rule1_min_trailing_silence` and `rule3_min_utterance_length` are seconds
/// held as `f32` bit patterns.
pub struct RecognizerSettings {
    pub encoder: String,
    pub decoder: String,
    pub joiner: String,
    pub tokens: String,
    pub decoding_method: String,
    pub max_active_paths: i32,
    pub enable_endpoint: bool,
    pub rule1_min_trailing_silence: u32,
    pub rule3_min_utterance_length: u32,
    /// The number of inference threads; `None` keeps the recognizer's default.
    pub num_threads: Option<i32>,
}

/// The recognizer settings for a configuration: the transducer files of the
/// model directory, the decoding options, and endpoint detection switched on.
pub fn recognizer_settings(config: &Config) -> (r: RecognizerSettings)
    ensures
        r.encoder@ == joined_path(config.model_dir@, "encoder.int8.onnx"@),
        r.decoder@ == joined_path(config.model_dir@, "decoder.onnx"@),
        r.joiner@ == joined_path(config.model_dir@, "joiner.int8.onnx"@),
        r.tokens@ == joined_path(config.model_dir@, "tokens.txt"@),
        r.decoding_method@ == config.decoding_method@,
        r.max_active_paths == config.max_active_paths,
        r.enable_endpoint,
        r.rule1_min_trailing_silence == config.endpoint_silence,
        r.rule3_min_utterance_length == config.endpoint_max_utterance,
        r.num_threads == config.num_threads,
{
    let dir = config.model_dir.as_str();
    RecognizerSettings {
        encoder: model_path(dir, "encoder.int8.onnx"),
        decoder: model_path(dir, "decoder.onnx"),
        joiner: model_path(dir, "joiner.int8.onnx"),
        tokens: model_path(dir, "tokens.txt"),
        decoding_method: config.decoding_method.clone(),
        max_active_paths: config.max_active_paths,
        enable_endpoint: true,
        rule1_min_trailing_silence: config.endpoint_silence,
        rule3_min_utterance_length: config.endpoint_max_utterance,
        num_threads: config.num_threads,
    }
}

} // verus!
