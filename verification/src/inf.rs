//! The `inf` world's exports: the crate version, and an inference that runs
//! the host's `llama-chat` graph on a fixed prompt.

use vstd::prelude::*;
use vstd::utf8::{decode_utf8, encode_utf8};

use crate::nn::{
    TensorType,
    spec_u8_tensor, text_tensor, GraphSource, GraphSourceView, InferenceRequest,
    InferenceRequestView, ModelInput, Step, spec_steps, steps_view,
};
use crate::options::{json_object_text, spec_options_json, EngineOptions, JsonScalar};

verus! {

/// The graph that the host is asked for by name.
pub open spec fn spec_inf_model_name() -> Seq<char> {
    "llama-chat"@
}

/// The prompt of the `inf` world's inference.
pub open spec fn spec_inf_prompt() -> Seq<char> {
    "What is LoRA?"@
}

/// What the `inf` world's inference answers.
pub open spec fn spec_inf_answer() -> Seq<char> {
    "inference result"@
}

/// The backend options of the `inf` world's inference.
pub open spec fn spec_inf_options() -> EngineOptions {
    EngineOptions {
        stream_stdout: true,
        enable_log: true,
        ctx_size: 1024,
        n_predict: 512,
        n_gpu_layers: 25,
    }
}

/// The `wasi-nn` calls of the `inf` world's inference: the graph named
/// `llama-chat`; the options JSON at input 1 and the prompt at input 2; the
/// output read at index 3.
pub open spec fn spec_inf_request() -> InferenceRequestView {
    InferenceRequestView {
        graph: GraphSourceView::Named(spec_inf_model_name()),
        inputs: seq![
            (1u32, spec_u8_tensor(encode_utf8(spec_options_json(spec_inf_options())))),
            (2u32, spec_u8_tensor(encode_utf8(spec_inf_prompt()))),
        ],
        output_index: 3,
    }
}

/// The `inf` world's `version`: the crate's version.
pub fn version() -> (v: String)
    ensures
        v@ == crate::spec_version(),
{
    crate::version_string()
}

/// The backend options of the `inf` world's inference: as the llama.cpp
/// engine's, but with up to 512 predicted tokens.
pub fn inf_options() -> (o: EngineOptions)
    ensures
        o == spec_inf_options(),
{
    EngineOptions {
        stream_stdout: true,
        enable_log: true,
        ctx_size: 1024,
        n_predict: 512,
        n_gpu_layers: 25,
    }
}

/// The `wasi-nn` calls of the `inf` world's inference.
pub fn inference_request() -> (r: InferenceRequest)
    ensures
        r@ == spec_inf_request(),
{
    let options = inf_options().to_json();
    let mut inputs: Vec<ModelInput> = Vec::new();
    inputs.push(ModelInput { index: 1, tensor: text_tensor(options.as_str()) });
    inputs.push(ModelInput { index: 2, tensor: text_tensor("What is LoRA?") });
    let r = InferenceRequest {
        graph: GraphSource::Named(String::from_str("llama-chat")),
        inputs,
        output_index: 3,
    };
    assert(r@.inputs =~= spec_inf_request().inputs);
    r
}

/// The line the `inf` world's inference prints once its execution context
/// is made: the options JSON.
pub fn options_line() -> (line: String)
    ensures
        line@ == "Options: "@ + spec_options_json(spec_inf_options()),
{
    String::from_str("Options: ").concat(inf_options().to_json().as_str())
}

/// The steps of the `inf` world's inference: the `wasi-nn` calls, with the
/// options printed once the execution context is made.
pub fn inference_steps() -> (st: Vec<Step>)
    ensures
        steps_view(st@) == spec_steps(
            spec_inf_request(),
            seq!["Options: "@ + spec_options_json(spec_inf_options())],
        ),
{
    let mut lines: Vec<String> = Vec::new();
    lines.push(options_line());
    assert(lines.deep_view() =~= seq!["Options: "@ + spec_options_json(spec_inf_options())]);
    inference_request().steps(lines)
}

/// The `inf` world's answer: the output that was read is not used, the
/// answer is always `inference result`.
pub fn inference_result(output: &Vec<u8>) -> (r: String)
    ensures
        r@ == spec_inf_answer(),
{
    String::from_str("inference result")
}

/// What the `inf` world's inference hands to `wasi-nn`: the graph the host
/// knows as `llama-chat`; two byte tensors of one dimension, the options JSON
/// at input 1 and the prompt `What is LoRA?` at input 2, each reading back as
/// that text; the output read at index 3. The options are streaming with
/// logging, a context of 1024, 512 predicted tokens and 25 GPU layers.
pub proof fn lemma_inf_request_contents()
    ensures
        ({
            let r = spec_inf_request();
            &&& r.graph == GraphSourceView::Named("llama-chat"@)
            &&& r.inputs.len() == 2
            &&& r.inputs[0].0 == 1
            &&& decode_utf8(r.inputs[0].1.data) == json_object_text(
                seq![
                    ("stream-stdout"@, JsonScalar::Bool(true)),
                    ("enable-log"@, JsonScalar::Bool(true)),
                    ("ctx-size"@, JsonScalar::Unsigned(1024)),
                    ("n-predict"@, JsonScalar::Unsigned(512)),
                    ("n-gpu-layers"@, JsonScalar::Unsigned(25)),
                ],
            )
            &&& r.inputs[1].0 == 2
            &&& decode_utf8(r.inputs[1].1.data) == "What is LoRA?"@
            &&& forall|i: int|
                0 <= i < r.inputs.len() ==> (#[trigger] r.inputs[i]).1.tensor_type == TensorType::U8
                    && r.inputs[i].1.dimensions == seq![1u32]
            &&& r.output_index == 3
        }),
{
    vstd::utf8::encode_utf8_decode_utf8(spec_inf_prompt());
    vstd::utf8::encode_utf8_decode_utf8(spec_options_json(spec_inf_options()));
}

} // verus!
