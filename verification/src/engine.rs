//! The llama.cpp engine: loads the model named by its configuration as a
//! GGML graph on the CPU and runs the configured prompt.

use vstd::prelude::*;
use vstd::utf8::{decode_utf8, encode_utf8, valid_utf8};

use crate::config::Config;
use crate::nn::{
    TensorType,
    output_text, spec_u8_tensor, text_tensor, ExecutionTarget, GraphEncoding, GraphSource,
    GraphSourceView, InferenceRequest, InferenceRequestView, ModelInput, Step, spec_steps,
    steps_view,
};
use crate::options::{json_object_text, spec_options_json, EngineOptions, JsonScalar};

verus! {

/// The backend options of the llama.cpp engine.
pub open spec fn spec_llama_options() -> EngineOptions {
    EngineOptions {
        stream_stdout: true,
        enable_log: true,
        ctx_size: 1024,
        n_predict: 80,
        n_gpu_layers: 25,
    }
}

/// The backend options of the llama.cpp engine: stream to stdout with
/// logging, a context of 1024 tokens, at most 80 predicted tokens and 25
/// layers on the GPU.
pub fn llama_options() -> (o: EngineOptions)
    ensures
        o == spec_llama_options(),
{
    EngineOptions {
        stream_stdout: true,
        enable_log: true,
        ctx_size: 1024,
        n_predict: 80,
        n_gpu_layers: 25,
    }
}

/// The inference of the llama.cpp engine with this model path and prompt:
/// the model path as the only graph builder, GGML on the CPU; the options
/// JSON at input 1 and the prompt at input 2; the output read at index 3.
pub open spec fn spec_llama_request(model_path: Seq<char>, prompt: Seq<char>) -> InferenceRequestView {
    InferenceRequestView {
        graph: GraphSourceView::Builders {
            builders: seq![encode_utf8(model_path)],
            encoding: GraphEncoding::Ggml,
            target: ExecutionTarget::Cpu,
        },
        inputs: seq![
            (1u32, spec_u8_tensor(encode_utf8(spec_options_json(spec_llama_options())))),
            (2u32, spec_u8_tensor(encode_utf8(prompt))),
        ],
        output_index: 3,
    }
}

/// An engine resource: the model it loads and the prompt it runs.
pub struct EngineImpl {
    pub model_path: String,
    pub prompt: String,
}

impl EngineImpl {
    /// The engine for a configuration.
    pub fn new(config: Config) -> (e: Self)
        ensures
            e.model_path == config.model_path,
            e.prompt == config.prompt,
    {
        EngineImpl { model_path: config.model_path, prompt: config.prompt }
    }

    /// The engine's version: the crate's version.
    pub fn version() -> (v: String)
        ensures
            v@ == crate::spec_version(),
    {
        crate::version_string()
    }

    /// The `wasi-nn` calls of an inference. The prompt argument is not used:
    /// the engine runs the prompt of its configuration.
    pub fn inference_request(&self, prompt: &str) -> (r: InferenceRequest)
        ensures
            r@ == spec_llama_request(self.model_path@, self.prompt@),
    {
        let mut builders: Vec<Vec<u8>> = Vec::new();
        builders.push(self.model_path.as_str().as_bytes_vec());
        assert(builders[0].deep_view() =~= builders[0]@);
        assert(builders.deep_view() =~= seq![encode_utf8(self.model_path@)]);
        let options = llama_options().to_json();
        let mut inputs: Vec<ModelInput> = Vec::new();
        inputs.push(ModelInput { index: 1, tensor: text_tensor(options.as_str()) });
        inputs.push(ModelInput { index: 2, tensor: text_tensor(self.prompt.as_str()) });
        let r = InferenceRequest {
            graph: GraphSource::Builders {
                builders,
                encoding: GraphEncoding::Ggml,
                target: ExecutionTarget::Cpu,
            },
            inputs,
            output_index: 3,
        };
        assert(r@.inputs =~= spec_llama_request(self.model_path@, self.prompt@).inputs);
        r
    }

    /// The answer of an inference: the output tensor's bytes as text. The
    /// bytes must be UTF-8; `nn::output_text` tells whether they are.
    pub fn inference_result(output: Vec<u8>) -> (r: String)
        requires
            valid_utf8(output@),
        ensures
            r@ == decode_utf8(output@),
    {
        output_text(output).unwrap()
    }

    /// The steps of an inference: the `wasi-nn` calls, with the model path
    /// and the prompt printed once the execution context is made, before the
    /// first input is set.
    pub fn steps(&self, prompt: &str) -> (st: Vec<Step>)
        ensures
            steps_view(st@) == spec_steps(
                spec_llama_request(self.model_path@, self.prompt@),
                seq!["Engine model_path: "@ + self.model_path@, "Engine prompt: "@ + self.prompt@],
            ),
    {
        self.inference_request(prompt).steps(self.log_lines())
    }

    /// The lines the engine prints once its execution context is made: the
    /// model path and the prompt.
    pub fn log_lines(&self) -> (lines: Vec<String>)
        ensures
            lines.deep_view() == seq![
                "Engine model_path: "@ + self.model_path@,
                "Engine prompt: "@ + self.prompt@,
            ],
    {
        let mut lines: Vec<String> = Vec::new();
        lines.push(String::from_str("Engine model_path: ").concat(self.model_path.as_str()));
        lines.push(String::from_str("Engine prompt: ").concat(self.prompt.as_str()));
        assert(lines.deep_view() =~= seq![
            "Engine model_path: "@ + self.model_path@,
            "Engine prompt: "@ + self.prompt@,
        ]);
        lines
    }
}

/// What the llama.cpp engine hands to `wasi-nn`, for any model path and
/// prompt: the model path's bytes as the one GGML graph builder on the CPU;
/// two byte tensors of one dimension, the options JSON at input 1 and the
/// whole configured prompt at input 2, each reading back as that text; the
/// output read at index 3. The options are streaming with logging, a context
/// of 1024, 80 predicted tokens and 25 GPU layers.
pub proof fn lemma_llama_request_carries_config(model_path: Seq<char>, prompt: Seq<char>)
    ensures
        ({
            let r = spec_llama_request(model_path, prompt);
            &&& r.graph matches GraphSourceView::Builders { builders, encoding, target }
                && builders.len() == 1 && decode_utf8(builders[0]) == model_path && encoding
                == GraphEncoding::Ggml && target == ExecutionTarget::Cpu
            &&& r.inputs.len() == 2
            &&& r.inputs[0].0 == 1
            &&& decode_utf8(r.inputs[0].1.data) == json_object_text(
                seq![
                    ("stream-stdout"@, JsonScalar::Bool(true)),
                    ("enable-log"@, JsonScalar::Bool(true)),
                    ("ctx-size"@, JsonScalar::Unsigned(1024)),
                    ("n-predict"@, JsonScalar::Unsigned(80)),
                    ("n-gpu-layers"@, JsonScalar::Unsigned(25)),
                ],
            )
            &&& r.inputs[1].0 == 2
            &&& decode_utf8(r.inputs[1].1.data) == prompt
            &&& forall|i: int|
                0 <= i < r.inputs.len() ==> (#[trigger] r.inputs[i]).1.tensor_type == TensorType::U8
                    && r.inputs[i].1.dimensions == seq![1u32]
            &&& r.output_index == 3
        }),
{
    let options = spec_options_json(spec_llama_options());
    vstd::utf8::encode_utf8_decode_utf8(model_path);
    vstd::utf8::encode_utf8_decode_utf8(prompt);
    vstd::utf8::encode_utf8_decode_utf8(options);
}

} // verus!
