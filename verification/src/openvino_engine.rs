//! The OpenVINO engine: loads the model named by its configuration (as both
//! the model description and the weights) as an OpenVINO graph on the CPU.

use vstd::prelude::*;
use vstd::utf8::{decode_utf8, encode_utf8, valid_utf8};

use crate::config::Config;
use crate::nn::{
    TensorType,
    output_text, spec_u8_tensor, text_tensor, ExecutionTarget, GraphEncoding, GraphSource,
    GraphSourceView, InferenceRequest, InferenceRequestView, ModelInput, Step, spec_steps,
    steps_view,
};

verus! {

/// The inference of the OpenVINO engine with this model path and prompt:
/// the model path as model and as weights, OpenVINO on the CPU; the prompt at
/// input 1; the output read at index 0.
pub open spec fn spec_openvino_request(model_path: Seq<char>, prompt: Seq<char>) -> InferenceRequestView {
    InferenceRequestView {
        graph: GraphSourceView::Builders {
            builders: seq![encode_utf8(model_path), encode_utf8(model_path)],
            encoding: GraphEncoding::Openvino,
            target: ExecutionTarget::Cpu,
        },
        inputs: seq![(1u32, spec_u8_tensor(encode_utf8(prompt)))],
        output_index: 0,
    }
}

/// An engine resource: the model it loads and the prompt it runs.
pub struct EngineImpl {
    pub model_path: String,
    pub prompt: String,
}

impl EngineImpl {
    /// The engine for a configuration.
    pub fn new(config: Config) -> (e: Self)
        ensures
            e.model_path == config.model_path,
            e.prompt == config.prompt,
    {
        EngineImpl { model_path: config.model_path, prompt: config.prompt }
    }

    /// The engine's version: the crate's version.
    pub fn version() -> (v: String)
        ensures
            v@ == crate::spec_version(),
    {
        crate::version_string()
    }

    /// The `wasi-nn` calls of an inference. The prompt argument is not used:
    /// the engine runs the prompt of its configuration.
    pub fn inference_request(&self, prompt: &str) -> (r: InferenceRequest)
        ensures
            r@ == spec_openvino_request(self.model_path@, self.prompt@),
    {
        let mut builders: Vec<Vec<u8>> = Vec::new();
        builders.push(self.model_path.as_str().as_bytes_vec());
        builders.push(self.model_path.as_str().as_bytes_vec());
        assert(builders[0].deep_view() =~= builders[0]@);
        assert(builders[1].deep_view() =~= builders[1]@);
        assert(builders.deep_view() =~= seq![
            encode_utf8(self.model_path@),
            encode_utf8(self.model_path@),
        ]);
        let mut inputs: Vec<ModelInput> = Vec::new();
        inputs.push(ModelInput { index: 1, tensor: text_tensor(self.prompt.as_str()) });
        let r = InferenceRequest {
            graph: GraphSource::Builders {
                builders,
                encoding: GraphEncoding::Openvino,
                target: ExecutionTarget::Cpu,
            },
            inputs,
            output_index: 0,
        };
        assert(r@.inputs =~= spec_openvino_request(self.model_path@, self.prompt@).inputs);
        r
    }

    /// The answer of an inference: the output tensor's bytes as text. The
    /// bytes must be UTF-8; `nn::output_text` tells whether they are.
    pub fn inference_result(output: Vec<u8>) -> (r: String)
        requires
            valid_utf8(output@),
        ensures
            r@ == decode_utf8(output@),
    {
        output_text(output).unwrap()
    }

    /// The steps of an inference: the `wasi-nn` calls, with the model path
    /// and the prompt printed once the execution context is made, before the
    /// first input is set.
    pub fn steps(&self, prompt: &str) -> (st: Vec<Step>)
        ensures
            steps_view(st@) == spec_steps(
                spec_openvino_request(self.model_path@, self.prompt@),
                seq!["Engine model_path: "@ + self.model_path@, "Engine prompt: "@ + self.prompt@],
            ),
    {
        self.inference_request(prompt).steps(self.log_lines())
    }

    /// The lines the engine prints once its execution context is made: the
    /// model path and the prompt.
    pub fn log_lines(&self) -> (lines: Vec<String>)
        ensures
            lines.deep_view() == seq![
                "Engine model_path: "@ + self.model_path@,
                "Engine prompt: "@ + self.prompt@,
            ],
    {
        let mut lines: Vec<String> = Vec::new();
        lines.push(String::from_str("Engine model_path: ").concat(self.model_path.as_str()));
        lines.push(String::from_str("Engine prompt: ").concat(self.prompt.as_str()));
        assert(lines.deep_view() =~= seq![
            "Engine model_path: "@ + self.model_path@,
            "Engine prompt: "@ + self.prompt@,
        ]);
        lines
    }
}

/// What the OpenVINO engine hands to `wasi-nn`, for any model path and
/// prompt: the model path's bytes as model and as weights of an OpenVINO
/// graph on the CPU; one byte tensor of one dimension at input 1, holding the
/// whole configured prompt; the output read at index 0.
pub proof fn lemma_openvino_request_carries_config(model_path: Seq<char>, prompt: Seq<char>)
    ensures
        ({
            let r = spec_openvino_request(model_path, prompt);
            &&& r.graph matches GraphSourceView::Builders { builders, encoding, target }
                && builders.len() == 2 && decode_utf8(builders[0]) == model_path && decode_utf8(
                builders[1],
            ) == model_path && encoding == GraphEncoding::Openvino && target
                == ExecutionTarget::Cpu
            &&& r.inputs.len() == 1
            &&& r.inputs[0].0 == 1
            &&& decode_utf8(r.inputs[0].1.data) == prompt
            &&& forall|i: int|
                0 <= i < r.inputs.len() ==> (#[trigger] r.inputs[i]).1.tensor_type == TensorType::U8
                    && r.inputs[i].1.dimensions == seq![1u32]
            &&& r.output_index == 0
        }),
{
    vstd::utf8::encode_utf8_decode_utf8(model_path);
    vstd::utf8::encode_utf8_decode_utf8(prompt);
}

} // verus!
