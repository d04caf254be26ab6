//! The `wasi-nn` calls an engine makes, held as data: where the graph comes
//! from, which tensors are set as inputs, and which output is read.

use vstd::prelude::*;
use vstd::utf8::{decode_utf8, encode_utf8, valid_utf8};

verus! {

/// The encoding of a graph's model data.
#[derive(Debug, Clone, Copy, PartialEq, Eq, Structural)]
pub enum GraphEncoding {
    Openvino,
    Onnx,
    Tensorflow,
    Pytorch,
    Tensorflowlite,
    Ggml,
    Autodetect,
}

/// The device a graph runs on.
#[derive(Debug, Clone, Copy, PartialEq, Eq, Structural)]
pub enum ExecutionTarget {
    Cpu,
    Gpu,
    Tpu,
}

/// The element type of a tensor.
#[derive(Debug, Clone, Copy, PartialEq, Eq, Structural)]
pub enum TensorType {
    Fp16,
    Fp32,
    Fp64,
    Bf16,
    U8,
    I32,
    I64,
}

/// A tensor: its dimensions, element type and raw data.
pub struct Tensor {
    pub dimensions: Vec<u32>,
    pub tensor_type: TensorType,
    pub data: Vec<u8>,
}

/// The contents of a tensor.
pub struct TensorView {
    pub dimensions: Seq<u32>,
    pub tensor_type: TensorType,
    pub data: Seq<u8>,
}

impl View for Tensor {
    type V = TensorView;

    open spec fn view(&self) -> TensorView {
        TensorView {
            dimensions: self.dimensions@,
            tensor_type: self.tensor_type,
            data: self.data@,
        }
    }
}

/// The one-dimensional byte tensor holding `data`, the shape the engines use
/// for text.
pub open spec fn spec_u8_tensor(data: Seq<u8>) -> TensorView {
    TensorView { dimensions: seq![1u32], tensor_type: TensorType::U8, data }
}

/// The one-dimensional byte tensor holding `data`.
pub fn u8_tensor(data: Vec<u8>) -> (t: Tensor)
    ensures
        t@ == spec_u8_tensor(data@),
{
    let mut dimensions: Vec<u32> = Vec::new();
    dimensions.push(1);
    let t = Tensor { dimensions, tensor_type: TensorType::U8, data };
    assert(t@.dimensions =~= seq![1u32]);
    t
}

/// The byte tensor holding the UTF-8 encoding of `text`.
pub fn text_tensor(text: &str) -> (t: Tensor)
    ensures
        t@ == spec_u8_tensor(encode_utf8(text@)),
{
    u8_tensor(text.as_bytes_vec())
}

/// An input of the execution context: the tensor set at an input index.
pub struct ModelInput {
    pub index: u32,
    pub tensor: Tensor,
}

impl View for ModelInput {
    type V = (u32, TensorView);

    open spec fn view(&self) -> (u32, TensorView) {
        (self.index, self.tensor@)
    }
}

/// Where the graph comes from: model data loaded with an encoding onto a
/// target, or a graph the host knows by name.
pub enum GraphSource {
    Builders { builders: Vec<Vec<u8>>, encoding: GraphEncoding, target: ExecutionTarget },
    Named(String),
}

/// The contents of a graph source.
pub enum GraphSourceView {
    Builders { builders: Seq<Seq<u8>>, encoding: GraphEncoding, target: ExecutionTarget },
    Named(Seq<char>),
}

impl View for GraphSource {
    type V = GraphSourceView;

    open spec fn view(&self) -> GraphSourceView {
        match self {
            GraphSource::Builders { builders, encoding, target } => GraphSourceView::Builders {
                builders: builders.deep_view(),
                encoding: *encoding,
                target: *target,
            },
            GraphSource::Named(name) => GraphSourceView::Named(name@),
        }
    }
}

/// One inference: load the graph, make an execution context, set the inputs
/// in order, compute, and read the output at `output_index`.
pub struct InferenceRequest {
    pub graph: GraphSource,
    pub inputs: Vec<ModelInput>,
    pub output_index: u32,
}

/// The contents of an inference request.
pub struct InferenceRequestView {
    pub graph: GraphSourceView,
    pub inputs: Seq<(u32, TensorView)>,
    pub output_index: u32,
}

impl View for InferenceRequest {
    type V = InferenceRequestView;

    open spec fn view(&self) -> InferenceRequestView {
        InferenceRequestView {
            graph: self.graph@,
            inputs: self.inputs@.map_values(|input: ModelInput| input@),
            output_index: self.output_index,
        }
    }
}

/// `String::from_utf8`: succeeds exactly on valid UTF-8, with the text that
/// the bytes encode.
#[verifier::external_body]
fn string_from_utf8(bytes: Vec<u8>) -> (r: Option<String>)
    ensures
        r is Some <==> valid_utf8(bytes@),
        r matches Some(s) ==> s@ == decode_utf8(bytes@),
{
    String::from_utf8(bytes).ok()
}

/// The text of an output tensor's bytes, `None` when they are not UTF-8.
pub fn output_text(bytes: Vec<u8>) -> (r: Option<String>)
    ensures
        r is Some <==> valid_utf8(bytes@),
        r matches Some(s) ==> s@ == decode_utf8(bytes@),
{
    string_from_utf8(bytes)
}

/// Text put into a byte tensor reads back as the same text.
pub proof fn lemma_text_tensor_roundtrip(text: Seq<char>)
    ensures
        valid_utf8(spec_u8_tensor(encode_utf8(text)).data),
        decode_utf8(spec_u8_tensor(encode_utf8(text)).data) == text,
{
    vstd::utf8::encode_utf8_valid_utf8(text);
    vstd::utf8::encode_utf8_decode_utf8(text);
}

/// A `wasi-nn` call of an inference.
#[derive(Debug, Clone, Copy, PartialEq, Eq, Structural)]
pub enum NnCall {
    /// `graph::load` or `graph::load_by_name`.
    LoadGraph,
    /// `inference::init_execution_context`.
    InitExecutionContext,
    /// `inference::set_input` of the input at this position of the request.
    SetInput(usize),
    /// `inference::compute`.
    Compute,
    /// `inference::get_output` at this index.
    GetOutput(u32),
}

/// The `SetInput` calls for the inputs from position `from` on, in order.
pub open spec fn spec_set_inputs(from: nat, count: nat) -> Seq<NnCall>
    decreases count - from,
{
    if from >= count {
        seq![]
    } else {
        seq![NnCall::SetInput(from as usize)] + spec_set_inputs(from + 1, count)
    }
}

/// The `wasi-nn` calls of a request, in the order they are made.
pub open spec fn spec_calls(r: InferenceRequestView) -> Seq<NnCall> {
    seq![NnCall::LoadGraph, NnCall::InitExecutionContext] + spec_set_inputs(0, r.inputs.len())
        + seq![NnCall::Compute, NnCall::GetOutput(r.output_index)]
}

/// What happens after a call: the next call, the end of the run with the
/// output in hand, or the end of the run because a call failed (every call's
/// result is unwrapped, so the engine panics and makes no further call).
#[derive(Debug, Clone, Copy, PartialEq, Eq, Structural)]
pub enum RunStep {
    Call(NnCall),
    Finished,
    Failed,
}

/// The step of a run that has made the first `made` calls of `calls`, the
/// last of which succeeded or not.
pub open spec fn spec_next_step(calls: Seq<NnCall>, made: nat, last_succeeded: bool) -> RunStep {
    if made > 0 && !last_succeeded {
        RunStep::Failed
    } else if made >= calls.len() {
        RunStep::Finished
    } else {
        RunStep::Call(calls[made as int])
    }
}

impl InferenceRequest {
    /// The `wasi-nn` calls of the request, in order: load the graph, make the
    /// execution context, set each input, compute, read the output.
    pub fn calls(&self) -> (c: Vec<NnCall>)
        ensures
            c@ == spec_calls(self@),
    {
        let mut c: Vec<NnCall> = Vec::new();
        c.push(NnCall::LoadGraph);
        c.push(NnCall::InitExecutionContext);
        let n = self.inputs.len();
        let mut k: usize = 0;
        while k < n
            invariant
                k <= n,
                n == self.inputs.len(),
                c@ + spec_set_inputs(k as nat, n as nat) == seq![
                    NnCall::LoadGraph,
                    NnCall::InitExecutionContext,
                ] + spec_set_inputs(0, n as nat),
            decreases n - k,
        {
            c.push(NnCall::SetInput(k));
            proof {
                assert(spec_set_inputs(k as nat, n as nat) == seq![NnCall::SetInput(k)]
                    + spec_set_inputs((k + 1) as nat, n as nat));
                assert(c@ + spec_set_inputs((k + 1) as nat, n as nat) =~= c@.drop_last() + (seq![
                    NnCall::SetInput(k),
                ] + spec_set_inputs((k + 1) as nat, n as nat)));
            }
            k += 1;
        }
        assert(spec_set_inputs(n as nat, n as nat) =~= Seq::<NnCall>::empty());
        c.push(NnCall::Compute);
        c.push(NnCall::GetOutput(self.output_index));
        assert(self@.inputs.len() == n);
        assert(c@ =~= spec_calls(self@));
        c
    }
}

/// The step of a run that has made the first `made` calls of `calls`.
pub fn next_step(calls: &Vec<NnCall>, made: usize, last_succeeded: bool) -> (s: RunStep)
    requires
        made <= calls.len(),
    ensures
        s == spec_next_step(calls@, made as nat, last_succeeded),
{
    if made > 0 && !last_succeeded {
        RunStep::Failed
    } else if made >= calls.len() {
        RunStep::Finished
    } else {
        RunStep::Call(calls[made])
    }
}

/// A run ends at its first failed call: after a failure there is no further
/// call, and a run with every call successful makes them all in order.
pub proof fn lemma_run_stops_at_failure(calls: Seq<NnCall>, made: nat)
    requires
        0 < made <= calls.len(),
    ensures
        spec_next_step(calls, made, false) == RunStep::Failed,
        made < calls.len() ==> spec_next_step(calls, made, true) == RunStep::Call(calls[made as int]),
        spec_next_step(calls, calls.len(), true) == RunStep::Finished,
{
}

/// A step of an inference as the engine runs it: a `wasi-nn` call, or a line
/// printed to stdout.
pub enum Step {
    Call(NnCall),
    Print(String),
}

/// The contents of a step.
pub enum StepView {
    Call(NnCall),
    Print(Seq<char>),
}

impl View for Step {
    type V = StepView;

    open spec fn view(&self) -> StepView {
        match self {
            Step::Call(c) => StepView::Call(*c),
            Step::Print(line) => StepView::Print(line@),
        }
    }
}

/// The steps of a request whose engine prints `lines` once the execution
/// context is made: after loading the graph and making the context, before
/// the first input is set.
pub open spec fn spec_steps(r: InferenceRequestView, lines: Seq<Seq<char>>) -> Seq<StepView> {
    let calls = spec_calls(r).map_values(|c: NnCall| StepView::Call(c));
    calls.take(2) + lines.map_values(|l: Seq<char>| StepView::Print(l)) + calls.skip(2)
}

/// The steps as plain values.
pub open spec fn steps_view(steps: Seq<Step>) -> Seq<StepView> {
    steps.map_values(|s: Step| s@)
}

impl InferenceRequest {
    /// The steps of the request when its engine prints `lines` once the
    /// execution context is made.
    pub fn steps(&self, lines: Vec<String>) -> (st: Vec<Step>)
        ensures
            steps_view(st@) == spec_steps(self@, lines.deep_view()),
    {
        let calls = self.calls();
        let ghost cv = spec_calls(self@).map_values(|c: NnCall| StepView::Call(c));
        let ghost lv = lines.deep_view().map_values(|l: Seq<char>| StepView::Print(l));
        let mut st: Vec<Step> = Vec::new();
        st.push(Step::Call(calls[0]));
        st.push(Step::Call(calls[1]));
        assert(steps_view(st@) =~= cv.take(2));
        let mut k: usize = 0;
        while k < lines.len()
            invariant
                k <= lines.len(),
                lv == lines.deep_view().map_values(|l: Seq<char>| StepView::Print(l)),
                steps_view(st@) == cv.take(2) + lv.take(k as int),
            decreases lines.len() - k,
        {
            let ghost before = st@;
            st.push(Step::Print(lines[k].clone()));
            assert(lv.take((k + 1) as int) =~= lv.take(k as int).push(lv[k as int]));
            assert(steps_view(st@) =~= steps_view(before).push(lv[k as int]));
            k += 1;
        }
        assert(lv.take(lines.len() as int) =~= lv);
        let n = calls.len();
        let mut i: usize = 2;
        while i < n
            invariant
                2 <= i <= n,
                n == calls.len(),
                calls@ == spec_calls(self@),
                cv == spec_calls(self@).map_values(|c: NnCall| StepView::Call(c)),
                steps_view(st@) == cv.take(2) + lv + cv.subrange(2, i as int),
            decreases n - i,
        {
            let ghost before = st@;
            st.push(Step::Call(calls[i]));
            assert(cv.subrange(2, (i + 1) as int) =~= cv.subrange(2, i as int).push(cv[i as int]));
            assert(steps_view(st@) =~= steps_view(before).push(cv[i as int]));
            i += 1;
        }
        assert(cv.subrange(2, n as int) =~= cv.skip(2));
        st
    }
}

} // verus!
