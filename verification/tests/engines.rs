use inf_wasi::api::{Args as ApiArgs, GenAppData, GenerateOutcome, InputData, Reply, reply};
use inf_wasi::build_type::BuildType;
use inf_wasi::cli::Args as CliArgs;
use inf_wasi::config::{get_config, Config};
use inf_wasi::engine::{llama_options, EngineImpl};
use inf_wasi::inf;
use inf_wasi::inference::compute_prompt;
use inf_wasi::nn::{
    next_step, output_text, ExecutionTarget, GraphEncoding, GraphSource, NnCall, RunStep, Step,
    TensorType,
};
use inf_wasi::openvino_engine::EngineImpl as OpenvinoEngine;
use inf_wasi::inference::{compute_steps, running_line, ComputeStep};
use inf_wasi::options::{EngineOptions, JsonScalar};

fn serde_options(o: &EngineOptions) -> String {
    let mut map = serde_json::Map::new();
    map.insert("stream-stdout".to_string(), serde_json::Value::Bool(o.stream_stdout));
    map.insert("enable-log".to_string(), serde_json::Value::Bool(o.enable_log));
    map.insert("ctx-size".to_string(), serde_json::Value::from(o.ctx_size));
    map.insert("n-predict".to_string(), serde_json::Value::from(o.n_predict));
    map.insert("n-gpu-layers".to_string(), serde_json::Value::from(o.n_gpu_layers));
    serde_json::Value::Object(map).to_string()
}

#[test]
fn option_entries_in_order() {
    let e = llama_options().entries();
    assert_eq!(
        e,
        vec![
            ("stream-stdout".to_string(), JsonScalar::Bool(true)),
            ("enable-log".to_string(), JsonScalar::Bool(true)),
            ("ctx-size".to_string(), JsonScalar::Unsigned(1024)),
            ("n-predict".to_string(), JsonScalar::Unsigned(80)),
            ("n-gpu-layers".to_string(), JsonScalar::Unsigned(25)),
        ]
    );
}

#[test]
fn llama_options_json() {
    let o = llama_options();
    assert_eq!(
        o.to_json(),
        "{\"ctx-size\":1024,\"enable-log\":true,\"n-gpu-layers\":25,\"n-predict\":80,\"stream-stdout\":true}"
    );
}

#[test]
fn options_json_matches_serde_json() {
    let cases = [
        llama_options(),
        inf::inf_options(),
        EngineOptions {
            stream_stdout: false,
            enable_log: false,
            ctx_size: 0,
            n_predict: 9,
            n_gpu_layers: u64::MAX,
        },
    ];
    for o in cases.iter() {
        assert_eq!(o.to_json(), serde_options(o));
    }
}

#[test]
fn default_config() {
    let c = get_config();
    assert_eq!(c.model_path, "models/llama-2-7b-chat.Q5_K_M.gguf");
    assert_eq!(c.prompt, "What is LoRA?");
}

fn sample_engine_config() -> Config {
    Config { model_path: "models/m.gguf".to_string(), prompt: "Hi?".to_string() }
}

#[test]
fn llama_engine_request() {
    let e = EngineImpl::new(sample_engine_config());
    assert_eq!(e.model_path, "models/m.gguf");
    assert_eq!(e.prompt, "Hi?");
    let r = e.inference_request("ignored");
    match &r.graph {
        GraphSource::Builders { builders, encoding, target } => {
            assert_eq!(builders, &vec![b"models/m.gguf".to_vec()]);
            assert_eq!(*encoding, GraphEncoding::Ggml);
            assert_eq!(*target, ExecutionTarget::Cpu);
        }
        GraphSource::Named(_) => panic!("the llama.cpp engine loads model data"),
    }
    assert_eq!(r.inputs.len(), 2);
    assert_eq!(r.inputs[0].index, 1);
    assert_eq!(r.inputs[0].tensor.dimensions, vec![1u32]);
    assert_eq!(r.inputs[0].tensor.tensor_type, TensorType::U8);
    assert_eq!(r.inputs[0].tensor.data, llama_options().to_json().into_bytes());
    assert_eq!(r.inputs[1].index, 2);
    assert_eq!(r.inputs[1].tensor.data, b"Hi?".to_vec());
    assert_eq!(r.output_index, 3);
}

#[test]
fn llama_engine_ignores_prompt_argument() {
    let e = EngineImpl::new(sample_engine_config());
    let a = e.inference_request("one prompt");
    let b = e.inference_request("another prompt");
    assert_eq!(a.inputs[1].tensor.data, b.inputs[1].tensor.data);
    assert_eq!(a.inputs[1].tensor.data, b"Hi?".to_vec());
}

#[test]
fn openvino_engine_request() {
    let e = OpenvinoEngine::new(sample_engine_config());
    let r = e.inference_request("ignored");
    match &r.graph {
        GraphSource::Builders { builders, encoding, target } => {
            assert_eq!(builders, &vec![b"models/m.gguf".to_vec(), b"models/m.gguf".to_vec()]);
            assert_eq!(*encoding, GraphEncoding::Openvino);
            assert_eq!(*target, ExecutionTarget::Cpu);
        }
        GraphSource::Named(_) => panic!("the OpenVINO engine loads model data"),
    }
    assert_eq!(r.inputs.len(), 1);
    assert_eq!(r.inputs[0].index, 1);
    assert_eq!(r.inputs[0].tensor.data, b"Hi?".to_vec());
    assert_eq!(r.output_index, 0);
}

#[test]
fn engine_versions() {
    assert_eq!(EngineImpl::version(), "0.1.0");
    assert_eq!(OpenvinoEngine::version(), "0.1.0");
    assert_eq!(inf::version(), "0.1.0");
}

#[test]
fn engine_results() {
    assert_eq!(EngineImpl::inference_result(b" Stockholm".to_vec()), " Stockholm".to_string());
    assert_eq!(OpenvinoEngine::inference_result("Ä".as_bytes().to_vec()), "Ä".to_string());
    assert_eq!(output_text(vec![0xff, 0xfe]), None);
    assert_eq!(output_text(vec![0xc3]), None);
    assert_eq!(output_text("Ä".as_bytes().to_vec()), Some("Ä".to_string()));
}

#[test]
fn engine_log_lines() {
    let e = EngineImpl::new(sample_engine_config());
    assert_eq!(e.log_lines(), vec!["Engine model_path: models/m.gguf", "Engine prompt: Hi?"]);
    let o = OpenvinoEngine::new(sample_engine_config());
    assert_eq!(o.log_lines(), vec!["Engine model_path: models/m.gguf", "Engine prompt: Hi?"]);
    assert_eq!(running_line(), "Inference Component Running inference");
    assert_eq!(
        inf::options_line(),
        "Options: {\"ctx-size\":1024,\"enable-log\":true,\"n-gpu-layers\":25,\"n-predict\":512,\"stream-stdout\":true}"
    );
}

#[test]
fn llama_call_sequence() {
    let e = EngineImpl::new(sample_engine_config());
    let calls = e.inference_request("p").calls();
    assert_eq!(
        calls,
        vec![
            NnCall::LoadGraph,
            NnCall::InitExecutionContext,
            NnCall::SetInput(0),
            NnCall::SetInput(1),
            NnCall::Compute,
            NnCall::GetOutput(3)
        ]
    );
    let o = OpenvinoEngine::new(sample_engine_config());
    assert_eq!(
        o.inference_request("p").calls(),
        vec![
            NnCall::LoadGraph,
            NnCall::InitExecutionContext,
            NnCall::SetInput(0),
            NnCall::Compute,
            NnCall::GetOutput(0)
        ]
    );
}

#[test]
fn run_steps() {
    let calls = inf::inference_request().calls();
    assert_eq!(next_step(&calls, 0, true), RunStep::Call(NnCall::LoadGraph));
    assert_eq!(next_step(&calls, 0, false), RunStep::Call(NnCall::LoadGraph));
    assert_eq!(next_step(&calls, 1, true), RunStep::Call(NnCall::InitExecutionContext));
    assert_eq!(next_step(&calls, 3, false), RunStep::Failed);
    assert_eq!(next_step(&calls, 5, true), RunStep::Call(NnCall::GetOutput(3)));
    assert_eq!(next_step(&calls, calls.len(), true), RunStep::Finished);
    assert_eq!(next_step(&calls, calls.len(), false), RunStep::Failed);
}

#[test]
fn inf_world_request() {
    let r = inf::inference_request();
    match &r.graph {
        GraphSource::Named(name) => assert_eq!(name, "llama-chat"),
        GraphSource::Builders { .. } => panic!("the inf world loads a graph by name"),
    }
    assert_eq!(r.inputs.len(), 2);
    assert_eq!(
        String::from_utf8(r.inputs[0].tensor.data.clone()).unwrap(),
        "{\"ctx-size\":1024,\"enable-log\":true,\"n-gpu-layers\":25,\"n-predict\":512,\"stream-stdout\":true}"
    );
    assert_eq!(r.inputs[1].index, 2);
    assert_eq!(r.inputs[1].tensor.data, b"What is LoRA?".to_vec());
    assert_eq!(r.output_index, 3);
}

#[test]
fn inf_world_answer_ignores_output() {
    assert_eq!(inf::inference_result(&b"anything".to_vec()), "inference result");
    assert_eq!(inf::inference_result(&Vec::new()), "inference result");
}

#[test]
fn compute_uses_given_prompt() {
    let c = get_config();
    assert_eq!(compute_prompt(Some("Why?".to_string()), &c), "Why?");
    assert_eq!(compute_prompt(None, &c), "What is LoRA?");
}

#[test]
fn cli_args_make_debug_config() {
    let args = CliArgs {
        name: "sample".to_string(),
        model_path: "m.gguf".to_string(),
        prompt: "p".to_string(),
        work_dir: "working".to_string(),
        modules_dir: "modules".to_string(),
        output_dir: "working/target".to_string(),
    };
    let c = args.gen_config();
    assert_eq!(c.name, "sample");
    assert_eq!(c.model_path, "m.gguf");
    assert_eq!(c.prompt, "p");
    assert_eq!(c.work_dir, "working");
    assert_eq!(c.modules_dir, "modules");
    assert_eq!(c.output_dir, "working/target");
    assert_eq!(c.build_type, BuildType::Debug);
}

#[test]
fn api_default_build_type_is_debug() {
    let args = ApiArgs {
        work_dir: "working".to_string(),
        modules_dir: "modules".to_string(),
        output_dir: "working/target".to_string(),
        build_type: "Release".to_string(),
    };
    let data = args.app_data();
    assert_eq!(data.build_type, BuildType::Debug);
    assert_eq!(data.work_dir, "working");
}

#[test]
fn api_release_build_type() {
    let args = ApiArgs {
        work_dir: "w".to_string(),
        modules_dir: "m".to_string(),
        output_dir: "o".to_string(),
        build_type: "release".to_string(),
    };
    assert_eq!(args.app_data().build_type, BuildType::Release);
}

#[test]
fn api_request_config() {
    let data = GenAppData::new("w".to_string(), "m".to_string(), "o".to_string(), BuildType::Release);
    let input = InputData {
        config_name: "n".to_string(),
        model_path: "p.gguf".to_string(),
        prompt: "q".to_string(),
    };
    let c = data.gen_config(&input);
    assert_eq!(c.name, "n");
    assert_eq!(c.model_path, "p.gguf");
    assert_eq!(c.prompt, "q");
    assert_eq!(c.work_dir, "w");
    assert_eq!(c.modules_dir, "m");
    assert_eq!(c.output_dir, "o");
    assert_eq!(c.build_type, BuildType::Release);
}

#[test]
fn api_replies() {
    match reply(GenerateOutcome::Composed(vec![1, 2, 3])) {
        Reply::Success { content_type, body } => {
            assert_eq!(content_type, "application/wasm");
            assert_eq!(body, vec![1, 2, 3]);
        }
        Reply::InternalServerError(_) => panic!("expected success"),
    }
    match reply(GenerateOutcome::ReadFailed) {
        Reply::InternalServerError(m) => assert_eq!(m, "Error reading wasm file"),
        _ => panic!("expected an error"),
    }
    match reply(GenerateOutcome::GenerateFailed) {
        Reply::InternalServerError(m) => assert_eq!(m, "Error generating wasm file"),
        _ => panic!("expected an error"),
    }
}

fn describe(steps: &[Step]) -> Vec<String> {
    steps
        .iter()
        .map(|s| match s {
            Step::Call(c) => format!("{:?}", c),
            Step::Print(line) => format!("print {}", line),
        })
        .collect()
}

#[test]
fn llama_engine_prints_before_first_input() {
    let e = EngineImpl::new(sample_engine_config());
    assert_eq!(
        describe(&e.steps("ignored")),
        vec![
            "LoadGraph",
            "InitExecutionContext",
            "print Engine model_path: models/m.gguf",
            "print Engine prompt: Hi?",
            "SetInput(0)",
            "SetInput(1)",
            "Compute",
            "GetOutput(3)"
        ]
    );
    let o = OpenvinoEngine::new(sample_engine_config());
    assert_eq!(
        describe(&o.steps("ignored")),
        vec![
            "LoadGraph",
            "InitExecutionContext",
            "print Engine model_path: models/m.gguf",
            "print Engine prompt: Hi?",
            "SetInput(0)",
            "Compute",
            "GetOutput(0)"
        ]
    );
}

#[test]
fn inf_world_prints_options_after_context() {
    let steps = describe(&inf::inference_steps());
    assert_eq!(steps.len(), 7);
    assert_eq!(steps[1], "InitExecutionContext");
    assert!(steps[2].starts_with("print Options: {"));
    assert_eq!(steps[3], "SetInput(0)");
}

#[test]
fn compute_prints_before_get_config() {
    let steps = compute_steps();
    assert_eq!(steps.len(), 4);
    match &steps[0] {
        ComputeStep::Print(line) => assert_eq!(line, "Inference Component Running inference"),
        _ => panic!("the first step prints"),
    }
    assert!(matches!(steps[1], ComputeStep::GetConfig));
    assert!(matches!(steps[2], ComputeStep::NewEngine));
    assert!(matches!(steps[3], ComputeStep::Inference));
}
