use inf_wasi::build_type::BuildType;
use inf_wasi::gen_config::GenConfig;
use inf_wasi::manifest::{
    add_workspace_member, checked_add_workspace_member, ManifestError, WorkspaceManifest,
};
use inf_wasi::paths::{is_absolute_path, push_path};
use inf_wasi::plan::{
    build_args, compile_error_message, component_write_error_message, composed_message,
    composed_path, composed_write_error_message, created_component_message,
    created_workspace_message, needs_current_dir, workspace_manifest_path, GenerationPlan,
};
use inf_wasi::templates::{config_lib, workspace_member_toml, workspace_toml};

fn sample_config() -> GenConfig {
    GenConfig::new(
        "sample",
        "models/llama-2-7b-chat.Q5_K_M.gguf".to_string(),
        "What is the capital of Sweden?",
        "working".to_string(),
    )
}

#[test]
fn version_is_crate_version() {
    assert_eq!(inf_wasi::version(), "0.1.0");
    assert_eq!(inf_wasi::version_string(), "0.1.0".to_string());
}

#[test]
fn build_type_names() {
    assert_eq!(BuildType::Debug.as_string(), "debug");
    assert_eq!(BuildType::Release.as_string(), "release");
}

#[test]
fn build_type_from_names() {
    assert_eq!(BuildType::from("release"), BuildType::Release);
    assert_eq!(BuildType::from("debug"), BuildType::Debug);
    assert_eq!(BuildType::from(""), BuildType::Debug);
    assert_eq!(BuildType::from("releases"), BuildType::Debug);
    assert_eq!(BuildType::from("release".to_string()), BuildType::Release);
    assert_eq!(BuildType::from("anything".to_string()), BuildType::Debug);
}

#[test]
fn build_type_capitalised_release_is_debug() {
    // The web server's default build type is spelled `Release`, which does
    // not select a release build.
    assert_eq!(BuildType::from("Release"), BuildType::Debug);
    assert_eq!(BuildType::from("Release".to_string()), BuildType::Debug);
}

#[test]
fn build_type_name_roundtrip() {
    for b in [BuildType::Debug, BuildType::Release] {
        assert_eq!(BuildType::from(b.as_string()), b);
    }
}

#[test]
fn gen_config_defaults() {
    let c = sample_config();
    assert_eq!(c.name, "sample");
    assert_eq!(c.model_path, "models/llama-2-7b-chat.Q5_K_M.gguf");
    assert_eq!(c.prompt, "What is the capital of Sweden?");
    assert_eq!(c.work_dir, "working");
    assert_eq!(c.build_type, BuildType::Debug);
    assert_eq!(c.modules_dir, "modules");
    assert_eq!(c.output_dir, "target");
}

#[test]
fn workspace_toml_text() {
    let name = "sample";
    let expected = format!(
        "
[workspace]
resolver = \"2\"
members = [
    \"{}\",
]
[workspace.dependencies]
wit-bindgen = {{ version = \"0.19.2\", default-features = true, features = ['macros'] }}
",
        name
    );
    assert_eq!(workspace_toml(name), expected);
}

#[test]
fn workspace_member_toml_text() {
    let name = "sample";
    let expected = format!(
        "
[package]
name = \"{}\"
version = \"0.1.0\"
edition = \"2021\"

[dependencies]
wit-bindgen = {{ workspace = true }}

[lib]
crate-type = [\"cdylib\"]
",
        name
    );
    assert_eq!(workspace_member_toml(name), expected);
}

#[test]
fn config_lib_text() {
    let header = r#"
wit_bindgen::generate!({
    inline: "
      package inf:wasi;

      world config-world {
        export config;
        export config-types;
      }

      interface config-types {
        record config {
          model-path: string,
          prompt: string,
        }
      }

      interface config {
        use config-types.{config};
        get-config: func() -> config;
      }
    ",
    world: "config-world",
    exports: {
        "inf:wasi/config": Exports
    },
});
"#;
    let model_path = "models/m.gguf";
    let prompt = "What is LoRA?";
    let expected = format!(
        "{}
use crate::exports::inf::wasi::config::Guest;
use crate::exports::inf::wasi::config_types::Config;

struct Exports;

impl Guest for Exports {{
    fn get_config() -> Config {{
        let model_path = r#\"{}\"#;
        let prompt = r#\"{}\"#;
        Config {{
            model_path: model_path.to_string(),
            prompt: prompt.to_string(),
        }}
    }}
}}",
        header, model_path, prompt
    );
    assert_eq!(config_lib(model_path, prompt), expected);
}

#[test]
fn debug_build_args() {
    let args = build_args("sample", "/w/sample/Cargo.toml", BuildType::Debug);
    assert_eq!(
        args,
        vec![
            "build",
            "--package",
            "sample",
            "--manifest-path",
            "/w/sample/Cargo.toml",
            "--target",
            "wasm32-unknown-unknown"
        ]
    );
}

#[test]
fn release_build_args() {
    let args = build_args("sample", "/w/sample/Cargo.toml", BuildType::Release);
    assert_eq!(
        args,
        vec![
            "build",
            "--package",
            "sample",
            "--release",
            "--manifest-path",
            "/w/sample/Cargo.toml",
            "--target",
            "wasm32-unknown-unknown"
        ]
    );
}

#[test]
fn generation_plan_paths() {
    let c = sample_config();
    let plan = GenerationPlan::new(&c, "/home/u/working");
    assert_eq!(plan.config_src_dir, "/home/u/working/sample/src");
    assert_eq!(plan.config_toml, "/home/u/working/sample/Cargo.toml");
    assert_eq!(plan.config_lib_path, "/home/u/working/sample/src/lib.rs");
    assert_eq!(plan.member_toml, workspace_member_toml("sample"));
    assert_eq!(
        plan.config_lib,
        config_lib("models/llama-2-7b-chat.Q5_K_M.gguf", "What is the capital of Sweden?")
    );
    assert_eq!(
        plan.build_args,
        build_args("sample", "/home/u/working/sample/Cargo.toml", BuildType::Debug)
    );
    assert_eq!(
        plan.config_module_path,
        "/home/u/working/target/wasm32-unknown-unknown/debug/sample.wasm"
    );
    assert_eq!(plan.component_path, "/home/u/working/target/sample-config-component.wasm");
    assert_eq!(plan.engine_component_path, "modules/engine-component.wasm");
    assert_eq!(plan.search_paths, vec!["modules", "/home/u/working/target"]);
    assert_eq!(
        plan.definitions,
        vec![
            "modules/engine-component.wasm",
            "/home/u/working/target/sample-config-component.wasm"
        ]
    );
    assert_eq!(plan.inference_component_path, "modules/inference-component.wasm");
}

#[test]
fn release_plan_module_path() {
    let mut c = sample_config();
    c.build_type = BuildType::Release;
    let plan = GenerationPlan::new(&c, "/w");
    assert_eq!(plan.config_module_path, "/w/target/wasm32-unknown-unknown/release/sample.wasm");
    assert_eq!(plan.build_args[3], "--release");
}

#[test]
fn plan_modules_dir_with_trailing_slash() {
    let mut c = sample_config();
    c.modules_dir = "../target/".to_string();
    let plan = GenerationPlan::new(&c, "/w");
    assert_eq!(plan.inference_component_path, "../target/inference-component.wasm");
    assert_eq!(plan.engine_component_path, "../target//engine-component.wasm");
}

#[test]
fn push_path_matches_pathbuf() {
    let cases = [
        ("/tmp", "file.bk"),
        ("/tmp/", "file.bk"),
        ("", "file.bk"),
        ("/tmp", "/etc"),
        ("a/b", "c/d"),
        ("a", ""),
        ("modules", "inference-component.wasm"),
    ];
    for (base, part) in cases {
        let mut p = std::path::PathBuf::from(base);
        p.push(part);
        assert_eq!(push_path(base, part), p.to_str().unwrap(), "{} + {}", base, part);
    }
}

#[test]
fn absolute_paths() {
    assert!(is_absolute_path("/"));
    assert!(is_absolute_path("/tmp/x"));
    assert!(!is_absolute_path(""));
    assert!(!is_absolute_path("working/target"));
    assert!(!is_absolute_path("./x"));
}

#[test]
fn composed_path_relative_output() {
    let mut c = sample_config();
    c.output_dir = "working/target".to_string();
    assert!(needs_current_dir(&c));
    assert_eq!(composed_path(&c, "/home/u"), "/home/u/working/target/sample-composed.wasm");
}

#[test]
fn composed_path_absolute_output() {
    let mut c = sample_config();
    c.output_dir = "/out".to_string();
    assert!(!needs_current_dir(&c));
    assert_eq!(composed_path(&c, ""), "/out/sample-composed.wasm");
}

#[test]
fn workspace_manifest_path_text() {
    assert_eq!(workspace_manifest_path("working"), "working/Cargo.toml");
}

#[test]
fn compile_error_text() {
    assert_eq!(compile_error_message("boom"), "Compilation error: boom");
}

#[test]
fn created_workspace_already_lists_member() {
    let content = workspace_toml("sample");
    match add_workspace_member(&content, "sample") {
        Ok(None) => {}
        other => panic!("unexpected: {:?}", other.map(|m| m.map(|m| m.to_text()))),
    }
}

#[test]
fn new_member_is_appended() {
    let content = workspace_toml("first");
    match checked_add_workspace_member(&content, "second") {
        Ok(Some(m)) => assert_eq!(m.member_names().unwrap().len(), 2),
        _ => panic!("the checked call should add the member too"),
    }
    let manifest = match add_workspace_member(&content, "second") {
        Ok(Some(m)) => m,
        _ => panic!("the member should have been added"),
    };
    assert_eq!(
        manifest.member_names(),
        Some(vec![Some("first".to_string()), Some("second".to_string())])
    );
    let text = manifest.to_text();
    assert!(text.contains("\"second\""));
    // The written manifest lists both members when read again.
    match add_workspace_member(&text, "second") {
        Ok(None) => {}
        _ => panic!("the rewritten manifest should list the new member"),
    }
    match add_workspace_member(&text, "first") {
        Ok(None) => {}
        _ => panic!("the rewritten manifest should keep the old member"),
    }
}

#[test]
fn add_member_is_idempotent() {
    let content = "[workspace]\nmembers = []\n";
    let mut m = WorkspaceManifest::parse(content).unwrap();
    assert_eq!(m.has_member("a"), Some(false));
    assert!(m.add_member("a"));
    assert_eq!(m.has_member("a"), Some(true));
    let text = m.to_text();
    assert!(!m.add_member("a"));
    assert_eq!(m.to_text(), text);
    assert_eq!(m.member_names(), Some(vec![Some("a".to_string())]));
}

#[test]
fn non_string_members_are_kept() {
    let content = "[workspace]\nmembers = [1, \"b\"]\n";
    let m = WorkspaceManifest::parse(content).unwrap();
    assert_eq!(m.member_names(), Some(vec![None, Some("b".to_string())]));
    assert_eq!(m.has_member("b"), Some(true));
}

#[test]
fn inline_workspace_table_members() {
    let content = "workspace = { members = [\"x\"] }\n";
    let m = WorkspaceManifest::parse(content).unwrap();
    assert_eq!(m.member_names(), Some(vec![Some("x".to_string())]));
}

#[test]
fn manifest_without_members() {
    for content in ["[package]\nname = \"x\"\n", "[workspace]\nresolver = \"2\"\n", "[workspace]\nmembers = \"x\"\n"] {
        match checked_add_workspace_member(content, "sample") {
            Err(ManifestError::MissingMembers) => {}
            _ => panic!("expected a missing members error for {:?}", content),
        }
    }
}

#[test]
fn manifest_that_is_not_toml() {
    match add_workspace_member("[workspace\nmembers = [", "sample") {
        Err(ManifestError::Parse(message)) => assert!(!message.is_empty()),
        _ => panic!("expected a parse error"),
    }
    match checked_add_workspace_member("[workspace\nmembers = [", "sample") {
        Err(ManifestError::Parse(_)) => {}
        _ => panic!("expected a parse error"),
    }
}

fn raw_literal_after(text: &str, opening: &str) -> String {
    let start = text.find(opening).unwrap() + opening.len();
    let end = text[start..].find("\"#").unwrap();
    text[start..start + end].to_string()
}

#[test]
fn config_lib_gives_back_model_path_and_prompt() {
    let model_path = "models/a \"quoted\" path.gguf";
    let prompt = "<s>[INST] What is the capital of Sweden? [/INST] #tag\"";
    let lib = config_lib(model_path, prompt);
    assert_eq!(raw_literal_after(&lib, "let model_path = r#\""), model_path);
    assert_eq!(raw_literal_after(&lib, "let prompt = r#\""), prompt);
}

#[test]
fn generation_messages() {
    assert_eq!(created_workspace_message("working"), "Created workspace '\"working\"'");
    assert_eq!(
        created_component_message("/w/target/a-config-component.wasm"),
        "Created webassembly component: \"/w/target/a-config-component.wasm\""
    );
    assert_eq!(
        component_write_error_message("/w/x.wasm"),
        format!("Failed to write component to {:?}", std::path::PathBuf::from("/w/x.wasm"))
    );
    assert_eq!(
        composed_write_error_message("/o/a-composed.wasm"),
        "Failed to write composed component: /o/a-composed.wasm"
    );
    assert_eq!(
        composed_message("/o/a \"b\".wasm"),
        format!("Composed into webassembly component:\n{:?}", std::path::PathBuf::from("/o/a \"b\".wasm"))
    );
}

#[test]
fn written_manifest_keeps_other_entries() {
    let content = workspace_toml("a");
    let manifest = match add_workspace_member(&content, "b") {
        Ok(Some(m)) => m,
        _ => panic!("the member should have been added"),
    };
    let text = manifest.to_text();
    let doc = text.parse::<toml_edit::Document>().unwrap();
    assert_eq!(doc["workspace"]["resolver"].as_str(), Some("2"));
    assert_eq!(
        doc["workspace"]["dependencies"]["wit-bindgen"]["version"].as_str(),
        Some("0.19.2")
    );
    let reread = WorkspaceManifest::parse(&text).unwrap();
    assert_eq!(
        reread.member_names(),
        Some(vec![Some("a".to_string()), Some("b".to_string())])
    );
}
