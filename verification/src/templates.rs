//! The text of the files that make up the generated configuration crate:
//! the workspace manifest, the member manifest and the member's `lib.rs`.

use vstd::prelude::*;

verus! {

/// Workspace manifest, up to the name of its first member.
pub const WORKSPACE_TOML_HEAD: &'static str = "\n[workspace]\nresolver = \"2\"\nmembers = [\n    \"";

/// Workspace manifest, after the name of its first member.
pub const WORKSPACE_TOML_TAIL: &'static str = "\",\n]\n[workspace.dependencies]\nwit-bindgen = { version = \"0.19.2\", default-features = true, features = ['macros'] }\n";

/// Member manifest, up to the package name.
pub const MEMBER_TOML_HEAD: &'static str = "\n[package]\nname = \"";

/// Member manifest, after the package name.
pub const MEMBER_TOML_TAIL: &'static str = "\"\nversion = \"0.1.0\"\nedition = \"2021\"\n\n[dependencies]\nwit-bindgen = { workspace = true }\n\n[lib]\ncrate-type = [\"cdylib\"]\n";

/// The bindings that the generated configuration crate declares for the
/// `config-world` world.
pub const SRC_HEADER: &'static str = "\nwit_bindgen::generate!({\n    inline: \"\n      package inf:wasi;\n\n      world config-world {\n        export config;\n        export config-types;\n      }\n\n      interface config-types {\n        record config {\n          model-path: string,\n          prompt: string,\n        }\n      }\n\n      interface config {\n        use config-types.{config};\n        get-config: func() -> config;\n      }\n    \",\n    world: \"config-world\",\n    exports: {\n        \"inf:wasi/config\": Exports\n    },\n});\n";

/// Source of the configuration crate, from the end of the bindings up to the
/// model path.
pub const CONFIG_LIB_BEFORE_MODEL: &'static str = "\nuse crate::exports::inf::wasi::config::Guest;\nuse crate::exports::inf::wasi::config_types::Config;\n\nstruct Exports;\n\nimpl Guest for Exports {\n    fn get_config() -> Config {\n        let model_path = r#\"";

/// Source of the configuration crate, between the model path and the prompt.
pub const CONFIG_LIB_BEFORE_PROMPT: &'static str = "\"#;\n        let prompt = r#\"";

/// Source of the configuration crate, after the prompt.
pub const CONFIG_LIB_TAIL: &'static str = "\"#;\n        Config {\n            model_path: model_path.to_string(),\n            prompt: prompt.to_string(),\n        }\n    }\n}";

/// The workspace manifest whose only member is `name`.
pub open spec fn spec_workspace_toml(name: Seq<char>) -> Seq<char> {
    WORKSPACE_TOML_HEAD@ + name + WORKSPACE_TOML_TAIL@
}

/// The manifest of the configuration crate `name`.
pub open spec fn spec_workspace_member_toml(name: Seq<char>) -> Seq<char> {
    MEMBER_TOML_HEAD@ + name + MEMBER_TOML_TAIL@
}

/// The `lib.rs` of a configuration crate whose `get-config` returns
/// `model_path` and `prompt`.
pub open spec fn spec_config_lib(model_path: Seq<char>, prompt: Seq<char>) -> Seq<char> {
    SRC_HEADER@ + CONFIG_LIB_BEFORE_MODEL@ + model_path + CONFIG_LIB_BEFORE_PROMPT@ + prompt
        + CONFIG_LIB_TAIL@
}

/// The workspace manifest that is written when the working directory is
/// created, with `name` as its only member.
pub fn workspace_toml(name: &str) -> (s: String)
    ensures
        s@ == spec_workspace_toml(name@),
{
    let mut s = String::from_str(WORKSPACE_TOML_HEAD);
    s.append(name);
    s.append(WORKSPACE_TOML_TAIL);
    s
}

/// The manifest of the configuration crate `name`: a `cdylib` that depends
/// on the workspace's `wit-bindgen`.
pub fn workspace_member_toml(name: &str) -> (s: String)
    ensures
        s@ == spec_workspace_member_toml(name@),
{
    let mut s = String::from_str(MEMBER_TOML_HEAD);
    s.append(name);
    s.append(MEMBER_TOML_TAIL);
    s
}

/// The `lib.rs` of the configuration crate: it exports `get-config`, which
/// returns the given model path and prompt.
pub fn config_lib(model_path: &str, prompt: &str) -> (s: String)
    ensures
        s@ == spec_config_lib(model_path@, prompt@),
{
    let mut s = String::from_str(SRC_HEADER);
    s.append(CONFIG_LIB_BEFORE_MODEL);
    s.append(model_path);
    s.append(CONFIG_LIB_BEFORE_PROMPT);
    s.append(prompt);
    s.append(CONFIG_LIB_TAIL);
    s
}

/// Whether `s` holds no `"#`, the sequence that closes a raw string literal
/// `r#"..."#`.
pub open spec fn no_raw_string_end(s: Seq<char>) -> bool {
    forall|i: int| 0 <= i < s.len() - 1 ==> !(#[trigger] s[i] == '"' && s[i + 1] == '#')
}

/// Whether the raw string literal whose contents start at `start` in `text`
/// holds `value`: `value` stands there, and the first `"#` from `start` on is
/// the one right after it.
pub open spec fn raw_string_holds(text: Seq<char>, start: int, value: Seq<char>) -> bool {
    &&& 0 <= start
    &&& start + value.len() + 2 <= text.len()
    &&& text.subrange(start, start + value.len()) == value
    &&& text[start + value.len()] == '"'
    &&& text[start + value.len() + 1] == '#'
    &&& forall|i: int|
        start <= i < start + value.len() ==> !(#[trigger] text[i] == '"' && text[i + 1] == '#')
}

/// Where the model path's literal starts in the configuration crate's source.
pub open spec fn config_lib_model_start() -> int {
    SRC_HEADER@.len() + CONFIG_LIB_BEFORE_MODEL@.len() as int
}

/// Where the prompt's literal starts in the configuration crate's source.
pub open spec fn config_lib_prompt_start(model_path: Seq<char>) -> int {
    config_lib_model_start() + model_path.len() as int + CONFIG_LIB_BEFORE_PROMPT@.len() as int
}

/// The configuration crate's source is this fixed text with the model path
/// and the prompt in their places: the bindings, `get_config` opening a raw
/// literal for the model path, then one for the prompt, and a `Config` whose
/// `model_path` is built from the first literal and whose `prompt` from the
/// second.
pub proof fn lemma_config_lib_text(model_path: Seq<char>, prompt: Seq<char>)
    ensures
        spec_config_lib(model_path, prompt) == "\nwit_bindgen::generate!({\n    inline: \"\n      package inf:wasi;\n\n      world config-world {\n        export config;\n        export config-types;\n      }\n\n      interface config-types {\n        record config {\n          model-path: string,\n          prompt: string,\n        }\n      }\n\n      interface config {\n        use config-types.{config};\n        get-config: func() -> config;\n      }\n    \",\n    world: \"config-world\",\n    exports: {\n        \"inf:wasi/config\": Exports\n    },\n});\n"@ + "\nuse crate::exports::inf::wasi::config::Guest;\nuse crate::exports::inf::wasi::config_types::Config;\n\nstruct Exports;\n\nimpl Guest for Exports {\n    fn get_config() -> Config {\n        let model_path = r#\""@ + model_path + "\"#;\n        let prompt = r#\""@ + prompt + "\"#;\n        Config {\n            model_path: model_path.to_string(),\n            prompt: prompt.to_string(),\n        }\n    }\n}"@,
{
}

/// The generated `get-config` gives back the model path and the prompt
/// unchanged: each stands in a raw string literal, opened by
/// `let model_path = r#"` and `let prompt = r#"`, that holds exactly it,
/// provided neither contains `"#`.
pub proof fn lemma_config_lib_roundtrip(model_path: Seq<char>, prompt: Seq<char>)
    requires
        no_raw_string_end(model_path),
        no_raw_string_end(prompt),
    ensures
        raw_string_holds(spec_config_lib(model_path, prompt), config_lib_model_start(), model_path),
        raw_string_holds(
            spec_config_lib(model_path, prompt),
            config_lib_prompt_start(model_path),
            prompt,
        ),
        spec_config_lib(model_path, prompt).subrange(
            config_lib_model_start() - 20,
            config_lib_model_start(),
        ) == "let model_path = r#\""@,
        spec_config_lib(model_path, prompt).subrange(
            config_lib_prompt_start(model_path) - 16,
            config_lib_prompt_start(model_path),
        ) == "let prompt = r#\""@,
        spec_config_lib(model_path, prompt).subrange(
            config_lib_prompt_start(model_path) + prompt.len(),
            spec_config_lib(model_path, prompt).len() as int,
        ) == "\"#;\n        Config {\n            model_path: model_path.to_string(),\n            prompt: prompt.to_string(),\n        }\n    }\n}"@,
{
    let a = SRC_HEADER@ + CONFIG_LIB_BEFORE_MODEL@;
    let b = CONFIG_LIB_BEFORE_PROMPT@;
    let c = CONFIG_LIB_TAIL@;
    let t = spec_config_lib(model_path, prompt);
    let m = model_path;
    let p = prompt;
    reveal_strlit("\"#;\n        let prompt = r#\"");
    reveal_strlit("\"#;\n        Config {\n            model_path: model_path.to_string(),\n            prompt: prompt.to_string(),\n        }\n    }\n}");
    reveal_strlit("\nuse crate::exports::inf::wasi::config::Guest;\nuse crate::exports::inf::wasi::config_types::Config;\n\nstruct Exports;\n\nimpl Guest for Exports {\n    fn get_config() -> Config {\n        let model_path = r#\"");
    reveal_strlit("let model_path = r#\"");
    reveal_strlit("let prompt = r#\"");
    assert(t =~= a + m + b + p + c);
    let ms = a.len() as int;
    let ps = ms + m.len() + b.len();
    assert(ms == config_lib_model_start());
    assert(ps == config_lib_prompt_start(m));
    assert forall|k: int| 0 <= k < m.len() implies #[trigger] t[ms + k] == m[k] by {}
    assert forall|k: int| 0 <= k < b.len() implies #[trigger] t[ms + m.len() + k] == b[k] by {}
    assert forall|k: int| 0 <= k < p.len() implies #[trigger] t[ps + k] == p[k] by {}
    assert forall|k: int| 0 <= k < c.len() implies #[trigger] t[ps + p.len() + k] == c[k] by {}
    assert(t.subrange(ms, ms + m.len()) =~= m);
    assert(t.subrange(ps, ps + p.len()) =~= p);
    assert forall|i: int| ms <= i < ms + m.len() implies !(#[trigger] t[i] == '"' && t[i + 1]
        == '#') by {
        if i + 1 < ms + m.len() {
            assert(t[i] == m[i - ms] && t[i + 1] == m[i - ms + 1]);
        } else {
            assert(t[i + 1] == b[0]);
        }
    }
    assert forall|i: int| ps <= i < ps + p.len() implies !(#[trigger] t[i] == '"' && t[i + 1]
        == '#') by {
        if i + 1 < ps + p.len() {
            assert(t[i] == p[i - ps] && t[i + 1] == p[i - ps + 1]);
        } else {
            assert(t[i + 1] == c[0]);
        }
    }
    assert forall|k: int| 0 <= k < 20 implies #[trigger] t[ms - 20 + k] == a[ms - 20 + k] by {}
    assert(t.subrange(ms - 20, ms) =~= "let model_path = r#\""@);
    assert forall|k: int| 0 <= k < 16 implies #[trigger] t[ps - 16 + k] == b[b.len() - 16 + k] by {}
    assert(t.subrange(ps - 16, ps) =~= "let prompt = r#\""@);
    assert(t.subrange(ps + p.len(), t.len() as int) =~= c);
}

/// The workspace manifest written for a new working directory lists exactly
/// the given crate as its member, with resolver 2 and `wit-bindgen` 0.19.2 as
/// a workspace dependency; the member manifest names the crate as a `cdylib`
/// package that uses the workspace's `wit-bindgen`.
pub proof fn lemma_manifest_texts(name: Seq<char>)
    ensures
        spec_workspace_toml(name) == "\n[workspace]\nresolver = \"2\"\nmembers = [\n    \""@ + name + "\",\n]\n[workspace.dependencies]\nwit-bindgen = { version = \"0.19.2\", default-features = true, features = ['macros'] }\n"@,
        spec_workspace_member_toml(name) == "\n[package]\nname = \""@ + name + "\"\nversion = \"0.1.0\"\nedition = \"2021\"\n\n[dependencies]\nwit-bindgen = { workspace = true }\n\n[lib]\ncrate-type = [\"cdylib\"]\n"@,
{
}

} // verus!
