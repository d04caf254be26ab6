//! Everything a generation run computes before and between its file-system
//! and process steps: the paths it reads and writes, the text of the files
//! it writes, the cargo invocation, and the composition inputs.

use vstd::prelude::*;

use crate::build_type::BuildType;
use crate::gen_config::GenConfig;
use crate::paths::{is_absolute_path, push_path, spec_is_absolute, spec_push_path};
use crate::templates::{config_lib, spec_config_lib, spec_workspace_member_toml, workspace_member_toml};

verus! {

/// The target that the configuration crate is compiled for.
pub const WASM_TARGET: &'static str = "wasm32-unknown-unknown";

/// The file name of the prebuilt engine component inside the modules
/// directory.
pub const ENGINE_COMPONENT_FILE: &'static str = "engine-component.wasm";

/// The file name of the prebuilt inference component inside the modules
/// directory.
pub const INFERENCE_COMPONENT_FILE: &'static str = "inference-component.wasm";

/// The workspace manifest inside the working directory.
pub open spec fn spec_workspace_manifest_path(work_dir: Seq<char>) -> Seq<char> {
    work_dir + "/Cargo.toml"@
}

/// The source directory of the configuration crate.
pub open spec fn spec_config_src_dir(working_dir: Seq<char>, name: Seq<char>) -> Seq<char> {
    working_dir + "/"@ + name + "/src"@
}

/// The manifest of the configuration crate.
pub open spec fn spec_config_toml(working_dir: Seq<char>, name: Seq<char>) -> Seq<char> {
    working_dir + "/"@ + name + "/Cargo.toml"@
}

/// The `lib.rs` of the configuration crate.
pub open spec fn spec_config_lib_path(working_dir: Seq<char>, name: Seq<char>) -> Seq<char> {
    spec_config_src_dir(working_dir, name) + "/lib.rs"@
}

/// The arguments of the `cargo` command that builds the configuration crate.
pub open spec fn spec_build_args(name: Seq<char>, manifest: Seq<char>, build_type: BuildType) -> Seq<
    Seq<char>,
> {
    let release: Seq<Seq<char>> = if build_type == BuildType::Release {
        seq!["--release"@]
    } else {
        seq![]
    };
    seq!["build"@, "--package"@, name] + release + seq![
        "--manifest-path"@,
        manifest,
        "--target"@,
        WASM_TARGET@,
    ]
}

/// The core module that cargo produces for the configuration crate.
pub open spec fn spec_config_module_path(
    working_dir: Seq<char>,
    name: Seq<char>,
    build_type: BuildType,
) -> Seq<char> {
    working_dir + "/target/"@ + WASM_TARGET@ + "/"@ + build_type.spec_as_string() + "/"@ + name
        + ".wasm"@
}

/// The configuration component made from the core module.
pub open spec fn spec_component_path(working_dir: Seq<char>, name: Seq<char>) -> Seq<char> {
    working_dir + "/target/"@ + name + "-config-component.wasm"@
}

/// The prebuilt engine component.
pub open spec fn spec_engine_component_path(modules_dir: Seq<char>) -> Seq<char> {
    modules_dir + "/"@ + ENGINE_COMPONENT_FILE@
}

/// The file name of the composed component.
pub open spec fn spec_composed_file_name(name: Seq<char>) -> Seq<char> {
    name + "-composed.wasm"@
}

/// Where the composed component is written: the output directory, made
/// absolute against `current_dir` when it is relative, with the composed
/// file name pushed onto it.
pub open spec fn spec_composed_path(
    output_dir: Seq<char>,
    current_dir: Seq<char>,
    name: Seq<char>,
) -> Seq<char> {
    let dir = if spec_is_absolute(output_dir) {
        output_dir
    } else {
        spec_push_path(current_dir, output_dir)
    };
    spec_push_path(dir, spec_composed_file_name(name))
}

/// The message of a failed build of the configuration crate.
pub open spec fn spec_compile_error_message(stderr: Seq<char>) -> Seq<char> {
    "Compilation error: "@ + stderr
}

/// The computed part of a generation run, for a configuration and the
/// canonical working directory.
pub struct GenerationPlan {
    pub config_src_dir: String,
    pub config_toml: String,
    pub config_lib_path: String,
    pub member_toml: String,
    pub config_lib: String,
    pub build_args: Vec<String>,
    pub config_module_path: String,
    pub component_path: String,
    pub engine_component_path: String,
    pub search_paths: Vec<String>,
    pub definitions: Vec<String>,
    pub inference_component_path: String,
}

impl GenerationPlan {
    /// The plan is exactly the one that `config` and `working_dir` determine.
    pub open spec fn planned(&self, config: &GenConfig, working_dir: Seq<char>) -> bool {
        let name = config.name@;
        &&& self.config_src_dir@ == spec_config_src_dir(working_dir, name)
        &&& self.config_toml@ == spec_config_toml(working_dir, name)
        &&& self.config_lib_path@ == spec_config_lib_path(working_dir, name)
        &&& self.member_toml@ == spec_workspace_member_toml(name)
        &&& self.config_lib@ == spec_config_lib(config.model_path@, config.prompt@)
        &&& self.build_args.deep_view() == spec_build_args(
            name,
            spec_config_toml(working_dir, name),
            config.build_type,
        )
        &&& self.config_module_path@ == spec_config_module_path(
            working_dir,
            name,
            config.build_type,
        )
        &&& self.component_path@ == spec_component_path(working_dir, name)
        &&& self.engine_component_path@ == spec_engine_component_path(config.modules_dir@)
        &&& self.search_paths.deep_view() == seq![config.modules_dir@, working_dir + "/target"@]
        &&& self.definitions.deep_view() == seq![
            spec_engine_component_path(config.modules_dir@),
            spec_component_path(working_dir, name),
        ]
        &&& self.inference_component_path@ == spec_push_path(
            config.modules_dir@,
            INFERENCE_COMPONENT_FILE@,
        )
    }

    /// The plan of a generation run of `config` in the canonical working
    /// directory `working_dir`.
    pub fn new(config: &GenConfig, working_dir: &str) -> (plan: Self)
        ensures
            plan.planned(config, working_dir@),
    {
        let name = config.name.as_str();
        let config_src_dir = join3(working_dir, "/", name).concat("/src");
        let config_toml = join3(working_dir, "/", name).concat("/Cargo.toml");
        let config_lib_path = join3(working_dir, "/", name).concat("/src").concat("/lib.rs");
        let build_args = build_args(name, config_toml.as_str(), config.build_type);
        let config_module_path = join3(working_dir, "/target/", WASM_TARGET).concat("/").concat(
            config.build_type.as_string(),
        ).concat("/").concat(name).concat(".wasm");
        let component_path = join3(working_dir, "/target/", name).concat("-config-component.wasm");
        let engine_component_path = join3(config.modules_dir.as_str(), "/", ENGINE_COMPONENT_FILE);
        let mut search_paths: Vec<String> = Vec::new();
        search_paths.push(config.modules_dir.clone());
        search_paths.push(String::from_str(working_dir).concat("/target"));
        let mut definitions: Vec<String> = Vec::new();
        definitions.push(engine_component_path.clone());
        definitions.push(component_path.clone());
        let inference_component_path = push_path(
            config.modules_dir.as_str(),
            INFERENCE_COMPONENT_FILE,
        );
        let plan = GenerationPlan {
            config_src_dir,
            config_toml,
            config_lib_path,
            member_toml: workspace_member_toml(name),
            config_lib: config_lib(config.model_path.as_str(), config.prompt.as_str()),
            build_args,
            config_module_path,
            component_path,
            engine_component_path,
            search_paths,
            definitions,
            inference_component_path,
        };
        assert(plan.search_paths.deep_view() =~= seq![
            config.modules_dir@,
            working_dir@ + "/target"@,
        ]);
        assert(plan.definitions.deep_view() =~= seq![
            spec_engine_component_path(config.modules_dir@),
            spec_component_path(working_dir@, name@),
        ]);
        plan
    }
}

/// The component that a run writes is the one it composes, beside the
/// engine component of the modules directory, and it is made from the module
/// that the cargo invocation builds from the manifest the run writes.
pub proof fn lemma_plan_composes_written_component(
    plan: &GenerationPlan,
    config: &GenConfig,
    working_dir: Seq<char>,
)
    requires
        plan.planned(config, working_dir),
    ensures
        plan.definitions.deep_view() == seq![plan.engine_component_path@, plan.component_path@],
        plan.build_args.deep_view().contains(plan.config_toml@),
        plan.build_args.deep_view().contains(config.name@),
        plan.config_lib_path@ == plan.config_src_dir@ + "/lib.rs"@,
{
    let args = plan.build_args.deep_view();
    if config.build_type == BuildType::Release {
        assert(args[5] == plan.config_toml@);
    } else {
        assert(args[4] == plan.config_toml@);
    }
    assert(args[2] == config.name@);
}

/// A relative output directory is taken relative to the current directory:
/// the composed component goes to the output directory pushed onto the
/// current directory, with `<name>-composed.wasm` pushed onto that; an
/// absolute output directory is used as it is.
pub proof fn lemma_composed_path_location(output_dir: Seq<char>, current_dir: Seq<char>, name: Seq<char>)
    ensures
        !spec_is_absolute(output_dir) ==> spec_composed_path(output_dir, current_dir, name)
            == spec_push_path(spec_push_path(current_dir, output_dir), name + "-composed.wasm"@),
        spec_is_absolute(output_dir) ==> spec_composed_path(output_dir, current_dir, name)
            == spec_push_path(output_dir, name + "-composed.wasm"@),
{
}

/// Spelled out: with a current directory and a relative output directory
/// that neither start nor end with `/`, and a name that does not start with
/// `/`, the composed component is
/// `<current_dir>/<output_dir>/<name>-composed.wasm`.
pub proof fn lemma_composed_path_relative_text(
    output_dir: Seq<char>,
    current_dir: Seq<char>,
    name: Seq<char>,
)
    requires
        current_dir.len() > 0,
        current_dir.last() != '/',
        output_dir.len() > 0,
        output_dir[0] != '/',
        output_dir.last() != '/',
        name.len() == 0 || name[0] != '/',
    ensures
        spec_composed_path(output_dir, current_dir, name) == current_dir + seq!['/'] + output_dir
            + seq!['/'] + name + "-composed.wasm"@,
{
    reveal_strlit("-composed.wasm");
    let dir = current_dir + seq!['/'] + output_dir;
    assert(dir.last() == output_dir.last());
    let file = name + "-composed.wasm"@;
    assert(file.len() > 0);
    if name.len() == 0 {
        assert(file[0] == '-');
    } else {
        assert(file[0] == name[0]);
    }
    assert(spec_push_path(current_dir, output_dir) == dir);
    assert(spec_push_path(dir, file) == dir + seq!['/'] + file);
    assert(dir + seq!['/'] + file =~= current_dir + seq!['/'] + output_dir + seq!['/'] + name
        + "-composed.wasm"@);
}

/// The cargo invocation builds the named package from the given manifest for
/// `wasm32-unknown-unknown`, adding `--release` exactly for a release build;
/// the module it produces is
/// `<working_dir>/target/wasm32-unknown-unknown/<debug|release>/<name>.wasm`,
/// and the configuration crate lives in `<working_dir>/<name>`.
pub proof fn lemma_build_layout(working_dir: Seq<char>, name: Seq<char>, manifest: Seq<char>)
    ensures
        spec_build_args(name, manifest, BuildType::Debug) == seq![
            "build"@,
            "--package"@,
            name,
            "--manifest-path"@,
            manifest,
            "--target"@,
            "wasm32-unknown-unknown"@,
        ],
        spec_build_args(name, manifest, BuildType::Release) == seq![
            "build"@,
            "--package"@,
            name,
            "--release"@,
            "--manifest-path"@,
            manifest,
            "--target"@,
            "wasm32-unknown-unknown"@,
        ],
        spec_config_module_path(working_dir, name, BuildType::Debug) == working_dir
            + "/target/"@ + "wasm32-unknown-unknown"@ + "/"@ + "debug"@ + "/"@ + name + ".wasm"@,
        spec_config_module_path(working_dir, name, BuildType::Release) == working_dir
            + "/target/"@ + "wasm32-unknown-unknown"@ + "/"@ + "release"@ + "/"@ + name + ".wasm"@,
        spec_config_toml(working_dir, name) == working_dir + "/"@ + name + "/Cargo.toml"@,
        spec_config_src_dir(working_dir, name) == working_dir + "/"@ + name + "/src"@,
        spec_component_path(working_dir, name) == working_dir + "/target/"@ + name
            + "-config-component.wasm"@,
{
    assert(spec_build_args(name, manifest, BuildType::Debug) =~= seq![
        "build"@,
        "--package"@,
        name,
        "--manifest-path"@,
        manifest,
        "--target"@,
        "wasm32-unknown-unknown"@,
    ]);
    assert(spec_build_args(name, manifest, BuildType::Release) =~= seq![
        "build"@,
        "--package"@,
        name,
        "--release"@,
        "--manifest-path"@,
        manifest,
        "--target"@,
        "wasm32-unknown-unknown"@,
    ]);
}

/// `a`, `b` and `c` one after the other.
fn join3(a: &str, b: &str, c: &str) -> (s: String)
    ensures
        s@ == a@ + b@ + c@,
{
    let mut s = String::from_str(a);
    s.append(b);
    s.append(c);
    s
}

/// The arguments of the `cargo` command that builds the configuration crate
/// `name` from its manifest: a release build adds `--release`.
pub fn build_args(name: &str, manifest: &str, build_type: BuildType) -> (args: Vec<String>)
    ensures
        args.deep_view() == spec_build_args(name@, manifest@, build_type),
{
    let mut args: Vec<String> = Vec::new();
    args.push(String::from_str("build"));
    args.push(String::from_str("--package"));
    args.push(String::from_str(name));
    if build_type.is_release() {
        args.push(String::from_str("--release"));
    }
    args.push(String::from_str("--manifest-path"));
    args.push(String::from_str(manifest));
    args.push(String::from_str("--target"));
    args.push(String::from_str(WASM_TARGET));
    assert(args.deep_view() =~= spec_build_args(name@, manifest@, build_type));
    args
}

/// The workspace manifest inside `work_dir`.
pub fn workspace_manifest_path(work_dir: &str) -> (p: String)
    ensures
        p@ == spec_workspace_manifest_path(work_dir@),
{
    String::from_str(work_dir).concat("/Cargo.toml")
}

/// Whether writing the composed component needs the current directory: it
/// does when the output directory is relative.
pub fn needs_current_dir(config: &GenConfig) -> (b: bool)
    ensures
        b == !spec_is_absolute(config.output_dir@),
{
    !is_absolute_path(config.output_dir.as_str())
}

/// Where the composed component of `config` is written; `current_dir` is
/// read only when the output directory is relative.
pub fn composed_path(config: &GenConfig, current_dir: &str) -> (p: String)
    ensures
        p@ == spec_composed_path(config.output_dir@, current_dir@, config.name@),
{
    let dir = if is_absolute_path(config.output_dir.as_str()) {
        config.output_dir.clone()
    } else {
        push_path(current_dir, config.output_dir.as_str())
    };
    let file = String::from_str(config.name.as_str()).concat("-composed.wasm");
    push_path(dir.as_str(), file.as_str())
}

/// The `Debug` text of a path (`format!("{:?}", Path::new(path))`): the path
/// quoted, with special characters escaped.
pub uninterp spec fn path_debug_text(path: Seq<char>) -> Seq<char>;

/// `std::path::Path`'s `Debug`, written with `format!`.
#[verifier::external_body]
fn path_debug(path: &str) -> (s: String)
    ensures
        s@ == path_debug_text(path@),
{
    format!("{:?}", std::path::Path::new(path))
}

/// What is printed once the working directory has been created.
pub fn created_workspace_message(work_dir: &str) -> (m: String)
    ensures
        m@ == "Created workspace '"@ + path_debug_text(work_dir@) + "'"@,
{
    String::from_str("Created workspace '").concat(path_debug(work_dir).as_str()).concat("'")
}

/// What is printed once the configuration component has been written.
pub fn created_component_message(component_path: &str) -> (m: String)
    ensures
        m@ == "Created webassembly component: "@ + path_debug_text(component_path@),
{
    String::from_str("Created webassembly component: ").concat(path_debug(component_path).as_str())
}

/// The error when the configuration component cannot be written.
pub fn component_write_error_message(component_path: &str) -> (m: String)
    ensures
        m@ == "Failed to write component to "@ + path_debug_text(component_path@),
{
    String::from_str("Failed to write component to ").concat(path_debug(component_path).as_str())
}

/// The error when the composed component cannot be written.
pub fn composed_write_error_message(composed_path: &str) -> (m: String)
    ensures
        m@ == "Failed to write composed component: "@ + composed_path@,
{
    String::from_str("Failed to write composed component: ").concat(composed_path)
}

/// What the command line prints once the composed component is written.
pub fn composed_message(composed_path: &str) -> (m: String)
    ensures
        m@ == "Composed into webassembly component:\n"@ + path_debug_text(composed_path@),
{
    String::from_str("Composed into webassembly component:\n").concat(path_debug(composed_path).as_str())
}

/// The message of a failed build of the configuration crate, given what the
/// build wrote to its standard error.
pub fn compile_error_message(stderr: &str) -> (m: String)
    ensures
        m@ == spec_compile_error_message(stderr@),
{
    String::from_str("Compilation error: ").concat(stderr)
}

} // verus!
