//! The web front of the component generator: its settings, the body of a
//! `POST /generate` request, and the reply to it.

use vstd::prelude::*;

use crate::build_type::{build_type_named, BuildType};
use crate::gen_config::GenConfig;

verus! {

/// The server's arguments: the working, modules and output directories, and
/// the name of the build type.
#[derive(Debug)]
pub struct Args {
    pub work_dir: String,
    pub modules_dir: String,
    pub output_dir: String,
    pub build_type: String,
}

/// What every generation request of the server shares.
#[derive(Debug, Clone)]
pub struct GenAppData {
    pub work_dir: String,
    pub modules_dir: String,
    pub output_dir: String,
    pub build_type: BuildType,
}

/// The body of a generation request.
#[derive(Debug)]
pub struct InputData {
    pub config_name: String,
    pub model_path: String,
    pub prompt: String,
}

/// The media type of a generated component.
pub open spec fn spec_wasm_content_type() -> Seq<char> {
    "application/wasm"@
}

/// The reply body when the composed component cannot be read.
pub open spec fn spec_read_failed_body() -> Seq<char> {
    "Error reading wasm file"@
}

/// The reply body when the generation fails.
pub open spec fn spec_generate_failed_body() -> Seq<char> {
    "Error generating wasm file"@
}

/// How a generation request went.
pub enum GenerateOutcome {
    /// The component was generated and read back.
    Composed(Vec<u8>),
    /// The component was generated but could not be read.
    ReadFailed,
    /// The generation failed.
    GenerateFailed,
}

/// The reply to a generation request.
pub enum Reply {
    /// `200 OK` with a body of the given media type.
    Success { content_type: String, body: Vec<u8> },
    /// `500 Internal Server Error` with a text body.
    InternalServerError(String),
}

impl GenAppData {
    /// The server's shared settings.
    pub fn new(work_dir: String, modules_dir: String, output_dir: String, build_type: BuildType) -> (d: Self)
        ensures
            d.work_dir == work_dir,
            d.modules_dir == modules_dir,
            d.output_dir == output_dir,
            d.build_type == build_type,
    {
        GenAppData { work_dir, modules_dir, output_dir, build_type }
    }

    /// The generation run that a request asks for: its name, model path and
    /// prompt with the server's directories and build type.
    pub fn gen_config(&self, input: &InputData) -> (c: GenConfig)
        ensures
            c.name@ == input.config_name@,
            c.model_path@ == input.model_path@,
            c.prompt@ == input.prompt@,
            c.build_type == self.build_type,
            c.work_dir@ == self.work_dir@,
            c.modules_dir@ == self.modules_dir@,
            c.output_dir@ == self.output_dir@,
    {
        GenConfig {
            name: input.config_name.clone(),
            model_path: input.model_path.clone(),
            prompt: input.prompt.clone(),
            build_type: self.build_type,
            work_dir: self.work_dir.clone(),
            modules_dir: self.modules_dir.clone(),
            output_dir: self.output_dir.clone(),
        }
    }
}

impl Args {
    /// The shared settings that the arguments ask for; the build type is
    /// release only when it is named `release`.
    pub fn app_data(self) -> (d: GenAppData)
        ensures
            d.work_dir == self.work_dir,
            d.modules_dir == self.modules_dir,
            d.output_dir == self.output_dir,
            d.build_type == build_type_named(self.build_type@),
    {
        let build_type = BuildType::from(self.build_type);
        GenAppData::new(self.work_dir, self.modules_dir, self.output_dir, build_type)
    }
}

/// The reply to a generation request: the component as `application/wasm`,
/// or an internal error that says which step failed.
pub fn reply(outcome: GenerateOutcome) -> (r: Reply)
    ensures
        match outcome {
            GenerateOutcome::Composed(bytes) => r matches Reply::Success { content_type, body } && content_type@
                == spec_wasm_content_type() && body == bytes,
            GenerateOutcome::ReadFailed => r matches Reply::InternalServerError(m) && m@
                == spec_read_failed_body(),
            GenerateOutcome::GenerateFailed => r matches Reply::InternalServerError(m) && m@
                == spec_generate_failed_body(),
        },
{
    match outcome {
        GenerateOutcome::Composed(bytes) => Reply::Success {
            content_type: String::from_str("application/wasm"),
            body: bytes,
        },
        GenerateOutcome::ReadFailed => Reply::InternalServerError(
            String::from_str("Error reading wasm file"),
        ),
        GenerateOutcome::GenerateFailed => Reply::InternalServerError(
            String::from_str("Error generating wasm file"),
        ),
    }
}

} // verus!
