//! The settings of one generation run.

use vstd::prelude::*;

use crate::build_type::BuildType;

verus! {

/// What to generate and where: the component's name, the model path and the
/// prompt it returns, and the directories used on the way. Paths are held as
/// text.
#[derive(Debug)]
pub struct GenConfig {
    pub name: String,
    pub model_path: String,
    pub prompt: String,
    pub work_dir: String,
    pub build_type: BuildType,
    pub modules_dir: String,
    pub output_dir: String,
}

/// The directory that the prebuilt engine and inference components are read
/// from when nothing else is chosen.
pub open spec fn default_modules_dir() -> Seq<char> {
    "modules"@
}

/// The directory that the composed component is written to when nothing else
/// is chosen.
pub open spec fn default_output_dir() -> Seq<char> {
    "target"@
}

impl GenConfig {
    /// A configuration with the given name, model path, prompt and working
    /// directory, a debug build, modules read from `modules` and output
    /// written to `target`.
    pub fn new(name: &str, model_path: String, prompt: &str, work_dir: String) -> (c: Self)
        ensures
            c.name@ == name@,
            c.model_path == model_path,
            c.prompt@ == prompt@,
            c.work_dir == work_dir,
            c.build_type == BuildType::Debug,
            c.modules_dir@ == default_modules_dir(),
            c.output_dir@ == default_output_dir(),
    {
        GenConfig {
            name: String::from_str(name),
            model_path,
            prompt: String::from_str(prompt),
            build_type: BuildType::Debug,
            work_dir,
            modules_dir: String::from_str("modules"),
            output_dir: String::from_str("target"),
        }
    }
}

} // verus!
