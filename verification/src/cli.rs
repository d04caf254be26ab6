//! The command line of the component generator.

use vstd::prelude::*;

use crate::build_type::BuildType;
use crate::gen_config::GenConfig;

verus! {

/// The generator's arguments: the component's name, the model path and
/// prompt it returns, and the working, modules and output directories.
#[derive(Debug)]
pub struct Args {
    pub name: String,
    pub model_path: String,
    pub prompt: String,
    pub work_dir: String,
    pub modules_dir: String,
    pub output_dir: String,
}

impl Args {
    /// The generation run that the arguments ask for, as a debug build.
    pub fn gen_config(self) -> (c: GenConfig)
        ensures
            c.name == self.name,
            c.model_path == self.model_path,
            c.prompt == self.prompt,
            c.work_dir == self.work_dir,
            c.build_type == BuildType::Debug,
            c.modules_dir == self.modules_dir,
            c.output_dir == self.output_dir,
    {
        GenConfig {
            name: self.name,
            model_path: self.model_path,
            prompt: self.prompt,
            work_dir: self.work_dir,
            build_type: BuildType::Debug,
            modules_dir: self.modules_dir,
            output_dir: self.output_dir,
        }
    }
}

} // verus!
