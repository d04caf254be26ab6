//! The command line of the Binaryen experiment, which reads a configuration
//! module and writes a small module with data segments.

use vstd::prelude::*;

verus! {

/// The experiment's arguments: the configuration module to read.
#[derive(Debug)]
pub struct Args {
    pub config_module_path: String,
}

} // verus!
