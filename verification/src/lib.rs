//! Verified core of the inf-wasi tooling: the configuration-component
//! generator (templates, build plan, workspace manifest editing) and the
//! request building of the inference engines.

use vstd::prelude::*;

pub mod build_type;
pub mod templates;
pub mod gen_config;
pub mod paths;
pub mod plan;
pub mod manifest;
pub mod options;
pub mod nn;
pub mod config;
pub mod engine;
pub mod openvino_engine;
pub mod inf;
pub mod inference;
pub mod cli;
pub mod api;
pub mod binaryen_tool;

verus! {

/// The specification of the crate's version string.
pub open spec fn spec_version() -> Seq<char> {
    "0.1.0"@
}

/// The version of this crate.
pub fn version() -> (v: &'static str)
    ensures
        v@ == spec_version(),
{
    "0.1.0"
}

/// The version of this crate as an owned string.
pub fn version_string() -> (v: String)
    ensures
        v@ == spec_version(),
{
    String::from_str(version())
}

} // verus!
