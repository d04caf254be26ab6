//! The kind of cargo build used for the generated configuration component.

use vstd::prelude::*;

verus! {

/// Whether the configuration component is built in debug or release mode.
#[derive(Debug, Clone, Copy, PartialEq, Eq, Structural)]
pub enum BuildType {
    Debug,
    Release,
}

/// The name that selects the release build; every other name selects debug.
pub open spec fn release_name() -> Seq<char> {
    "release"@
}

/// The build type that a name selects: only the exact name `release`
/// selects a release build.
pub open spec fn build_type_named(name: Seq<char>) -> BuildType {
    if name == release_name() {
        BuildType::Release
    } else {
        BuildType::Debug
    }
}

impl BuildType {
    /// The directory name that cargo uses for this build type.
    pub open spec fn spec_as_string(self) -> Seq<char> {
        match self {
            BuildType::Debug => "debug"@,
            BuildType::Release => "release"@,
        }
    }

    /// The directory name that cargo uses for this build type
    /// (`debug` or `release`).
    pub fn as_string(&self) -> (s: &'static str)
        ensures
            s@ == self.spec_as_string(),
    {
        match self {
            BuildType::Debug => "debug",
            BuildType::Release => "release",
        }
    }

    /// Whether this is a release build.
    pub fn is_release(&self) -> (b: bool)
        ensures
            b == (*self == BuildType::Release),
    {
        match self {
            BuildType::Debug => false,
            BuildType::Release => true,
        }
    }

    /// The build type selected by `name`: `release` selects a release
    /// build, any other text (`Release` included) a debug build.
    pub fn from_name(name: &str) -> (b: BuildType)
        ensures
            b == build_type_named(name@),
    {
        let given = String::from_str(name);
        let release = String::from_str("release");
        if given == release {
            BuildType::Release
        } else {
            BuildType::Debug
        }
    }
}

impl<'a> From<&'a str> for BuildType {
    fn from(name: &'a str) -> (b: BuildType) {
        BuildType::from_name(name)
    }
}

impl<'a> vstd::std_specs::convert::FromSpecImpl<&'a str> for BuildType {
    open spec fn obeys_from_spec() -> bool {
        true
    }

    open spec fn from_spec(name: &'a str) -> BuildType {
        build_type_named(name@)
    }
}

impl From<String> for BuildType {
    fn from(name: String) -> (b: BuildType) {
        BuildType::from_name(name.as_str())
    }
}

impl vstd::std_specs::convert::FromSpecImpl<String> for BuildType {
    open spec fn obeys_from_spec() -> bool {
        true
    }

    open spec fn from_spec(name: String) -> BuildType {
        build_type_named(name@)
    }
}

/// Reading back the name of a build type gives the same build type.
pub proof fn lemma_build_type_name_roundtrip(b: BuildType)
    ensures
        build_type_named(b.spec_as_string()) == b,
{
    reveal_strlit("debug");
    reveal_strlit("release");
    assert("debug"@[0] != "release"@[0]);
}

/// Exactly the name `release` selects a release build; every other name,
/// `Release` among them, selects a debug build.
pub proof fn lemma_only_release_selects_release(name: Seq<char>)
    ensures
        (build_type_named(name) == BuildType::Release) <==> name == "release"@,
        (build_type_named(name) == BuildType::Debug) <==> name != "release"@,
{
}

} // verus!
