//! The project description that a build starts from.

use vstd::prelude::*;
use vstd::string::StringExecFns;

verus! {

/// The type `semver::Version`, as `serde_semver` hands it on. The library
/// carries such a value through and claims nothing of what is inside.
#[verifier::external_type_specification]
#[verifier::external_body]
pub struct ExVersion(serde_semver::semver::Version);

/// A project: its name, its toolchain, where its outputs go, its version
/// and the executables to build.
#[derive(Debug)]
pub struct Config {
    pub name: String,
    pub compiler: String,
    pub build: BuildConfig,
    pub version: serde_semver::semver::Version,
    pub executables: Vec<ExecConfig>,
}

/// Where the outputs of a build go.
#[derive(Debug)]
pub struct BuildConfig {
    pub dir: String,
}

/// One executable: its name, the roots under which its sources are looked
/// for, and what its compiles are given.
#[derive(Debug)]
pub struct ExecConfig {
    pub name: String,
    pub src: Vec<String>,
    pub include_dirs: Option<Vec<String>>,
    pub flags: Option<Vec<String>>,
    pub options: Option<Vec<OptionConfig>>,
    pub packages: Option<Vec<String>>,
}

/// One build option, as a key and its value.
#[derive(Debug)]
pub struct OptionConfig {
    pub key: String,
    pub value: String,
}

/// The directory that outputs go to where the project names none.
pub open spec fn default_build_dir() -> Seq<char> {
    seq!['b', 'u', 'i', 'l', 'd']
}

impl Default for BuildConfig {
    fn default() -> (r: BuildConfig)
        ensures
            r.dir@ == default_build_dir(),
    {
        proof {
            reveal_strlit("build");
        }
        BuildConfig { dir: String::from_str("build") }
    }
}

} // verus!
