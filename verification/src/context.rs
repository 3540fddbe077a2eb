//! The build-time facts that the build orchestrator supplies, and the one
//! fatal configuration error the planner can report.

use vstd::prelude::*;

verus! {

/// Everything the planner reads, gathered once per build invocation.
///
/// Each field mirrors one environment-style signal handed over by the build
/// orchestrator. A `None` records that the corresponding signal was absent.
/// The target-environment signal doubles as the marker that the routine runs
/// inside a build-configuration step, so its absence is a fatal error rather
/// than a silent skip.
pub struct BuildContext {
    /// Identifier of the ABI/toolchain family, e.g. `msvc` or `gnu`.
    pub target_environment: Option<String>,
    /// Identifier of the target architecture, e.g. `x86_64`.
    pub target_architecture: Option<String>,
    /// The build profile, `debug` or `release`.
    pub build_profile: Option<String>,
    /// A directory writable during the build, where the stub library may go.
    pub output_directory: String,
}

/// The mathematical image of a [`BuildContext`]: the same four signals with
/// every piece of text seen as a sequence of characters.
pub ghost struct BuildContextView {
    pub target_environment: Option<Seq<char>>,
    pub target_architecture: Option<Seq<char>>,
    pub build_profile: Option<Seq<char>>,
    pub output_directory: Seq<char>,
}

/// The view of an optional piece of text.
pub open spec fn text_view(t: Option<String>) -> Option<Seq<char>> {
    match t {
        Option::Some(s) => Option::Some(s@),
        Option::None => Option::None,
    }
}

impl View for BuildContext {
    type V = BuildContextView;

    open spec fn view(&self) -> BuildContextView {
        BuildContextView {
            target_environment: text_view(self.target_environment),
            target_architecture: text_view(self.target_architecture),
            build_profile: text_view(self.build_profile),
            output_directory: self.output_directory@,
        }
    }
}

/// True when `s` holds exactly the text of `lit`.
pub fn text_equals(s: &String, lit: &str) -> (r: bool)
    ensures
        r == (s@ == lit@),
{
    let owned: String = lit.to_owned();
    *s == owned
}

/// How a planning run ended: the directives were applied, or one of the two
/// guard clauses made the run a deliberate no-op.
#[derive(Clone, Copy, PartialEq, Eq, Structural, Debug)]
pub enum Outcome {
    /// The target environment matched and the profile was `release`.
    Applied,
    /// The target environment was present but not the MSVC-style one.
    SkippedWrongTarget,
    /// The target environment matched but the profile was not `release`.
    SkippedWrongProfile,
}

/// The one fatal configuration error: without the target-environment signal
/// the routine cannot decide whether it applies at all.
#[derive(Clone, Copy, PartialEq, Eq, Structural, Debug)]
pub enum ConfigError {
    MissingTargetEnvironment,
}

/// The diagnostic text for each configuration error.
pub open spec fn spec_error_message(e: ConfigError) -> Seq<char> {
    "`CARGO_CFG_TARGET_ENV` environment variable is missing. Ensure you're using `static_vcruntime` in a build script"@
}

impl ConfigError {
    /// The diagnostic message for this error; never empty.
    pub fn message(&self) -> (r: String)
        ensures
            r@ == spec_error_message(*self),
            r@.len() > 0,
    {
        proof {
            reveal_strlit(
                "`CARGO_CFG_TARGET_ENV` environment variable is missing. Ensure you're using `static_vcruntime` in a build script",
            );
        }
        "`CARGO_CFG_TARGET_ENV` environment variable is missing. Ensure you're using `static_vcruntime` in a build script".to_owned()
    }
}

} // verus!
