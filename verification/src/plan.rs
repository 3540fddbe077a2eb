//! The planner: from a [`BuildContext`] to the exact set of directives to
//! emit and the stub file to write, or to the one fatal configuration error.
//!
//! The routine is a linear decision sequence with two guard clauses. First
//! the applicability gate: a target environment other than the MSVC-style one
//! makes the whole run a no-op. Then the profile gate: a profile other than
//! `release` keeps the default dynamic linking. Only when both gates pass are
//! the fixed exclude and select directives planned, together with the stub
//! file and its search-path directive whenever the target architecture is one
//! the stub supports.

use vstd::prelude::*;
use crate::context::{BuildContext, BuildContextView, ConfigError, Outcome, text_equals};
use crate::directive::{Directive, DirectiveView, excluded_library_names, selected_library_names};
use crate::stub::{machine_tag, spec_machine_tag, spec_stub_contents, spec_stub_file_name, stub_contents, stub_file_name};

verus! {

/// A stub file to be written into the output directory: its fixed name and
/// its full contents.
pub struct StubFile {
    pub file_name: String,
    pub contents: Vec<u8>,
}

/// The mathematical image of a [`StubFile`].
pub ghost struct StubFileView {
    pub file_name: Seq<char>,
    pub contents: Seq<u8>,
}

impl View for StubFile {
    type V = StubFileView;

    open spec fn view(&self) -> StubFileView {
        StubFileView { file_name: self.file_name@, contents: self.contents@ }
    }
}

/// Everything one configuration run asks the orchestrator to do: how the run
/// ended, the stub file to write first (if any), and the directives to emit,
/// in order.
pub struct Plan {
    pub outcome: Outcome,
    pub stub: Option<StubFile>,
    pub directives: Vec<Directive>,
}

/// The mathematical image of a [`Plan`].
pub ghost struct PlanView {
    pub outcome: Outcome,
    pub stub: Option<StubFileView>,
    pub directives: Seq<DirectiveView>,
}

impl View for Plan {
    type V = PlanView;

    open spec fn view(&self) -> PlanView {
        PlanView {
            outcome: self.outcome,
            stub: match self.stub {
                Option::Some(s) => Option::Some(s@),
                Option::None => Option::None,
            },
            directives: self.directives@.map_values(|d: Directive| d@),
        }
    }
}

impl Plan {
    /// The lines the orchestrator reads for this plan's directives, in order.
    pub fn rendered_lines(&self) -> (r: Vec<String>)
        ensures
            r@.len() == self@.directives.len(),
            forall|i: int|
                0 <= i < r@.len() ==> r@[i]@ == crate::directive::spec_rendered(
                    self@.directives[i],
                ),
    {
        let mut lines: Vec<String> = Vec::new();
        let mut i: usize = 0;
        while i < self.directives.len()
            invariant
                i <= self.directives.len(),
                lines@.len() == i,
                forall|k: int|
                    0 <= k < i ==> lines@[k]@ == crate::directive::spec_rendered(
                        self@.directives[k],
                    ),
            decreases self.directives.len() - i,
        {
            lines.push(self.directives[i].rendered());
            i = i + 1;
        }
        lines
    }
}

/// True when the build profile is the release profile; an absent profile
/// signal counts as non-release.
pub open spec fn spec_profile_is_release(p: Option<Seq<char>>) -> bool {
    match p {
        Option::Some(s) => s == "release"@,
        Option::None => false,
    }
}

/// The machine tag for an optional architecture signal: an absent signal is
/// treated like an unrecognized architecture.
pub open spec fn spec_arch_tag(arch: Option<Seq<char>>) -> Option<(u8, u8)> {
    match arch {
        Option::Some(a) => spec_machine_tag(a),
        Option::None => Option::None,
    }
}

/// The exclude directives followed by the select directives, one per entry of
/// the two fixed library-name tables.
pub open spec fn spec_link_directives() -> Seq<DirectiveView> {
    excluded_library_names().map_values(|n: Seq<char>| DirectiveView::ExcludeDefaultLib(n))
        + selected_library_names().map_values(|n: Seq<char>| DirectiveView::SelectDefaultLib(n))
}

/// The plan of a run that one of the two guard clauses ended: nothing to
/// write, nothing to emit.
pub open spec fn spec_skipped_plan(outcome: Outcome) -> PlanView {
    PlanView { outcome, stub: Option::None, directives: Seq::empty() }
}

/// The plan of a run that passed both gates. When the architecture is one the
/// stub supports, the stub file is planned and a search-path directive for
/// the output directory precedes the link directives; an unrecognized
/// architecture skips the stub but still emits every link directive.
pub open spec fn spec_applied_plan(arch: Option<Seq<char>>, out_dir: Seq<char>) -> PlanView {
    match spec_arch_tag(arch) {
        Option::Some(tag) => PlanView {
            outcome: Outcome::Applied,
            stub: Option::Some(
                StubFileView { file_name: spec_stub_file_name(), contents: spec_stub_contents(tag) },
            ),
            directives: seq![DirectiveView::SearchPath(out_dir)] + spec_link_directives(),
        },
        Option::None => PlanView {
            outcome: Outcome::Applied,
            stub: Option::None,
            directives: spec_link_directives(),
        },
    }
}

/// What [`plan`] returns on every context: the fatal error exactly when the
/// target-environment signal is absent, and otherwise the plan that the two
/// gates and the architecture admit.
pub open spec fn spec_plan(c: BuildContextView) -> Result<PlanView, ConfigError> {
    match c.target_environment {
        Option::None => Result::Err(ConfigError::MissingTargetEnvironment),
        Option::Some(env) => Result::Ok(
            if env != "msvc"@ {
                spec_skipped_plan(Outcome::SkippedWrongTarget)
            } else if !spec_profile_is_release(c.build_profile) {
                spec_skipped_plan(Outcome::SkippedWrongProfile)
            } else {
                spec_applied_plan(c.target_architecture, c.output_directory)
            },
        ),
    }
}

/// Decide everything one configuration run does.
///
/// The result is pinned exactly by [`spec_plan`]: an error if and only if the
/// target-environment signal is absent; an empty plan tagged with the guard
/// that ended the run when the environment or the profile does not match; and
/// otherwise the full applied plan.
pub fn plan(ctx: &BuildContext) -> (r: Result<Plan, ConfigError>)
    ensures
        match r {
            Result::Ok(p) => spec_plan(ctx@) == Result::<PlanView, ConfigError>::Ok(p@),
            Result::Err(e) => spec_plan(ctx@) == Result::<PlanView, ConfigError>::Err(e),
        },
{
    let environment = match &ctx.target_environment {
        Option::Some(e) => e,
        Option::None => {
            return Result::Err(ConfigError::MissingTargetEnvironment);
        },
    };
    if !text_equals(environment, "msvc") {
        let p = Plan {
            outcome: Outcome::SkippedWrongTarget,
            stub: Option::None,
            directives: Vec::new(),
        };
        proof {
            assert(p@.directives =~= spec_skipped_plan(Outcome::SkippedWrongTarget).directives);
        }
        return Result::Ok(p);
    }
    let release = match &ctx.build_profile {
        Option::Some(profile) => text_equals(profile, "release"),
        Option::None => false,
    };
    if !release {
        let p = Plan {
            outcome: Outcome::SkippedWrongProfile,
            stub: Option::None,
            directives: Vec::new(),
        };
        proof {
            assert(p@.directives =~= spec_skipped_plan(Outcome::SkippedWrongProfile).directives);
        }
        return Result::Ok(p);
    }
    let tag = match &ctx.target_architecture {
        Option::Some(arch) => machine_tag(arch),
        Option::None => Option::None,
    };
    let mut directives: Vec<Directive> = Vec::new();
    let stub = match tag {
        Option::Some(t) => {
            directives.push(Directive::SearchPath(ctx.output_directory.clone()));
            Option::Some(StubFile { file_name: stub_file_name(), contents: stub_contents(t) })
        },
        Option::None => Option::None,
    };
    directives.push(Directive::ExcludeDefaultLib("libvcruntimed.lib".to_owned()));
    directives.push(Directive::ExcludeDefaultLib("vcruntime.lib".to_owned()));
    directives.push(Directive::ExcludeDefaultLib("vcruntimed.lib".to_owned()));
    directives.push(Directive::ExcludeDefaultLib("libcmtd.lib".to_owned()));
    directives.push(Directive::ExcludeDefaultLib("msvcrt.lib".to_owned()));
    directives.push(Directive::ExcludeDefaultLib("msvcrtd.lib".to_owned()));
    directives.push(Directive::ExcludeDefaultLib("libucrt.lib".to_owned()));
    directives.push(Directive::ExcludeDefaultLib("libucrtd.lib".to_owned()));
    directives.push(Directive::SelectDefaultLib("libcmt.lib".to_owned()));
    directives.push(Directive::SelectDefaultLib("libvcruntime.lib".to_owned()));
    directives.push(Directive::SelectDefaultLib("ucrt.lib".to_owned()));
    let p = Plan { outcome: Outcome::Applied, stub, directives };
    proof {
        let applied = spec_applied_plan(ctx@.target_architecture, ctx@.output_directory);
        assert(p@.directives =~= applied.directives);
    }
    Result::Ok(p)
}

} // verus!
