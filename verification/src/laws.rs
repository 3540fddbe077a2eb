//! The guarantees the planner gives, stated once over all build contexts.

use vstd::prelude::*;
use crate::context::{BuildContextView, ConfigError, Outcome, spec_error_message};
use crate::directive::{DirectiveView, excluded_library_names, selected_library_names};
use crate::plan::{PlanView, spec_arch_tag, spec_plan, spec_profile_is_release};
use crate::stub::spec_machine_tag;
use crate::stub::spec_stub_file_name;

verus! {

/// The two fixed library-name tables hold pairwise distinct names, so the
/// planned directive lists can never repeat an entry.
pub proof fn lemma_library_names_distinct()
    ensures
        forall|i: int, j: int|
            0 <= i < j < excluded_library_names().len() ==> excluded_library_names()[i]
                != excluded_library_names()[j],
        forall|i: int, j: int|
            0 <= i < j < selected_library_names().len() ==> selected_library_names()[i]
                != selected_library_names()[j],
{
    reveal_strlit("libvcruntimed.lib");
    reveal_strlit("vcruntime.lib");
    reveal_strlit("vcruntimed.lib");
    reveal_strlit("libcmtd.lib");
    reveal_strlit("msvcrt.lib");
    reveal_strlit("msvcrtd.lib");
    reveal_strlit("libucrt.lib");
    reveal_strlit("libucrtd.lib");
    reveal_strlit("libcmt.lib");
    reveal_strlit("libvcruntime.lib");
    reveal_strlit("ucrt.lib");
    let excluded = excluded_library_names();
    let selected = selected_library_names();
    assert(excluded.len() == 8);
    assert(selected.len() == 3);
    assert(excluded[0] == "libvcruntimed.lib"@);
    assert(excluded[1] == "vcruntime.lib"@);
    assert(excluded[2] == "vcruntimed.lib"@);
    assert(excluded[3] == "libcmtd.lib"@);
    assert(excluded[4] == "msvcrt.lib"@);
    assert(excluded[5] == "msvcrtd.lib"@);
    assert(excluded[6] == "libucrt.lib"@);
    assert(excluded[7] == "libucrtd.lib"@);
    assert(selected[0] == "libcmt.lib"@);
    assert(selected[1] == "libvcruntime.lib"@);
    assert(selected[2] == "ucrt.lib"@);
    assert(excluded[0].len() == 17);
    assert(excluded[1].len() == 13);
    assert(excluded[2].len() == 14);
    assert(excluded[3].len() == 11);
    assert(excluded[4].len() == 10);
    assert(excluded[5].len() == 11);
    assert(excluded[6].len() == 11);
    assert(excluded[7].len() == 12);
    assert(selected[0].len() == 10);
    assert(selected[1].len() == 16);
    assert(selected[2].len() == 8);
    assert(excluded[3][0] == 'l');
    assert(excluded[5][0] == 'm');
    assert(excluded[6][0] == 'l');
    assert(excluded[3][3] == 'c');
    assert(excluded[6][3] == 'u');
    assert(excluded[0] != excluded[1]);
    assert(excluded[0] != excluded[2]);
    assert(excluded[0] != excluded[3]);
    assert(excluded[0] != excluded[4]);
    assert(excluded[0] != excluded[5]);
    assert(excluded[0] != excluded[6]);
    assert(excluded[0] != excluded[7]);
    assert(excluded[1] != excluded[2]);
    assert(excluded[1] != excluded[3]);
    assert(excluded[1] != excluded[4]);
    assert(excluded[1] != excluded[5]);
    assert(excluded[1] != excluded[6]);
    assert(excluded[1] != excluded[7]);
    assert(excluded[2] != excluded[3]);
    assert(excluded[2] != excluded[4]);
    assert(excluded[2] != excluded[5]);
    assert(excluded[2] != excluded[6]);
    assert(excluded[2] != excluded[7]);
    assert(excluded[3] != excluded[4]);
    assert(excluded[3] != excluded[5]);
    assert(excluded[3] != excluded[6]);
    assert(excluded[3] != excluded[7]);
    assert(excluded[4] != excluded[5]);
    assert(excluded[4] != excluded[6]);
    assert(excluded[4] != excluded[7]);
    assert(excluded[5] != excluded[6]);
    assert(excluded[5] != excluded[7]);
    assert(excluded[6] != excluded[7]);
    assert(selected[0] != selected[1]);
    assert(selected[0] != selected[2]);
    assert(selected[1] != selected[2]);
}

/// On every context whose target environment is present but is not the
/// MSVC-style one, the run is a silent no-op: no directives, no file.
pub proof fn lemma_foreign_environment_is_noop(c: BuildContextView, env: Seq<char>)
    requires
        c.target_environment == Option::<Seq<char>>::Some(env),
        env != "msvc"@,
    ensures
        spec_plan(c) matches Result::Ok(p) && ({
            &&& p.outcome == Outcome::SkippedWrongTarget
            &&& p.directives.len() == 0
            &&& p.stub is None
        }),
{
}

/// On every context that matches the MSVC-style environment but whose build
/// profile is not `release`, the run is a silent no-op: no directives, no
/// file.
pub proof fn lemma_non_release_profile_is_noop(c: BuildContextView)
    requires
        c.target_environment == Option::<Seq<char>>::Some("msvc"@),
        !spec_profile_is_release(c.build_profile),
    ensures
        spec_plan(c) matches Result::Ok(p) && ({
            &&& p.outcome == Outcome::SkippedWrongProfile
            &&& p.directives.len() == 0
            &&& p.stub is None
        }),
{
}

/// On every context that passes both gates, whatever the architecture, the
/// planned directives end with exactly the two reference tables — one
/// exclude directive per excluded name and one select directive per selected
/// name, in table order, nothing else — and no directive is repeated.
pub proof fn lemma_applied_emits_reference_lists(c: BuildContextView)
    requires
        c.target_environment == Option::<Seq<char>>::Some("msvc"@),
        spec_profile_is_release(c.build_profile),
    ensures
        spec_plan(c) matches Result::Ok(p) && ({
            let base: int = if spec_arch_tag(c.target_architecture) is Some {
                1
            } else {
                0
            };
            &&& p.outcome == Outcome::Applied
            &&& p.directives.len() == base + 11
            &&& forall|i: int|
                0 <= i < 8 ==> p.directives[base + i] == DirectiveView::ExcludeDefaultLib(
                    excluded_library_names()[i],
                )
            &&& forall|i: int|
                0 <= i < 3 ==> p.directives[base + 8 + i] == DirectiveView::SelectDefaultLib(
                    selected_library_names()[i],
                )
            &&& forall|i: int, j: int|
                0 <= i < j < p.directives.len() ==> p.directives[i] != p.directives[j]
        }),
{
    lemma_library_names_distinct();
}

/// On every context that passes both gates and names a supported
/// architecture, the planned stub file carries that architecture's tag in
/// its two leading bytes, bears the fixed file name, and is accompanied by a
/// search-path directive for the output directory ahead of the link
/// directives.
pub proof fn lemma_stub_encodes_architecture(c: BuildContextView, arch: Seq<char>, tag: (u8, u8))
    requires
        c.target_environment == Option::<Seq<char>>::Some("msvc"@),
        spec_profile_is_release(c.build_profile),
        c.target_architecture == Option::<Seq<char>>::Some(arch),
        spec_machine_tag(arch) == Option::<(u8, u8)>::Some(tag),
    ensures
        spec_plan(c) matches Result::Ok(p) && p.stub matches Option::Some(s) && ({
            &&& s.file_name == spec_stub_file_name()
            &&& s.contents.len() == 20
            &&& s.contents[0] == tag.0
            &&& s.contents[1] == tag.1
            &&& p.directives.len() == 12
            &&& p.directives[0] == DirectiveView::SearchPath(c.output_directory)
        }),
{
}

/// On every context that passes both gates but whose architecture signal is
/// absent or unrecognized, no stub file is planned, yet every link directive
/// is still emitted.
pub proof fn lemma_unknown_architecture_skips_stub(c: BuildContextView)
    requires
        c.target_environment == Option::<Seq<char>>::Some("msvc"@),
        spec_profile_is_release(c.build_profile),
        spec_arch_tag(c.target_architecture) is None,
    ensures
        spec_plan(c) matches Result::Ok(p) && ({
            &&& p.outcome == Outcome::Applied
            &&& p.stub is None
            &&& p.directives.len() == 11
        }),
{
}

/// A context without the target-environment signal is rejected outright with
/// the one configuration error, whose diagnostic message is never empty.
pub proof fn lemma_missing_environment_fails(c: BuildContextView)
    requires
        c.target_environment is None,
    ensures
        spec_plan(c) == Result::<PlanView, ConfigError>::Err(ConfigError::MissingTargetEnvironment),
        spec_error_message(ConfigError::MissingTargetEnvironment).len() > 0,
{
    reveal_strlit(
        "`CARGO_CFG_TARGET_ENV` environment variable is missing. Ensure you're using `static_vcruntime` in a build script",
    );
}

/// Planning reads nothing but the build context: two runs over equal
/// contexts produce equal plans, so invoking the routine twice against the
/// same output directory plans the identical directive set both times.
pub proof fn lemma_plan_deterministic(c1: BuildContextView, c2: BuildContextView)
    requires
        c1 == c2,
    ensures
        spec_plan(c1) == spec_plan(c2),
{
}

} // verus!
