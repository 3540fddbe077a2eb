//! Linker directives and the fixed library-name tables.
//!
//! A directive is one instruction to the build orchestrator's linker step:
//! exclude a default library, select a library, or register an additional
//! native-library search path. The exclude and select tables are fixed,
//! versioned lists of library names; the toolchain recognizes exactly these
//! strings.

use vstd::prelude::*;
use vstd::string::StringExecFns;

verus! {

/// One instruction to the orchestrator's linker step.
pub enum Directive {
    /// Drop a default runtime library from the link (`/NODEFAULTLIB`).
    ExcludeDefaultLib(String),
    /// Add a runtime library to the link (`/DEFAULTLIB`).
    SelectDefaultLib(String),
    /// Register a directory as a native-library search path that takes
    /// precedence over the toolchain defaults.
    SearchPath(String),
}

/// The mathematical image of a [`Directive`].
pub ghost enum DirectiveView {
    ExcludeDefaultLib(Seq<char>),
    SelectDefaultLib(Seq<char>),
    SearchPath(Seq<char>),
}

impl View for Directive {
    type V = DirectiveView;

    open spec fn view(&self) -> DirectiveView {
        match self {
            Directive::ExcludeDefaultLib(name) => DirectiveView::ExcludeDefaultLib(name@),
            Directive::SelectDefaultLib(name) => DirectiveView::SelectDefaultLib(name@),
            Directive::SearchPath(dir) => DirectiveView::SearchPath(dir@),
        }
    }
}

/// The fixed table of default runtime libraries that must not take part in
/// the link: the release and debug variants of the dynamic VC runtime import
/// library, the static VC runtime, the C runtime, and the static Universal
/// CRT.
pub open spec fn excluded_library_names() -> Seq<Seq<char>> {
    seq![
        "libvcruntimed.lib"@,
        "vcruntime.lib"@,
        "vcruntimed.lib"@,
        "libcmtd.lib"@,
        "msvcrt.lib"@,
        "msvcrtd.lib"@,
        "libucrt.lib"@,
        "libucrtd.lib"@,
    ]
}

/// The fixed table of libraries selected instead: the static C runtime, the
/// static VC runtime, and the dynamic Universal CRT import library.
pub open spec fn selected_library_names() -> Seq<Seq<char>> {
    seq!["libcmt.lib"@, "libvcruntime.lib"@, "ucrt.lib"@]
}

/// The line the orchestrator reads for one directive.
pub open spec fn spec_rendered(d: DirectiveView) -> Seq<char> {
    match d {
        DirectiveView::ExcludeDefaultLib(name) => "cargo:rustc-link-arg=/NODEFAULTLIB:"@ + name,
        DirectiveView::SelectDefaultLib(name) => "cargo:rustc-link-arg=/DEFAULTLIB:"@ + name,
        DirectiveView::SearchPath(dir) => "cargo:rustc-link-search=native="@ + dir,
    }
}

impl Directive {
    /// The line the orchestrator reads for this directive.
    pub fn rendered(&self) -> (r: String)
        ensures
            r@ == spec_rendered(self@),
    {
        match self {
            Directive::ExcludeDefaultLib(name) => {
                "cargo:rustc-link-arg=/NODEFAULTLIB:".to_owned().concat(name.as_str())
            },
            Directive::SelectDefaultLib(name) => {
                "cargo:rustc-link-arg=/DEFAULTLIB:".to_owned().concat(name.as_str())
            },
            Directive::SearchPath(dir) => {
                "cargo:rustc-link-search=native=".to_owned().concat(dir.as_str())
            },
        }
    }
}

/// The line that tells the orchestrator to run the configuration step again
/// whenever the build-profile signal changes, so that switching between debug
/// and release reconfigures the link. It is emitted before any gating.
pub open spec fn spec_rerun_signal() -> Seq<char> {
    "cargo:rerun-if-env-changed=PROFILE"@
}

/// The executable counterpart of [`spec_rerun_signal`].
pub fn rerun_signal() -> (r: String)
    ensures
        r@ == spec_rerun_signal(),
{
    "cargo:rerun-if-env-changed=PROFILE".to_owned()
}

} // verus!
