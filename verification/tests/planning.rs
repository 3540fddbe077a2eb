use static_vcruntime::context::{BuildContext, ConfigError, Outcome};
use static_vcruntime::directive::rerun_signal;
use static_vcruntime::plan::plan;

fn context(env: Option<&str>, arch: Option<&str>, profile: Option<&str>) -> BuildContext {
    BuildContext {
        target_environment: env.map(|s| s.to_string()),
        target_architecture: arch.map(|s| s.to_string()),
        build_profile: profile.map(|s| s.to_string()),
        output_directory: "target/out".to_string(),
    }
}

const EXCLUDED: [&str; 8] = [
    "libvcruntimed.lib",
    "vcruntime.lib",
    "vcruntimed.lib",
    "libcmtd.lib",
    "msvcrt.lib",
    "msvcrtd.lib",
    "libucrt.lib",
    "libucrtd.lib",
];

const SELECTED: [&str; 3] = ["libcmt.lib", "libvcruntime.lib", "ucrt.lib"];

#[test]
fn foreign_environment_emits_nothing() {
    for env in ["gnu", "musl", "uclibc", ""] {
        let p = plan(&context(Some(env), Some("x86_64"), Some("release"))).unwrap();
        assert!(matches!(p.outcome, Outcome::SkippedWrongTarget));
        assert!(p.stub.is_none());
        assert!(p.directives.is_empty());
        assert!(p.rendered_lines().is_empty());
    }
}

#[test]
fn non_release_profile_emits_nothing() {
    for profile in [Some("debug"), Some("dev"), Some(""), None] {
        let p = plan(&context(Some("msvc"), Some("x86_64"), profile)).unwrap();
        assert!(matches!(p.outcome, Outcome::SkippedWrongProfile));
        assert!(p.stub.is_none());
        assert!(p.directives.is_empty());
    }
}

#[test]
fn release_msvc_emits_exact_reference_lists() {
    for arch in [Some("x86"), Some("x86_64"), Some("aarch64"), Some("mips"), None] {
        let p = plan(&context(Some("msvc"), arch, Some("release"))).unwrap();
        assert!(matches!(p.outcome, Outcome::Applied));
        let lines = p.rendered_lines();
        let base = if p.stub.is_some() { 1 } else { 0 };
        assert_eq!(lines.len(), base + 11);
        for (i, name) in EXCLUDED.iter().enumerate() {
            assert_eq!(lines[base + i], format!("cargo:rustc-link-arg=/NODEFAULTLIB:{}", name));
        }
        for (i, name) in SELECTED.iter().enumerate() {
            assert_eq!(lines[base + 8 + i], format!("cargo:rustc-link-arg=/DEFAULTLIB:{}", name));
        }
        for i in 0..lines.len() {
            for j in 0..i {
                assert_ne!(lines[i], lines[j]);
            }
        }
    }
}

#[test]
fn two_invocations_plan_the_same_directives() {
    let ctx = context(Some("msvc"), Some("x86_64"), Some("release"));
    let first = plan(&ctx).unwrap();
    let second = plan(&ctx).unwrap();
    assert_eq!(first.rendered_lines(), second.rendered_lines());
    assert!(matches!(second.outcome, Outcome::Applied));
    assert_eq!(
        first.stub.as_ref().map(|s| s.contents.clone()),
        second.stub.as_ref().map(|s| s.contents.clone()),
    );
}

#[test]
fn missing_environment_is_fatal_with_diagnostic() {
    let r = plan(&context(None, Some("x86_64"), Some("release")));
    let e = match r {
        Err(e) => e,
        Ok(_) => panic!("a missing target environment must be fatal"),
    };
    assert!(matches!(e, ConfigError::MissingTargetEnvironment));
    assert!(!e.message().is_empty());
    assert_eq!(
        e.message(),
        "`CARGO_CFG_TARGET_ENV` environment variable is missing. \
         Ensure you're using `static_vcruntime` in a build script",
    );
}

#[test]
fn release_msvc_64_bit_scenario() {
    let p = plan(&context(Some("msvc"), Some("x86_64"), Some("release"))).unwrap();
    assert!(matches!(p.outcome, Outcome::Applied));
    let stub = p.stub.as_ref().unwrap();
    assert_eq!(stub.file_name, "msvcrt.lib");
    assert_eq!(&stub.contents[..2], &[0x64, 0x86]);
    let lines = p.rendered_lines();
    assert_eq!(lines[0], "cargo:rustc-link-search=native=target/out");
    let excludes = lines.iter().filter(|l| l.contains("/NODEFAULTLIB:")).count();
    let selects = lines.iter().filter(|l| l.contains("/DEFAULTLIB:")).count();
    assert_eq!(excludes, 8);
    assert_eq!(selects, 3);
    assert_eq!(lines.len(), 12);
}

#[test]
fn non_msvc_release_scenario() {
    let p = plan(&context(Some("gnu"), Some("x86_64"), Some("release"))).unwrap();
    assert!(matches!(p.outcome, Outcome::SkippedWrongTarget));
    assert!(p.stub.is_none());
    assert!(p.directives.is_empty());
}

#[test]
fn rerun_signal_names_the_profile() {
    assert_eq!(rerun_signal(), "cargo:rerun-if-env-changed=PROFILE");
}
