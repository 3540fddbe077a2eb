use static_vcruntime::context::BuildContext;
use static_vcruntime::plan::plan;
use static_vcruntime::stub::{machine_tag, stub_contents, stub_file_name};

fn release_msvc(arch: &str) -> BuildContext {
    BuildContext {
        target_environment: Some("msvc".to_string()),
        target_architecture: Some(arch.to_string()),
        build_profile: Some("release".to_string()),
        output_directory: "out".to_string(),
    }
}

#[test]
fn each_architecture_gets_its_tag() {
    assert_eq!(machine_tag(&"x86".to_string()), Some((0x4c, 0x01)));
    assert_eq!(machine_tag(&"x86_64".to_string()), Some((0x64, 0x86)));
    assert_eq!(machine_tag(&"aarch64".to_string()), Some((0x64, 0xaa)));
    assert_eq!(machine_tag(&"arm".to_string()), None);
    assert_eq!(machine_tag(&"".to_string()), None);
}

#[test]
fn stub_is_a_twenty_byte_tagged_header() {
    let bytes = stub_contents((0x4c, 0x01));
    assert_eq!(bytes.len(), 20);
    assert_eq!(&bytes[..2], &[0x4c, 0x01]);
    assert!(bytes[2..].iter().all(|b| *b == 0));
}

#[test]
fn stub_leads_with_the_architecture_tag() {
    for (arch, tag) in [("x86", [0x4c, 0x01]), ("x86_64", [0x64, 0x86]), ("aarch64", [0x64, 0xaa])]
    {
        let p = plan(&release_msvc(arch)).unwrap();
        let stub = p.stub.as_ref().unwrap();
        assert_eq!(stub.file_name, "msvcrt.lib");
        assert_eq!(stub.contents.len(), 20);
        assert_eq!(&stub.contents[..2], &tag);
    }
}

#[test]
fn unsupported_architecture_skips_stub_but_not_directives() {
    for arch in ["arm", "powerpc", "riscv64"] {
        let p = plan(&release_msvc(arch)).unwrap();
        assert!(p.stub.is_none());
        assert_eq!(p.directives.len(), 11);
    }
    let mut ctx = release_msvc("x86");
    ctx.target_architecture = None;
    let p = plan(&ctx).unwrap();
    assert!(p.stub.is_none());
    assert_eq!(p.directives.len(), 11);
}

#[test]
fn stub_file_name_matches_the_neutralized_library() {
    assert_eq!(stub_file_name(), "msvcrt.lib");
}
