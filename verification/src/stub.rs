//! The stub library: a minimal architecture-tagged object file written under
//! the name of the default C-runtime import library, so that the linker
//! resolves that name to an empty artifact instead of the real library.

use vstd::prelude::*;
use crate::context::text_equals;

verus! {

/// The fixed name under which the stub is written: the default dynamic
/// C-runtime import library that the stub neutralizes.
pub open spec fn spec_stub_file_name() -> Seq<char> {
    "msvcrt.lib"@
}

/// The executable counterpart of [`spec_stub_file_name`].
pub fn stub_file_name() -> (r: String)
    ensures
        r@ == spec_stub_file_name(),
{
    "msvcrt.lib".to_owned()
}

/// The two leading bytes of an object file that tag its machine
/// architecture, for each architecture the stub supports; `None` for an
/// unrecognized architecture identifier.
pub open spec fn spec_machine_tag(arch: Seq<char>) -> Option<(u8, u8)> {
    if arch == "x86"@ {
        Option::Some((0x4cu8, 0x01u8))
    } else if arch == "x86_64"@ {
        Option::Some((0x64u8, 0x86u8))
    } else if arch == "aarch64"@ {
        Option::Some((0x64u8, 0xaau8))
    } else {
        Option::None
    }
}

/// The executable counterpart of [`spec_machine_tag`].
pub fn machine_tag(arch: &String) -> (r: Option<(u8, u8)>)
    ensures
        r == spec_machine_tag(arch@),
{
    if text_equals(arch, "x86") {
        Option::Some((0x4cu8, 0x01u8))
    } else if text_equals(arch, "x86_64") {
        Option::Some((0x64u8, 0x86u8))
    } else if text_equals(arch, "aarch64") {
        Option::Some((0x64u8, 0xaau8))
    } else {
        Option::None
    }
}

/// The full contents of the stub: a twenty-byte object-file header whose two
/// leading bytes carry the machine tag and whose remaining fields (section
/// count, symbol table, optional header, characteristics) are all zero, which
/// the linker accepts as an empty library.
pub open spec fn spec_stub_contents(tag: (u8, u8)) -> Seq<u8> {
    seq![tag.0, tag.1] + Seq::new(18, |i: int| 0u8)
}

/// The executable counterpart of [`spec_stub_contents`].
pub fn stub_contents(tag: (u8, u8)) -> (r: Vec<u8>)
    ensures
        r@ == spec_stub_contents(tag),
        r@.len() == 20,
        r@[0] == tag.0,
        r@[1] == tag.1,
{
    let mut bytes: Vec<u8> = Vec::new();
    bytes.push(tag.0);
    bytes.push(tag.1);
    let mut i: usize = 0;
    while i < 18
        invariant
            i <= 18,
            bytes@ =~= seq![tag.0, tag.1] + Seq::new(i as nat, |j: int| 0u8),
        decreases 18 - i,
    {
        bytes.push(0u8);
        i = i + 1;
        proof {
            assert(Seq::new(i as nat, |j: int| 0u8) =~= Seq::new((i - 1) as nat, |j: int| 0u8).push(0u8));
        }
    }
    proof {
        assert(bytes@ =~= spec_stub_contents(tag));
    }
    bytes
}

} // verus!
