//! The kind of machine this runs on, as far as the choice of an asset needs it.

use crate::platform::{host_triple, PlatformTriple, TripleModel};
use crate::text::str_eq;
use vstd::prelude::*;

verus! {

/// Names under which assets for Apple's systems go.
pub const APPLE: [&'static str; 4] = ["macos", "darwin", "mac", "dmg"];

/// Names under which assets for Linux go.
pub const LINUX: [&'static str; 1] = ["linux"];

/// Names under which assets for 64-bit x86 go.
pub const AMD64: [&'static str; 4] = ["x64", "x86_64", "amd64", "64bit"];

/// Names under which assets for 64-bit ARM go.
pub const ARM64: [&'static str; 2] = ["aarch64", "arm64"];

/// The name under which triples for Windows go.
pub const WINDOWS: &'static str = "windows";

#[derive(Clone, Copy, Debug, PartialEq, Eq, Structural)]
pub enum OS {
    Windows,
    Linux,
    Darwin,
    Unknown,
}

#[allow(non_camel_case_types)]
#[derive(Clone, Copy, Debug, PartialEq, Eq, Structural)]
pub enum Arch {
    amd64,
    aarch64,
    Unknown,
}

/// An operating system and an architecture.
#[derive(Debug, Clone, Copy, PartialEq, Eq, Structural)]
pub struct System {
    arch: Arch,
    os: OS,
}

/// `word` is one of `names`.
pub open spec fn named_in(word: Seq<char>, names: Seq<&'static str>) -> bool {
    exists|i: int| 0 <= i < names.len() && word == (#[trigger] names[i])@
}

/// The operating system that a name stands for.
pub open spec fn os_named(name: Seq<char>) -> OS {
    if named_in(name, LINUX@) {
        OS::Linux
    } else if named_in(name, APPLE@) {
        OS::Darwin
    } else if name == WINDOWS@ {
        OS::Windows
    } else {
        OS::Unknown
    }
}

/// The architecture that a name stands for.
pub open spec fn arch_named(name: Seq<char>) -> Arch {
    if named_in(name, AMD64@) {
        Arch::amd64
    } else if named_in(name, ARM64@) {
        Arch::aarch64
    } else {
        Arch::Unknown
    }
}

fn is_named_in(word: &str, names: &[&'static str]) -> (r: bool)
    ensures
        r == named_in(word@, names@),
{
    let mut i: usize = 0;
    while i < names.len()
        invariant
            i <= names.len(),
            forall|k: int| 0 <= k < i ==> word@ != (#[trigger] names@[k])@,
        decreases names.len() - i,
    {
        if str_eq(word, names[i]) {
            return true;
        }
        i += 1;
    }
    false
}

impl System {
    /// The operating system.
    pub closed spec fn os_of(&self) -> OS {
        self.os
    }

    /// The architecture.
    pub closed spec fn arch_of(&self) -> Arch {
        self.arch
    }

    /// The system that a triple names: its operating system and its architecture, each as far
    /// as its name is known.
    pub fn of_triple(triple: &PlatformTriple) -> (r: System)
        ensures
            r.os() == os_named(triple@.operating_system),
            r.arch() == arch_named(triple@.architecture),
    {
        let system = triple.operating_system.as_str();
        let os = if is_named_in(system, &LINUX) {
            OS::Linux
        } else if is_named_in(system, &APPLE) {
            OS::Darwin
        } else if str_eq(system, WINDOWS) {
            OS::Windows
        } else {
            OS::Unknown
        };
        let machine = triple.architecture.as_str();
        let arch = if is_named_in(machine, &AMD64) {
            Arch::amd64
        } else if is_named_in(machine, &ARM64) {
            Arch::aarch64
        } else {
            Arch::Unknown
        };
        System { os, arch }
    }

    /// The system of the host.
    pub fn new() -> (r: System)
        ensures
            exists|host: TripleModel|
                r.os() == #[trigger] os_named(host.operating_system) && r.arch() == arch_named(
                    host.architecture,
                ),
    {
        let host = host_triple();
        let r = System::of_triple(&host);
        assert(r.os() == os_named(host@.operating_system));
        r
    }

    #[verifier::when_used_as_spec(os_of)]
    pub fn os(&self) -> (r: OS)
        ensures
            r == self.os_of(),
    {
        self.os
    }

    #[verifier::when_used_as_spec(arch_of)]
    pub fn arch(&self) -> (r: Arch)
        ensures
            r == self.arch_of(),
    {
        self.arch
    }
}

} // verus!
