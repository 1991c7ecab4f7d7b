use up::platform::PlatformTriple;
use up::sysinfo::{Arch, System, AMD64, APPLE, ARM64, LINUX, OS};

fn triple(architecture: &str, operating_system: &str) -> PlatformTriple {
    PlatformTriple {
        architecture: architecture.to_string(),
        vendor: "unknown".to_string(),
        operating_system: operating_system.to_string(),
    }
}

#[test]
fn system_of_known_triples() {
    let linux = System::of_triple(&triple("x86_64", "linux"));
    assert_eq!(linux.os(), OS::Linux);
    assert_eq!(linux.arch(), Arch::amd64);
    let mac = System::of_triple(&triple("aarch64", "darwin"));
    assert_eq!(mac.os(), OS::Darwin);
    assert_eq!(mac.arch(), Arch::aarch64);
    let windows = System::of_triple(&triple("x86_64", "windows"));
    assert_eq!(windows.os(), OS::Windows);
}

#[test]
fn system_of_unknown_names() {
    let other = System::of_triple(&triple("riscv64gc", "freebsd"));
    assert_eq!(other.os(), OS::Unknown);
    assert_eq!(other.arch(), Arch::Unknown);
    let upper = System::of_triple(&triple("X86_64", "Linux"));
    assert_eq!(upper.os(), OS::Unknown);
    assert_eq!(upper.arch(), Arch::Unknown);
}

#[test]
fn system_knows_every_listed_name() {
    for name in APPLE {
        assert_eq!(System::of_triple(&triple("x86_64", name)).os(), OS::Darwin);
    }
    for name in LINUX {
        assert_eq!(System::of_triple(&triple("x86_64", name)).os(), OS::Linux);
    }
    for name in AMD64 {
        assert_eq!(System::of_triple(&triple(name, "linux")).arch(), Arch::amd64);
    }
    for name in ARM64 {
        assert_eq!(System::of_triple(&triple(name, "linux")).arch(), Arch::aarch64);
    }
}

#[test]
fn system_of_the_host() {
    let host = up::platform::host_triple();
    let system = System::new();
    assert_eq!(system, System::of_triple(&host));
    if host.operating_system == "linux" {
        assert_eq!(system.os(), OS::Linux);
    }
    if host.architecture == "x86_64" {
        assert_eq!(system.arch(), Arch::amd64);
    }
}
