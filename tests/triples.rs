use skylift::convert::{internal2rpc, rpc2internal};
use skylift::target;
use skylift::wire;

fn linux_x86_64() -> target::Triple {
    target::Triple {
        architecture: target::Architecture::X86_64,
        vendor: target::Vendor::Unknown,
        operating_system: target::OperatingSystem::Linux,
        environment: target::Environment::Gnu,
        binary_format: target::BinaryFormat::Elf,
    }
}

#[test]
fn wire_tags_follow_declaration_order() {
    assert_eq!(wire::Architecture::Unknown.to_i32(), 0);
    assert_eq!(wire::Architecture::Arm.to_i32(), 1);
    assert_eq!(wire::Architecture::X8664.to_i32(), 77);
    assert_eq!(wire::BinaryFormat::Elf.to_i32(), 1);
    assert_eq!(wire::OperatingSystem::Linux.to_i32(), 15);
    assert_eq!(wire::Environment::Gnu.to_i32(), 6);
    assert_eq!(wire::Vendor::Pc.to_i32(), 6);
}

#[test]
fn unknown_wire_tags_read_as_unknown() {
    assert_eq!(wire::Architecture::from_i32(78), wire::Architecture::Unknown);
    assert_eq!(wire::Architecture::from_i32(-1), wire::Architecture::Unknown);
    assert_eq!(wire::Vendor::from_i32(11), wire::Vendor::Unknown);
    assert_eq!(wire::Vendor::from_i32(10), wire::Vendor::Wrs);
}

#[test]
fn encodes_linux_x86_64() {
    let w = internal2rpc::from_triple(&linux_x86_64());
    assert_eq!(
        w,
        wire::Triple {
            architecture: 77,
            binary_format: 1,
            environment: 6,
            operating_system: 15,
            vendor: 0,
        }
    );
}

#[test]
fn triple_round_trip() {
    let t = linux_x86_64();
    assert_eq!(rpc2internal::from_triple(&internal2rpc::from_triple(&t)), t);
    let arm = target::Triple {
        architecture: target::Architecture::Arm(target::ArmArchitecture::Thumbv8mMain),
        vendor: target::Vendor::Apple,
        operating_system: target::OperatingSystem::Ios,
        environment: target::Environment::Eabihf,
        binary_format: target::BinaryFormat::Macho,
    };
    assert_eq!(rpc2internal::from_triple(&internal2rpc::from_triple(&arm)), arm);
}

#[test]
fn vendor_is_read_from_its_own_field() {
    let w = wire::Triple {
        architecture: wire::Architecture::Aarch64.to_i32(),
        binary_format: wire::BinaryFormat::Macho.to_i32(),
        environment: wire::Environment::Unknown.to_i32(),
        operating_system: wire::OperatingSystem::Darwin.to_i32(),
        vendor: wire::Vendor::Apple.to_i32(),
    };
    let t = rpc2internal::from_triple(&w);
    assert_eq!(t.vendor, target::Vendor::Apple);
    assert_eq!(t.environment, target::Environment::Unknown);
    assert_eq!(
        t.architecture,
        target::Architecture::Aarch64(target::Aarch64Architecture::Aarch64)
    );
}

#[test]
fn unknown_field_decodes_to_unknown() {
    let mut w = internal2rpc::from_triple(&linux_x86_64());
    w.architecture = 9999;
    let t = rpc2internal::from_triple(&w);
    assert_eq!(t.architecture, target::Architecture::Unknown);
    assert_eq!(t.operating_system, target::OperatingSystem::Linux);
    assert_eq!(t.environment, target::Environment::Gnu);
    assert_eq!(t.binary_format, target::BinaryFormat::Elf);
}

#[test]
fn macos_decodes_to_the_placeholder_version() {
    let os = rpc2internal::from_operating_system(wire::OperatingSystem::Macosx);
    assert_eq!(
        os,
        target::OperatingSystem::MacOSX { major: 10, minor: 10, patch: 10 }
    );
    let other = target::OperatingSystem::MacOSX { major: 11, minor: 2, patch: 0 };
    assert_eq!(internal2rpc::from_operating_system(&other), wire::OperatingSystem::Macosx);
}

#[test]
fn every_wire_architecture_round_trips() {
    for tag in 0..78 {
        let w = wire::Architecture::from_i32(tag);
        let back = internal2rpc::from_architecture(&rpc2internal::from_architecture(w));
        assert_eq!(back, w);
        assert_eq!(back.to_i32(), tag);
    }
}

#[test]
fn sub_architectures_decode() {
    assert_eq!(
        rpc2internal::from_architecture(wire::Architecture::Riscv64gc),
        target::Architecture::Riscv64(target::Riscv64Architecture::Riscv64gc)
    );
    assert_eq!(
        rpc2internal::from_architecture(wire::Architecture::I686),
        target::Architecture::X86_32(target::X86_32Architecture::I686)
    );
    assert_eq!(
        rpc2internal::from_environment(wire::Environment::Musl),
        target::Environment::Musl
    );
    assert_eq!(
        rpc2internal::from_binary_format(wire::BinaryFormat::Wasm),
        target::BinaryFormat::Wasm
    );
    assert_eq!(rpc2internal::from_vendor(wire::Vendor::Nvidia), target::Vendor::Nvidia);
    assert_eq!(
        rpc2internal::from_operating_system(wire::OperatingSystem::None_),
        target::OperatingSystem::None_
    );
}
