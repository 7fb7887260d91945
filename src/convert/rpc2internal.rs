//! Decoding of wire values into the code generator's target description.

use crate::convert::{
    arch_from_wire, binary_format_from_wire, environment_from_wire, os_from_wire,
    triple_from_wire, vendor_from_wire,
};
use crate::target;
use crate::wire;
use vstd::prelude::*;

verus! {

/// Decodes a wire triple field by field; a field that holds an unknown
/// tag decodes to `Unknown`.
pub fn from_triple(triple: &wire::Triple) -> (r: target::Triple)
    ensures
        r == triple_from_wire(*triple),
{
    let architecture = from_architecture(wire::Architecture::from_i32(triple.architecture));
    let binary_format = from_binary_format(wire::BinaryFormat::from_i32(triple.binary_format));
    let environment = from_environment(wire::Environment::from_i32(triple.environment));
    let operating_system = from_operating_system(
        wire::OperatingSystem::from_i32(triple.operating_system),
    );
    let vendor = from_vendor(wire::Vendor::from_i32(triple.vendor));
    target::Triple { architecture, vendor, operating_system, environment, binary_format }
}

/// Decodes a wire architecture value.
pub fn from_architecture(architecture: wire::Architecture) -> (r: target::Architecture)
    ensures
        r == arch_from_wire(architecture),
{
    match architecture {
        wire::Architecture::Unknown => target::Architecture::Unknown,
        wire::Architecture::Arm => target::Architecture::Arm(target::ArmArchitecture::Arm),
        wire::Architecture::Armeb => target::Architecture::Arm(target::ArmArchitecture::Armeb),
        wire::Architecture::Armv4 => target::Architecture::Arm(target::ArmArchitecture::Armv4),
        wire::Architecture::Armv4t => target::Architecture::Arm(target::ArmArchitecture::Armv4t),
        wire::Architecture::Armv5t => target::Architecture::Arm(target::ArmArchitecture::Armv5t),
        wire::Architecture::Armv5te => target::Architecture::Arm(target::ArmArchitecture::Armv5te),
        wire::Architecture::Armv5tej => target::Architecture::Arm(target::ArmArchitecture::Armv5tej),
        wire::Architecture::Armv6 => target::Architecture::Arm(target::ArmArchitecture::Armv6),
        wire::Architecture::Armv6j => target::Architecture::Arm(target::ArmArchitecture::Armv6j),
        wire::Architecture::Armv6k => target::Architecture::Arm(target::ArmArchitecture::Armv6k),
        wire::Architecture::Armv6z => target::Architecture::Arm(target::ArmArchitecture::Armv6z),
        wire::Architecture::Armv6kz => target::Architecture::Arm(target::ArmArchitecture::Armv6kz),
        wire::Architecture::Armv6t2 => target::Architecture::Arm(target::ArmArchitecture::Armv6t2),
        wire::Architecture::Armv6m => target::Architecture::Arm(target::ArmArchitecture::Armv6m),
        wire::Architecture::Armv7 => target::Architecture::Arm(target::ArmArchitecture::Armv7),
        wire::Architecture::Armv7a => target::Architecture::Arm(target::ArmArchitecture::Armv7a),
        wire::Architecture::Armv7ve => target::Architecture::Arm(target::ArmArchitecture::Armv7ve),
        wire::Architecture::Armv7m => target::Architecture::Arm(target::ArmArchitecture::Armv7m),
        wire::Architecture::Armv7r => target::Architecture::Arm(target::ArmArchitecture::Armv7r),
        wire::Architecture::Armv7s => target::Architecture::Arm(target::ArmArchitecture::Armv7s),
        wire::Architecture::Armv8 => target::Architecture::Arm(target::ArmArchitecture::Armv8),
        wire::Architecture::Armv8a => target::Architecture::Arm(target::ArmArchitecture::Armv8a),
        wire::Architecture::Armv81a => target::Architecture::Arm(target::ArmArchitecture::Armv8_1a),
        wire::Architecture::Armv82a => target::Architecture::Arm(target::ArmArchitecture::Armv8_2a),
        wire::Architecture::Armv83a => target::Architecture::Arm(target::ArmArchitecture::Armv8_3a),
        wire::Architecture::Armv84a => target::Architecture::Arm(target::ArmArchitecture::Armv8_4a),
        wire::Architecture::Armv85a => target::Architecture::Arm(target::ArmArchitecture::Armv8_5a),
        wire::Architecture::Armv8mBase => target::Architecture::Arm(target::ArmArchitecture::Armv8mBase),
        wire::Architecture::Armv8mMain => target::Architecture::Arm(target::ArmArchitecture::Armv8mMain),
        wire::Architecture::Armv8r => target::Architecture::Arm(target::ArmArchitecture::Armv8r),
        wire::Architecture::Armebv7r => target::Architecture::Arm(target::ArmArchitecture::Armebv7r),
        wire::Architecture::Thumbeb => target::Architecture::Arm(target::ArmArchitecture::Thumbeb),
        wire::Architecture::Thumbv4t => target::Architecture::Arm(target::ArmArchitecture::Thumbv4t),
        wire::Architecture::Thumbv6m => target::Architecture::Arm(target::ArmArchitecture::Thumbv6m),
        wire::Architecture::Thumbv7a => target::Architecture::Arm(target::ArmArchitecture::Thumbv7a),
        wire::Architecture::Thumbv7em => target::Architecture::Arm(target::ArmArchitecture::Thumbv7em),
        wire::Architecture::Thumbv7m => target::Architecture::Arm(target::ArmArchitecture::Thumbv7m),
        wire::Architecture::Thumbv7neon => target::Architecture::Arm(target::ArmArchitecture::Thumbv7neon),
        wire::Architecture::Thumbv8mBase => target::Architecture::Arm(target::ArmArchitecture::Thumbv8mBase),
        wire::Architecture::Thumbv8mMain => target::Architecture::Arm(target::ArmArchitecture::Thumbv8mMain),
        wire::Architecture::AmdGcn => target::Architecture::AmdGcn,
        wire::Architecture::Aarch64 => target::Architecture::Aarch64(target::Aarch64Architecture::Aarch64),
        wire::Architecture::Aarch64be => target::Architecture::Aarch64(target::Aarch64Architecture::Aarch64be),
        wire::Architecture::Asmjs => target::Architecture::Asmjs,
        wire::Architecture::Avr => target::Architecture::Avr,
        wire::Architecture::Hexagon => target::Architecture::Hexagon,
        wire::Architecture::I386 => target::Architecture::X86_32(target::X86_32Architecture::I386),
        wire::Architecture::I586 => target::Architecture::X86_32(target::X86_32Architecture::I586),
        wire::Architecture::I686 => target::Architecture::X86_32(target::X86_32Architecture::I686),
        wire::Architecture::Mips => target::Architecture::Mips32(target::Mips32Architecture::Mips),
        wire::Architecture::Mipsel => target::Architecture::Mips32(target::Mips32Architecture::Mipsel),
        wire::Architecture::Mipsisa32r6 => target::Architecture::Mips32(target::Mips32Architecture::Mipsisa32r6),
        wire::Architecture::Mipsisa32r6el => target::Architecture::Mips32(target::Mips32Architecture::Mipsisa32r6el),
        wire::Architecture::Mips64 => target::Architecture::Mips64(target::Mips64Architecture::Mips64),
        wire::Architecture::Mips64el => target::Architecture::Mips64(target::Mips64Architecture::Mips64el),
        wire::Architecture::Mipsisa64r6 => target::Architecture::Mips64(target::Mips64Architecture::Mipsisa64r6),
        wire::Architecture::Mipsisa64r6el => target::Architecture::Mips64(target::Mips64Architecture::Mipsisa64r6el),
        wire::Architecture::Msp430 => target::Architecture::Msp430,
        wire::Architecture::Nvptx64 => target::Architecture::Nvptx64,
        wire::Architecture::Powerpc => target::Architecture::Powerpc,
        wire::Architecture::Powerpc64 => target::Architecture::Powerpc64,
        wire::Architecture::Powerpc64le => target::Architecture::Powerpc64le,
        wire::Architecture::Riscv32 => target::Architecture::Riscv32(target::Riscv32Architecture::Riscv32),
        wire::Architecture::Riscv32gc => target::Architecture::Riscv32(target::Riscv32Architecture::Riscv32gc),
        wire::Architecture::Riscv32i => target::Architecture::Riscv32(target::Riscv32Architecture::Riscv32i),
        wire::Architecture::Riscv32imac => target::Architecture::Riscv32(target::Riscv32Architecture::Riscv32imac),
        wire::Architecture::Riscv32imc => target::Architecture::Riscv32(target::Riscv32Architecture::Riscv32imc),
        wire::Architecture::Riscv64 => target::Architecture::Riscv64(target::Riscv64Architecture::Riscv64),
        wire::Architecture::Riscv64gc => target::Architecture::Riscv64(target::Riscv64Architecture::Riscv64gc),
        wire::Architecture::Riscv64imac => target::Architecture::Riscv64(target::Riscv64Architecture::Riscv64imac),
        wire::Architecture::S390x => target::Architecture::S390x,
        wire::Architecture::Sparc => target::Architecture::Sparc,
        wire::Architecture::Sparc64 => target::Architecture::Sparc64,
        wire::Architecture::Sparcv9 => target::Architecture::Sparcv9,
        wire::Architecture::Wasm32 => target::Architecture::Wasm32,
        wire::Architecture::Wasm64 => target::Architecture::Wasm64,
        wire::Architecture::X8664 => target::Architecture::X86_64,
    }
}

/// Decodes a wire binary format value.
pub fn from_binary_format(bin_fmt: wire::BinaryFormat) -> (r: target::BinaryFormat)
    ensures
        r == binary_format_from_wire(bin_fmt),
{
    match bin_fmt {
        wire::BinaryFormat::Unknown => target::BinaryFormat::Unknown,
        wire::BinaryFormat::Elf => target::BinaryFormat::Elf,
        wire::BinaryFormat::Coff => target::BinaryFormat::Coff,
        wire::BinaryFormat::Macho => target::BinaryFormat::Macho,
        wire::BinaryFormat::Wasm => target::BinaryFormat::Wasm,
    }
}

/// Decodes a wire environment value.
pub fn from_environment(env: wire::Environment) -> (r: target::Environment)
    ensures
        r == environment_from_wire(env),
{
    match env {
        wire::Environment::Unknown => target::Environment::Unknown,
        wire::Environment::AmdGiz => target::Environment::AmdGiz,
        wire::Environment::Android => target::Environment::Android,
        wire::Environment::Androideabi => target::Environment::Androideabi,
        wire::Environment::Eabi => target::Environment::Eabi,
        wire::Environment::Eabihf => target::Environment::Eabihf,
        wire::Environment::Gnu => target::Environment::Gnu,
        wire::Environment::Gnuabi64 => target::Environment::Gnuabi64,
        wire::Environment::Gnueabi => target::Environment::Gnueabi,
        wire::Environment::Gnueabihf => target::Environment::Gnueabihf,
        wire::Environment::Gnuspe => target::Environment::Gnuspe,
        wire::Environment::Gnux32 => target::Environment::Gnux32,
        wire::Environment::GnuIlp32 => target::Environment::GnuIlp32,
        wire::Environment::Macabi => target::Environment::Macabi,
        wire::Environment::Musl => target::Environment::Musl,
        wire::Environment::Musleabi => target::Environment::Musleabi,
        wire::Environment::Musleabihf => target::Environment::Musleabihf,
        wire::Environment::Muslabi64 => target::Environment::Muslabi64,
        wire::Environment::Msvc => target::Environment::Msvc,
        wire::Environment::Kernel => target::Environment::Kernel,
        wire::Environment::Uclibc => target::Environment::Uclibc,
        wire::Environment::Uclibceabi => target::Environment::Uclibceabi,
        wire::Environment::Sgx => target::Environment::Sgx,
        wire::Environment::Softfloat => target::Environment::Softfloat,
        wire::Environment::Spe => target::Environment::Spe,
    }
}

/// Decodes a wire operating system value.
pub fn from_operating_system(os: wire::OperatingSystem) -> (r: target::OperatingSystem)
    ensures
        r == os_from_wire(os),
{
    match os {
        wire::OperatingSystem::Unknown => target::OperatingSystem::Unknown,
        wire::OperatingSystem::AmdHsa => target::OperatingSystem::AmdHsa,
        wire::OperatingSystem::Bitrig => target::OperatingSystem::Bitrig,
        wire::OperatingSystem::Cloudabi => target::OperatingSystem::Cloudabi,
        wire::OperatingSystem::Cuda => target::OperatingSystem::Cuda,
        wire::OperatingSystem::Darwin => target::OperatingSystem::Darwin,
        wire::OperatingSystem::Dragonfly => target::OperatingSystem::Dragonfly,
        wire::OperatingSystem::Emscripten => target::OperatingSystem::Emscripten,
        wire::OperatingSystem::Freebsd => target::OperatingSystem::Freebsd,
        wire::OperatingSystem::Fuchsia => target::OperatingSystem::Fuchsia,
        wire::OperatingSystem::Haiku => target::OperatingSystem::Haiku,
        wire::OperatingSystem::Hermit => target::OperatingSystem::Hermit,
        wire::OperatingSystem::Illumos => target::OperatingSystem::Illumos,
        wire::OperatingSystem::Ios => target::OperatingSystem::Ios,
        wire::OperatingSystem::L4re => target::OperatingSystem::L4re,
        wire::OperatingSystem::Linux => target::OperatingSystem::Linux,
        wire::OperatingSystem::Macosx => target::OperatingSystem::MacOSX { major: 10, minor: 10, patch: 10 },
        wire::OperatingSystem::Nebulet => target::OperatingSystem::Nebulet,
        wire::OperatingSystem::Netbsd => target::OperatingSystem::Netbsd,
        wire::OperatingSystem::None_ => target::OperatingSystem::None_,
        wire::OperatingSystem::Openbsd => target::OperatingSystem::Openbsd,
        wire::OperatingSystem::Psp => target::OperatingSystem::Psp,
        wire::OperatingSystem::Redox => target::OperatingSystem::Redox,
        wire::OperatingSystem::Solaris => target::OperatingSystem::Solaris,
        wire::OperatingSystem::Tvos => target::OperatingSystem::Tvos,
        wire::OperatingSystem::Uefi => target::OperatingSystem::Uefi,
        wire::OperatingSystem::VxWorks => target::OperatingSystem::VxWorks,
        wire::OperatingSystem::Wasi => target::OperatingSystem::Wasi,
        wire::OperatingSystem::Windows => target::OperatingSystem::Windows,
    }
}

/// Decodes a wire vendor value.
pub fn from_vendor(vendor: wire::Vendor) -> (r: target::Vendor)
    ensures
        r == vendor_from_wire(vendor),
{
    match vendor {
        wire::Vendor::Unknown => target::Vendor::Unknown,
        wire::Vendor::Amd => target::Vendor::Amd,
        wire::Vendor::Apple => target::Vendor::Apple,
        wire::Vendor::Experimental => target::Vendor::Experimental,
        wire::Vendor::Fortanix => target::Vendor::Fortanix,
        wire::Vendor::Nvidia => target::Vendor::Nvidia,
        wire::Vendor::Pc => target::Vendor::Pc,
        wire::Vendor::Rumprun => target::Vendor::Rumprun,
        wire::Vendor::Sun => target::Vendor::Sun,
        wire::Vendor::Uwp => target::Vendor::Uwp,
        wire::Vendor::Wrs => target::Vendor::Wrs,
    }
}

} // verus!
