//! Encoding of the code generator's target description into wire values.

use crate::convert::{
    arch_to_wire, binary_format_to_wire, environment_to_wire, os_to_wire, triple_to_wire,
    vendor_to_wire,
};
use crate::target;
use crate::wire;
use vstd::prelude::*;

verus! {

/// Encodes a triple field by field.
pub fn from_triple(triple: &target::Triple) -> (r: wire::Triple)
    ensures
        r == triple_to_wire(*triple),
{
    let architecture = from_architecture(&triple.architecture).to_i32();
    let binary_format = from_binary_format(&triple.binary_format).to_i32();
    let environment = from_environment(&triple.environment).to_i32();
    let operating_system = from_operating_system(&triple.operating_system).to_i32();
    let vendor = from_vendor(&triple.vendor).to_i32();
    wire::Triple { architecture, binary_format, environment, operating_system, vendor }
}

/// Encodes an architecture value.
pub fn from_architecture(architecture: &target::Architecture) -> (r: wire::Architecture)
    ensures
        r == arch_to_wire(*architecture),
{
    match architecture {
        target::Architecture::Unknown => wire::Architecture::Unknown,
        target::Architecture::Arm(target::ArmArchitecture::Arm) => wire::Architecture::Arm,
        target::Architecture::Arm(target::ArmArchitecture::Armeb) => wire::Architecture::Armeb,
        target::Architecture::Arm(target::ArmArchitecture::Armv4) => wire::Architecture::Armv4,
        target::Architecture::Arm(target::ArmArchitecture::Armv4t) => wire::Architecture::Armv4t,
        target::Architecture::Arm(target::ArmArchitecture::Armv5t) => wire::Architecture::Armv5t,
        target::Architecture::Arm(target::ArmArchitecture::Armv5te) => wire::Architecture::Armv5te,
        target::Architecture::Arm(target::ArmArchitecture::Armv5tej) => wire::Architecture::Armv5tej,
        target::Architecture::Arm(target::ArmArchitecture::Armv6) => wire::Architecture::Armv6,
        target::Architecture::Arm(target::ArmArchitecture::Armv6j) => wire::Architecture::Armv6j,
        target::Architecture::Arm(target::ArmArchitecture::Armv6k) => wire::Architecture::Armv6k,
        target::Architecture::Arm(target::ArmArchitecture::Armv6z) => wire::Architecture::Armv6z,
        target::Architecture::Arm(target::ArmArchitecture::Armv6kz) => wire::Architecture::Armv6kz,
        target::Architecture::Arm(target::ArmArchitecture::Armv6t2) => wire::Architecture::Armv6t2,
        target::Architecture::Arm(target::ArmArchitecture::Armv6m) => wire::Architecture::Armv6m,
        target::Architecture::Arm(target::ArmArchitecture::Armv7) => wire::Architecture::Armv7,
        target::Architecture::Arm(target::ArmArchitecture::Armv7a) => wire::Architecture::Armv7a,
        target::Architecture::Arm(target::ArmArchitecture::Armv7ve) => wire::Architecture::Armv7ve,
        target::Architecture::Arm(target::ArmArchitecture::Armv7m) => wire::Architecture::Armv7m,
        target::Architecture::Arm(target::ArmArchitecture::Armv7r) => wire::Architecture::Armv7r,
        target::Architecture::Arm(target::ArmArchitecture::Armv7s) => wire::Architecture::Armv7s,
        target::Architecture::Arm(target::ArmArchitecture::Armv8) => wire::Architecture::Armv8,
        target::Architecture::Arm(target::ArmArchitecture::Armv8a) => wire::Architecture::Armv8a,
        target::Architecture::Arm(target::ArmArchitecture::Armv8_1a) => wire::Architecture::Armv81a,
        target::Architecture::Arm(target::ArmArchitecture::Armv8_2a) => wire::Architecture::Armv82a,
        target::Architecture::Arm(target::ArmArchitecture::Armv8_3a) => wire::Architecture::Armv83a,
        target::Architecture::Arm(target::ArmArchitecture::Armv8_4a) => wire::Architecture::Armv84a,
        target::Architecture::Arm(target::ArmArchitecture::Armv8_5a) => wire::Architecture::Armv85a,
        target::Architecture::Arm(target::ArmArchitecture::Armv8mBase) => wire::Architecture::Armv8mBase,
        target::Architecture::Arm(target::ArmArchitecture::Armv8mMain) => wire::Architecture::Armv8mMain,
        target::Architecture::Arm(target::ArmArchitecture::Armv8r) => wire::Architecture::Armv8r,
        target::Architecture::Arm(target::ArmArchitecture::Armebv7r) => wire::Architecture::Armebv7r,
        target::Architecture::Arm(target::ArmArchitecture::Thumbeb) => wire::Architecture::Thumbeb,
        target::Architecture::Arm(target::ArmArchitecture::Thumbv4t) => wire::Architecture::Thumbv4t,
        target::Architecture::Arm(target::ArmArchitecture::Thumbv6m) => wire::Architecture::Thumbv6m,
        target::Architecture::Arm(target::ArmArchitecture::Thumbv7a) => wire::Architecture::Thumbv7a,
        target::Architecture::Arm(target::ArmArchitecture::Thumbv7em) => wire::Architecture::Thumbv7em,
        target::Architecture::Arm(target::ArmArchitecture::Thumbv7m) => wire::Architecture::Thumbv7m,
        target::Architecture::Arm(target::ArmArchitecture::Thumbv7neon) => wire::Architecture::Thumbv7neon,
        target::Architecture::Arm(target::ArmArchitecture::Thumbv8mBase) => wire::Architecture::Thumbv8mBase,
        target::Architecture::Arm(target::ArmArchitecture::Thumbv8mMain) => wire::Architecture::Thumbv8mMain,
        target::Architecture::AmdGcn => wire::Architecture::AmdGcn,
        target::Architecture::Aarch64(target::Aarch64Architecture::Aarch64) => wire::Architecture::Aarch64,
        target::Architecture::Aarch64(target::Aarch64Architecture::Aarch64be) => wire::Architecture::Aarch64be,
        target::Architecture::Asmjs => wire::Architecture::Asmjs,
        target::Architecture::Avr => wire::Architecture::Avr,
        target::Architecture::Hexagon => wire::Architecture::Hexagon,
        target::Architecture::X86_32(target::X86_32Architecture::I386) => wire::Architecture::I386,
        target::Architecture::X86_32(target::X86_32Architecture::I586) => wire::Architecture::I586,
        target::Architecture::X86_32(target::X86_32Architecture::I686) => wire::Architecture::I686,
        target::Architecture::Mips32(target::Mips32Architecture::Mips) => wire::Architecture::Mips,
        target::Architecture::Mips32(target::Mips32Architecture::Mipsel) => wire::Architecture::Mipsel,
        target::Architecture::Mips32(target::Mips32Architecture::Mipsisa32r6) => wire::Architecture::Mipsisa32r6,
        target::Architecture::Mips32(target::Mips32Architecture::Mipsisa32r6el) => wire::Architecture::Mipsisa32r6el,
        target::Architecture::Mips64(target::Mips64Architecture::Mips64) => wire::Architecture::Mips64,
        target::Architecture::Mips64(target::Mips64Architecture::Mips64el) => wire::Architecture::Mips64el,
        target::Architecture::Mips64(target::Mips64Architecture::Mipsisa64r6) => wire::Architecture::Mipsisa64r6,
        target::Architecture::Mips64(target::Mips64Architecture::Mipsisa64r6el) => wire::Architecture::Mipsisa64r6el,
        target::Architecture::Msp430 => wire::Architecture::Msp430,
        target::Architecture::Nvptx64 => wire::Architecture::Nvptx64,
        target::Architecture::Powerpc => wire::Architecture::Powerpc,
        target::Architecture::Powerpc64 => wire::Architecture::Powerpc64,
        target::Architecture::Powerpc64le => wire::Architecture::Powerpc64le,
        target::Architecture::Riscv32(target::Riscv32Architecture::Riscv32) => wire::Architecture::Riscv32,
        target::Architecture::Riscv32(target::Riscv32Architecture::Riscv32gc) => wire::Architecture::Riscv32gc,
        target::Architecture::Riscv32(target::Riscv32Architecture::Riscv32i) => wire::Architecture::Riscv32i,
        target::Architecture::Riscv32(target::Riscv32Architecture::Riscv32imac) => wire::Architecture::Riscv32imac,
        target::Architecture::Riscv32(target::Riscv32Architecture::Riscv32imc) => wire::Architecture::Riscv32imc,
        target::Architecture::Riscv64(target::Riscv64Architecture::Riscv64) => wire::Architecture::Riscv64,
        target::Architecture::Riscv64(target::Riscv64Architecture::Riscv64gc) => wire::Architecture::Riscv64gc,
        target::Architecture::Riscv64(target::Riscv64Architecture::Riscv64imac) => wire::Architecture::Riscv64imac,
        target::Architecture::S390x => wire::Architecture::S390x,
        target::Architecture::Sparc => wire::Architecture::Sparc,
        target::Architecture::Sparc64 => wire::Architecture::Sparc64,
        target::Architecture::Sparcv9 => wire::Architecture::Sparcv9,
        target::Architecture::Wasm32 => wire::Architecture::Wasm32,
        target::Architecture::Wasm64 => wire::Architecture::Wasm64,
        target::Architecture::X86_64 => wire::Architecture::X8664,
    }
}

/// Encodes a binary format value.
pub fn from_binary_format(bin_fmt: &target::BinaryFormat) -> (r: wire::BinaryFormat)
    ensures
        r == binary_format_to_wire(*bin_fmt),
{
    match bin_fmt {
        target::BinaryFormat::Unknown => wire::BinaryFormat::Unknown,
        target::BinaryFormat::Elf => wire::BinaryFormat::Elf,
        target::BinaryFormat::Coff => wire::BinaryFormat::Coff,
        target::BinaryFormat::Macho => wire::BinaryFormat::Macho,
        target::BinaryFormat::Wasm => wire::BinaryFormat::Wasm,
    }
}

/// Encodes an environment value.
pub fn from_environment(env: &target::Environment) -> (r: wire::Environment)
    ensures
        r == environment_to_wire(*env),
{
    match env {
        target::Environment::Unknown => wire::Environment::Unknown,
        target::Environment::AmdGiz => wire::Environment::AmdGiz,
        target::Environment::Android => wire::Environment::Android,
        target::Environment::Androideabi => wire::Environment::Androideabi,
        target::Environment::Eabi => wire::Environment::Eabi,
        target::Environment::Eabihf => wire::Environment::Eabihf,
        target::Environment::Gnu => wire::Environment::Gnu,
        target::Environment::Gnuabi64 => wire::Environment::Gnuabi64,
        target::Environment::Gnueabi => wire::Environment::Gnueabi,
        target::Environment::Gnueabihf => wire::Environment::Gnueabihf,
        target::Environment::Gnuspe => wire::Environment::Gnuspe,
        target::Environment::Gnux32 => wire::Environment::Gnux32,
        target::Environment::GnuIlp32 => wire::Environment::GnuIlp32,
        target::Environment::Macabi => wire::Environment::Macabi,
        target::Environment::Musl => wire::Environment::Musl,
        target::Environment::Musleabi => wire::Environment::Musleabi,
        target::Environment::Musleabihf => wire::Environment::Musleabihf,
        target::Environment::Muslabi64 => wire::Environment::Muslabi64,
        target::Environment::Msvc => wire::Environment::Msvc,
        target::Environment::Kernel => wire::Environment::Kernel,
        target::Environment::Uclibc => wire::Environment::Uclibc,
        target::Environment::Uclibceabi => wire::Environment::Uclibceabi,
        target::Environment::Sgx => wire::Environment::Sgx,
        target::Environment::Softfloat => wire::Environment::Softfloat,
        target::Environment::Spe => wire::Environment::Spe,
    }
}

/// Encodes an operating system value.
pub fn from_operating_system(os: &target::OperatingSystem) -> (r: wire::OperatingSystem)
    ensures
        r == os_to_wire(*os),
{
    match os {
        target::OperatingSystem::Unknown => wire::OperatingSystem::Unknown,
        target::OperatingSystem::AmdHsa => wire::OperatingSystem::AmdHsa,
        target::OperatingSystem::Bitrig => wire::OperatingSystem::Bitrig,
        target::OperatingSystem::Cloudabi => wire::OperatingSystem::Cloudabi,
        target::OperatingSystem::Cuda => wire::OperatingSystem::Cuda,
        target::OperatingSystem::Darwin => wire::OperatingSystem::Darwin,
        target::OperatingSystem::Dragonfly => wire::OperatingSystem::Dragonfly,
        target::OperatingSystem::Emscripten => wire::OperatingSystem::Emscripten,
        target::OperatingSystem::Freebsd => wire::OperatingSystem::Freebsd,
        target::OperatingSystem::Fuchsia => wire::OperatingSystem::Fuchsia,
        target::OperatingSystem::Haiku => wire::OperatingSystem::Haiku,
        target::OperatingSystem::Hermit => wire::OperatingSystem::Hermit,
        target::OperatingSystem::Illumos => wire::OperatingSystem::Illumos,
        target::OperatingSystem::Ios => wire::OperatingSystem::Ios,
        target::OperatingSystem::L4re => wire::OperatingSystem::L4re,
        target::OperatingSystem::Linux => wire::OperatingSystem::Linux,
        target::OperatingSystem::MacOSX { .. } => wire::OperatingSystem::Macosx,
        target::OperatingSystem::Nebulet => wire::OperatingSystem::Nebulet,
        target::OperatingSystem::Netbsd => wire::OperatingSystem::Netbsd,
        target::OperatingSystem::None_ => wire::OperatingSystem::None_,
        target::OperatingSystem::Openbsd => wire::OperatingSystem::Openbsd,
        target::OperatingSystem::Psp => wire::OperatingSystem::Psp,
        target::OperatingSystem::Redox => wire::OperatingSystem::Redox,
        target::OperatingSystem::Solaris => wire::OperatingSystem::Solaris,
        target::OperatingSystem::Tvos => wire::OperatingSystem::Tvos,
        target::OperatingSystem::Uefi => wire::OperatingSystem::Uefi,
        target::OperatingSystem::VxWorks => wire::OperatingSystem::VxWorks,
        target::OperatingSystem::Wasi => wire::OperatingSystem::Wasi,
        target::OperatingSystem::Windows => wire::OperatingSystem::Windows,
    }
}

/// Encodes a vendor value.
pub fn from_vendor(vendor: &target::Vendor) -> (r: wire::Vendor)
    ensures
        r == vendor_to_wire(*vendor),
{
    match vendor {
        target::Vendor::Unknown => wire::Vendor::Unknown,
        target::Vendor::Amd => wire::Vendor::Amd,
        target::Vendor::Apple => wire::Vendor::Apple,
        target::Vendor::Experimental => wire::Vendor::Experimental,
        target::Vendor::Fortanix => wire::Vendor::Fortanix,
        target::Vendor::Nvidia => wire::Vendor::Nvidia,
        target::Vendor::Pc => wire::Vendor::Pc,
        target::Vendor::Rumprun => wire::Vendor::Rumprun,
        target::Vendor::Sun => wire::Vendor::Sun,
        target::Vendor::Uwp => wire::Vendor::Uwp,
        target::Vendor::Wrs => wire::Vendor::Wrs,
    }
}

} // verus!
