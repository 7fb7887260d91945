//! Conversion between the wire form of a target triple and the code
//! generator's form. The two tables below are the whole mapping; the
//! functions in `rpc2internal` and `internal2rpc` compute them.

use crate::target;
use crate::wire;
use vstd::prelude::*;

pub mod internal2rpc;
pub mod rpc2internal;

verus! {

/// The Architecture value that a wire value stands for.
pub open spec fn arch_from_wire(w: wire::Architecture) -> target::Architecture {
    match w {
        wire::Architecture::Unknown => target::Architecture::Unknown,
        wire::Architecture::Arm => target::Architecture::Arm(target::ArmArchitecture::Arm),
        wire::Architecture::Armeb => target::Architecture::Arm(target::ArmArchitecture::Armeb),
        wire::Architecture::Armv4 => target::Architecture::Arm(target::ArmArchitecture::Armv4),
        wire::Architecture::Armv4t => target::Architecture::Arm(target::ArmArchitecture::Armv4t),
        wire::Architecture::Armv5t => target::Architecture::Arm(target::ArmArchitecture::Armv5t),
        wire::Architecture::Armv5te => target::Architecture::Arm(target::ArmArchitecture::Armv5te),
        wire::Architecture::Armv5tej => target::Architecture::Arm(target::ArmArchitecture::Armv5tej),
        wire::Architecture::Armv6 => target::Architecture::Arm(target::ArmArchitecture::Armv6),
        wire::Architecture::Armv6j => target::Architecture::Arm(target::ArmArchitecture::Armv6j),
        wire::Architecture::Armv6k => target::Architecture::Arm(target::ArmArchitecture::Armv6k),
        wire::Architecture::Armv6z => target::Architecture::Arm(target::ArmArchitecture::Armv6z),
        wire::Architecture::Armv6kz => target::Architecture::Arm(target::ArmArchitecture::Armv6kz),
        wire::Architecture::Armv6t2 => target::Architecture::Arm(target::ArmArchitecture::Armv6t2),
        wire::Architecture::Armv6m => target::Architecture::Arm(target::ArmArchitecture::Armv6m),
        wire::Architecture::Armv7 => target::Architecture::Arm(target::ArmArchitecture::Armv7),
        wire::Architecture::Armv7a => target::Architecture::Arm(target::ArmArchitecture::Armv7a),
        wire::Architecture::Armv7ve => target::Architecture::Arm(target::ArmArchitecture::Armv7ve),
        wire::Architecture::Armv7m => target::Architecture::Arm(target::ArmArchitecture::Armv7m),
        wire::Architecture::Armv7r => target::Architecture::Arm(target::ArmArchitecture::Armv7r),
        wire::Architecture::Armv7s => target::Architecture::Arm(target::ArmArchitecture::Armv7s),
        wire::Architecture::Armv8 => target::Architecture::Arm(target::ArmArchitecture::Armv8),
        wire::Architecture::Armv8a => target::Architecture::Arm(target::ArmArchitecture::Armv8a),
        wire::Architecture::Armv81a => target::Architecture::Arm(target::ArmArchitecture::Armv8_1a),
        wire::Architecture::Armv82a => target::Architecture::Arm(target::ArmArchitecture::Armv8_2a),
        wire::Architecture::Armv83a => target::Architecture::Arm(target::ArmArchitecture::Armv8_3a),
        wire::Architecture::Armv84a => target::Architecture::Arm(target::ArmArchitecture::Armv8_4a),
        wire::Architecture::Armv85a => target::Architecture::Arm(target::ArmArchitecture::Armv8_5a),
        wire::Architecture::Armv8mBase => target::Architecture::Arm(target::ArmArchitecture::Armv8mBase),
        wire::Architecture::Armv8mMain => target::Architecture::Arm(target::ArmArchitecture::Armv8mMain),
        wire::Architecture::Armv8r => target::Architecture::Arm(target::ArmArchitecture::Armv8r),
        wire::Architecture::Armebv7r => target::Architecture::Arm(target::ArmArchitecture::Armebv7r),
        wire::Architecture::Thumbeb => target::Architecture::Arm(target::ArmArchitecture::Thumbeb),
        wire::Architecture::Thumbv4t => target::Architecture::Arm(target::ArmArchitecture::Thumbv4t),
        wire::Architecture::Thumbv6m => target::Architecture::Arm(target::ArmArchitecture::Thumbv6m),
        wire::Architecture::Thumbv7a => target::Architecture::Arm(target::ArmArchitecture::Thumbv7a),
        wire::Architecture::Thumbv7em => target::Architecture::Arm(target::ArmArchitecture::Thumbv7em),
        wire::Architecture::Thumbv7m => target::Architecture::Arm(target::ArmArchitecture::Thumbv7m),
        wire::Architecture::Thumbv7neon => target::Architecture::Arm(target::ArmArchitecture::Thumbv7neon),
        wire::Architecture::Thumbv8mBase => target::Architecture::Arm(target::ArmArchitecture::Thumbv8mBase),
        wire::Architecture::Thumbv8mMain => target::Architecture::Arm(target::ArmArchitecture::Thumbv8mMain),
        wire::Architecture::AmdGcn => target::Architecture::AmdGcn,
        wire::Architecture::Aarch64 => target::Architecture::Aarch64(target::Aarch64Architecture::Aarch64),
        wire::Architecture::Aarch64be => target::Architecture::Aarch64(target::Aarch64Architecture::Aarch64be),
        wire::Architecture::Asmjs => target::Architecture::Asmjs,
        wire::Architecture::Avr => target::Architecture::Avr,
        wire::Architecture::Hexagon => target::Architecture::Hexagon,
        wire::Architecture::I386 => target::Architecture::X86_32(target::X86_32Architecture::I386),
        wire::Architecture::I586 => target::Architecture::X86_32(target::X86_32Architecture::I586),
        wire::Architecture::I686 => target::Architecture::X86_32(target::X86_32Architecture::I686),
        wire::Architecture::Mips => target::Architecture::Mips32(target::Mips32Architecture::Mips),
        wire::Architecture::Mipsel => target::Architecture::Mips32(target::Mips32Architecture::Mipsel),
        wire::Architecture::Mipsisa32r6 => target::Architecture::Mips32(target::Mips32Architecture::Mipsisa32r6),
        wire::Architecture::Mipsisa32r6el => target::Architecture::Mips32(target::Mips32Architecture::Mipsisa32r6el),
        wire::Architecture::Mips64 => target::Architecture::Mips64(target::Mips64Architecture::Mips64),
        wire::Architecture::Mips64el => target::Architecture::Mips64(target::Mips64Architecture::Mips64el),
        wire::Architecture::Mipsisa64r6 => target::Architecture::Mips64(target::Mips64Architecture::Mipsisa64r6),
        wire::Architecture::Mipsisa64r6el => target::Architecture::Mips64(target::Mips64Architecture::Mipsisa64r6el),
        wire::Architecture::Msp430 => target::Architecture::Msp430,
        wire::Architecture::Nvptx64 => target::Architecture::Nvptx64,
        wire::Architecture::Powerpc => target::Architecture::Powerpc,
        wire::Architecture::Powerpc64 => target::Architecture::Powerpc64,
        wire::Architecture::Powerpc64le => target::Architecture::Powerpc64le,
        wire::Architecture::Riscv32 => target::Architecture::Riscv32(target::Riscv32Architecture::Riscv32),
        wire::Architecture::Riscv32gc => target::Architecture::Riscv32(target::Riscv32Architecture::Riscv32gc),
        wire::Architecture::Riscv32i => target::Architecture::Riscv32(target::Riscv32Architecture::Riscv32i),
        wire::Architecture::Riscv32imac => target::Architecture::Riscv32(target::Riscv32Architecture::Riscv32imac),
        wire::Architecture::Riscv32imc => target::Architecture::Riscv32(target::Riscv32Architecture::Riscv32imc),
        wire::Architecture::Riscv64 => target::Architecture::Riscv64(target::Riscv64Architecture::Riscv64),
        wire::Architecture::Riscv64gc => target::Architecture::Riscv64(target::Riscv64Architecture::Riscv64gc),
        wire::Architecture::Riscv64imac => target::Architecture::Riscv64(target::Riscv64Architecture::Riscv64imac),
        wire::Architecture::S390x => target::Architecture::S390x,
        wire::Architecture::Sparc => target::Architecture::Sparc,
        wire::Architecture::Sparc64 => target::Architecture::Sparc64,
        wire::Architecture::Sparcv9 => target::Architecture::Sparcv9,
        wire::Architecture::Wasm32 => target::Architecture::Wasm32,
        wire::Architecture::Wasm64 => target::Architecture::Wasm64,
        wire::Architecture::X8664 => target::Architecture::X86_64,
    }
}

/// The wire value that stands for a Architecture value.
pub open spec fn arch_to_wire(v: target::Architecture) -> wire::Architecture {
    match v {
        target::Architecture::Unknown => wire::Architecture::Unknown,
        target::Architecture::Arm(target::ArmArchitecture::Arm) => wire::Architecture::Arm,
        target::Architecture::Arm(target::ArmArchitecture::Armeb) => wire::Architecture::Armeb,
        target::Architecture::Arm(target::ArmArchitecture::Armv4) => wire::Architecture::Armv4,
        target::Architecture::Arm(target::ArmArchitecture::Armv4t) => wire::Architecture::Armv4t,
        target::Architecture::Arm(target::ArmArchitecture::Armv5t) => wire::Architecture::Armv5t,
        target::Architecture::Arm(target::ArmArchitecture::Armv5te) => wire::Architecture::Armv5te,
        target::Architecture::Arm(target::ArmArchitecture::Armv5tej) => wire::Architecture::Armv5tej,
        target::Architecture::Arm(target::ArmArchitecture::Armv6) => wire::Architecture::Armv6,
        target::Architecture::Arm(target::ArmArchitecture::Armv6j) => wire::Architecture::Armv6j,
        target::Architecture::Arm(target::ArmArchitecture::Armv6k) => wire::Architecture::Armv6k,
        target::Architecture::Arm(target::ArmArchitecture::Armv6z) => wire::Architecture::Armv6z,
        target::Architecture::Arm(target::ArmArchitecture::Armv6kz) => wire::Architecture::Armv6kz,
        target::Architecture::Arm(target::ArmArchitecture::Armv6t2) => wire::Architecture::Armv6t2,
        target::Architecture::Arm(target::ArmArchitecture::Armv6m) => wire::Architecture::Armv6m,
        target::Architecture::Arm(target::ArmArchitecture::Armv7) => wire::Architecture::Armv7,
        target::Architecture::Arm(target::ArmArchitecture::Armv7a) => wire::Architecture::Armv7a,
        target::Architecture::Arm(target::ArmArchitecture::Armv7ve) => wire::Architecture::Armv7ve,
        target::Architecture::Arm(target::ArmArchitecture::Armv7m) => wire::Architecture::Armv7m,
        target::Architecture::Arm(target::ArmArchitecture::Armv7r) => wire::Architecture::Armv7r,
        target::Architecture::Arm(target::ArmArchitecture::Armv7s) => wire::Architecture::Armv7s,
        target::Architecture::Arm(target::ArmArchitecture::Armv8) => wire::Architecture::Armv8,
        target::Architecture::Arm(target::ArmArchitecture::Armv8a) => wire::Architecture::Armv8a,
        target::Architecture::Arm(target::ArmArchitecture::Armv8_1a) => wire::Architecture::Armv81a,
        target::Architecture::Arm(target::ArmArchitecture::Armv8_2a) => wire::Architecture::Armv82a,
        target::Architecture::Arm(target::ArmArchitecture::Armv8_3a) => wire::Architecture::Armv83a,
        target::Architecture::Arm(target::ArmArchitecture::Armv8_4a) => wire::Architecture::Armv84a,
        target::Architecture::Arm(target::ArmArchitecture::Armv8_5a) => wire::Architecture::Armv85a,
        target::Architecture::Arm(target::ArmArchitecture::Armv8mBase) => wire::Architecture::Armv8mBase,
        target::Architecture::Arm(target::ArmArchitecture::Armv8mMain) => wire::Architecture::Armv8mMain,
        target::Architecture::Arm(target::ArmArchitecture::Armv8r) => wire::Architecture::Armv8r,
        target::Architecture::Arm(target::ArmArchitecture::Armebv7r) => wire::Architecture::Armebv7r,
        target::Architecture::Arm(target::ArmArchitecture::Thumbeb) => wire::Architecture::Thumbeb,
        target::Architecture::Arm(target::ArmArchitecture::Thumbv4t) => wire::Architecture::Thumbv4t,
        target::Architecture::Arm(target::ArmArchitecture::Thumbv6m) => wire::Architecture::Thumbv6m,
        target::Architecture::Arm(target::ArmArchitecture::Thumbv7a) => wire::Architecture::Thumbv7a,
        target::Architecture::Arm(target::ArmArchitecture::Thumbv7em) => wire::Architecture::Thumbv7em,
        target::Architecture::Arm(target::ArmArchitecture::Thumbv7m) => wire::Architecture::Thumbv7m,
        target::Architecture::Arm(target::ArmArchitecture::Thumbv7neon) => wire::Architecture::Thumbv7neon,
        target::Architecture::Arm(target::ArmArchitecture::Thumbv8mBase) => wire::Architecture::Thumbv8mBase,
        target::Architecture::Arm(target::ArmArchitecture::Thumbv8mMain) => wire::Architecture::Thumbv8mMain,
        target::Architecture::AmdGcn => wire::Architecture::AmdGcn,
        target::Architecture::Aarch64(target::Aarch64Architecture::Aarch64) => wire::Architecture::Aarch64,
        target::Architecture::Aarch64(target::Aarch64Architecture::Aarch64be) => wire::Architecture::Aarch64be,
        target::Architecture::Asmjs => wire::Architecture::Asmjs,
        target::Architecture::Avr => wire::Architecture::Avr,
        target::Architecture::Hexagon => wire::Architecture::Hexagon,
        target::Architecture::X86_32(target::X86_32Architecture::I386) => wire::Architecture::I386,
        target::Architecture::X86_32(target::X86_32Architecture::I586) => wire::Architecture::I586,
        target::Architecture::X86_32(target::X86_32Architecture::I686) => wire::Architecture::I686,
        target::Architecture::Mips32(target::Mips32Architecture::Mips) => wire::Architecture::Mips,
        target::Architecture::Mips32(target::Mips32Architecture::Mipsel) => wire::Architecture::Mipsel,
        target::Architecture::Mips32(target::Mips32Architecture::Mipsisa32r6) => wire::Architecture::Mipsisa32r6,
        target::Architecture::Mips32(target::Mips32Architecture::Mipsisa32r6el) => wire::Architecture::Mipsisa32r6el,
        target::Architecture::Mips64(target::Mips64Architecture::Mips64) => wire::Architecture::Mips64,
        target::Architecture::Mips64(target::Mips64Architecture::Mips64el) => wire::Architecture::Mips64el,
        target::Architecture::Mips64(target::Mips64Architecture::Mipsisa64r6) => wire::Architecture::Mipsisa64r6,
        target::Architecture::Mips64(target::Mips64Architecture::Mipsisa64r6el) => wire::Architecture::Mipsisa64r6el,
        target::Architecture::Msp430 => wire::Architecture::Msp430,
        target::Architecture::Nvptx64 => wire::Architecture::Nvptx64,
        target::Architecture::Powerpc => wire::Architecture::Powerpc,
        target::Architecture::Powerpc64 => wire::Architecture::Powerpc64,
        target::Architecture::Powerpc64le => wire::Architecture::Powerpc64le,
        target::Architecture::Riscv32(target::Riscv32Architecture::Riscv32) => wire::Architecture::Riscv32,
        target::Architecture::Riscv32(target::Riscv32Architecture::Riscv32gc) => wire::Architecture::Riscv32gc,
        target::Architecture::Riscv32(target::Riscv32Architecture::Riscv32i) => wire::Architecture::Riscv32i,
        target::Architecture::Riscv32(target::Riscv32Architecture::Riscv32imac) => wire::Architecture::Riscv32imac,
        target::Architecture::Riscv32(target::Riscv32Architecture::Riscv32imc) => wire::Architecture::Riscv32imc,
        target::Architecture::Riscv64(target::Riscv64Architecture::Riscv64) => wire::Architecture::Riscv64,
        target::Architecture::Riscv64(target::Riscv64Architecture::Riscv64gc) => wire::Architecture::Riscv64gc,
        target::Architecture::Riscv64(target::Riscv64Architecture::Riscv64imac) => wire::Architecture::Riscv64imac,
        target::Architecture::S390x => wire::Architecture::S390x,
        target::Architecture::Sparc => wire::Architecture::Sparc,
        target::Architecture::Sparc64 => wire::Architecture::Sparc64,
        target::Architecture::Sparcv9 => wire::Architecture::Sparcv9,
        target::Architecture::Wasm32 => wire::Architecture::Wasm32,
        target::Architecture::Wasm64 => wire::Architecture::Wasm64,
        target::Architecture::X86_64 => wire::Architecture::X8664,
    }
}

/// The BinaryFormat value that a wire value stands for.
pub open spec fn binary_format_from_wire(w: wire::BinaryFormat) -> target::BinaryFormat {
    match w {
        wire::BinaryFormat::Unknown => target::BinaryFormat::Unknown,
        wire::BinaryFormat::Elf => target::BinaryFormat::Elf,
        wire::BinaryFormat::Coff => target::BinaryFormat::Coff,
        wire::BinaryFormat::Macho => target::BinaryFormat::Macho,
        wire::BinaryFormat::Wasm => target::BinaryFormat::Wasm,
    }
}

/// The wire value that stands for a BinaryFormat value.
pub open spec fn binary_format_to_wire(v: target::BinaryFormat) -> wire::BinaryFormat {
    match v {
        target::BinaryFormat::Unknown => wire::BinaryFormat::Unknown,
        target::BinaryFormat::Elf => wire::BinaryFormat::Elf,
        target::BinaryFormat::Coff => wire::BinaryFormat::Coff,
        target::BinaryFormat::Macho => wire::BinaryFormat::Macho,
        target::BinaryFormat::Wasm => wire::BinaryFormat::Wasm,
    }
}

/// The Environment value that a wire value stands for.
pub open spec fn environment_from_wire(w: wire::Environment) -> target::Environment {
    match w {
        wire::Environment::Unknown => target::Environment::Unknown,
        wire::Environment::AmdGiz => target::Environment::AmdGiz,
        wire::Environment::Android => target::Environment::Android,
        wire::Environment::Androideabi => target::Environment::Androideabi,
        wire::Environment::Eabi => target::Environment::Eabi,
        wire::Environment::Eabihf => target::Environment::Eabihf,
        wire::Environment::Gnu => target::Environment::Gnu,
        wire::Environment::Gnuabi64 => target::Environment::Gnuabi64,
        wire::Environment::Gnueabi => target::Environment::Gnueabi,
        wire::Environment::Gnueabihf => target::Environment::Gnueabihf,
        wire::Environment::Gnuspe => target::Environment::Gnuspe,
        wire::Environment::Gnux32 => target::Environment::Gnux32,
        wire::Environment::GnuIlp32 => target::Environment::GnuIlp32,
        wire::Environment::Macabi => target::Environment::Macabi,
        wire::Environment::Musl => target::Environment::Musl,
        wire::Environment::Musleabi => target::Environment::Musleabi,
        wire::Environment::Musleabihf => target::Environment::Musleabihf,
        wire::Environment::Muslabi64 => target::Environment::Muslabi64,
        wire::Environment::Msvc => target::Environment::Msvc,
        wire::Environment::Kernel => target::Environment::Kernel,
        wire::Environment::Uclibc => target::Environment::Uclibc,
        wire::Environment::Uclibceabi => target::Environment::Uclibceabi,
        wire::Environment::Sgx => target::Environment::Sgx,
        wire::Environment::Softfloat => target::Environment::Softfloat,
        wire::Environment::Spe => target::Environment::Spe,
    }
}

/// The wire value that stands for a Environment value.
pub open spec fn environment_to_wire(v: target::Environment) -> wire::Environment {
    match v {
        target::Environment::Unknown => wire::Environment::Unknown,
        target::Environment::AmdGiz => wire::Environment::AmdGiz,
        target::Environment::Android => wire::Environment::Android,
        target::Environment::Androideabi => wire::Environment::Androideabi,
        target::Environment::Eabi => wire::Environment::Eabi,
        target::Environment::Eabihf => wire::Environment::Eabihf,
        target::Environment::Gnu => wire::Environment::Gnu,
        target::Environment::Gnuabi64 => wire::Environment::Gnuabi64,
        target::Environment::Gnueabi => wire::Environment::Gnueabi,
        target::Environment::Gnueabihf => wire::Environment::Gnueabihf,
        target::Environment::Gnuspe => wire::Environment::Gnuspe,
        target::Environment::Gnux32 => wire::Environment::Gnux32,
        target::Environment::GnuIlp32 => wire::Environment::GnuIlp32,
        target::Environment::Macabi => wire::Environment::Macabi,
        target::Environment::Musl => wire::Environment::Musl,
        target::Environment::Musleabi => wire::Environment::Musleabi,
        target::Environment::Musleabihf => wire::Environment::Musleabihf,
        target::Environment::Muslabi64 => wire::Environment::Muslabi64,
        target::Environment::Msvc => wire::Environment::Msvc,
        target::Environment::Kernel => wire::Environment::Kernel,
        target::Environment::Uclibc => wire::Environment::Uclibc,
        target::Environment::Uclibceabi => wire::Environment::Uclibceabi,
        target::Environment::Sgx => wire::Environment::Sgx,
        target::Environment::Softfloat => wire::Environment::Softfloat,
        target::Environment::Spe => wire::Environment::Spe,
    }
}

/// The OperatingSystem value that a wire value stands for.
pub open spec fn os_from_wire(w: wire::OperatingSystem) -> target::OperatingSystem {
    match w {
        wire::OperatingSystem::Unknown => target::OperatingSystem::Unknown,
        wire::OperatingSystem::AmdHsa => target::OperatingSystem::AmdHsa,
        wire::OperatingSystem::Bitrig => target::OperatingSystem::Bitrig,
        wire::OperatingSystem::Cloudabi => target::OperatingSystem::Cloudabi,
        wire::OperatingSystem::Cuda => target::OperatingSystem::Cuda,
        wire::OperatingSystem::Darwin => target::OperatingSystem::Darwin,
        wire::OperatingSystem::Dragonfly => target::OperatingSystem::Dragonfly,
        wire::OperatingSystem::Emscripten => target::OperatingSystem::Emscripten,
        wire::OperatingSystem::Freebsd => target::OperatingSystem::Freebsd,
        wire::OperatingSystem::Fuchsia => target::OperatingSystem::Fuchsia,
        wire::OperatingSystem::Haiku => target::OperatingSystem::Haiku,
        wire::OperatingSystem::Hermit => target::OperatingSystem::Hermit,
        wire::OperatingSystem::Illumos => target::OperatingSystem::Illumos,
        wire::OperatingSystem::Ios => target::OperatingSystem::Ios,
        wire::OperatingSystem::L4re => target::OperatingSystem::L4re,
        wire::OperatingSystem::Linux => target::OperatingSystem::Linux,
        wire::OperatingSystem::Macosx => target::OperatingSystem::MacOSX { major: 10, minor: 10, patch: 10 },
        wire::OperatingSystem::Nebulet => target::OperatingSystem::Nebulet,
        wire::OperatingSystem::Netbsd => target::OperatingSystem::Netbsd,
        wire::OperatingSystem::None_ => target::OperatingSystem::None_,
        wire::OperatingSystem::Openbsd => target::OperatingSystem::Openbsd,
        wire::OperatingSystem::Psp => target::OperatingSystem::Psp,
        wire::OperatingSystem::Redox => target::OperatingSystem::Redox,
        wire::OperatingSystem::Solaris => target::OperatingSystem::Solaris,
        wire::OperatingSystem::Tvos => target::OperatingSystem::Tvos,
        wire::OperatingSystem::Uefi => target::OperatingSystem::Uefi,
        wire::OperatingSystem::VxWorks => target::OperatingSystem::VxWorks,
        wire::OperatingSystem::Wasi => target::OperatingSystem::Wasi,
        wire::OperatingSystem::Windows => target::OperatingSystem::Windows,
    }
}

/// The wire value that stands for a OperatingSystem value.
pub open spec fn os_to_wire(v: target::OperatingSystem) -> wire::OperatingSystem {
    match v {
        target::OperatingSystem::Unknown => wire::OperatingSystem::Unknown,
        target::OperatingSystem::AmdHsa => wire::OperatingSystem::AmdHsa,
        target::OperatingSystem::Bitrig => wire::OperatingSystem::Bitrig,
        target::OperatingSystem::Cloudabi => wire::OperatingSystem::Cloudabi,
        target::OperatingSystem::Cuda => wire::OperatingSystem::Cuda,
        target::OperatingSystem::Darwin => wire::OperatingSystem::Darwin,
        target::OperatingSystem::Dragonfly => wire::OperatingSystem::Dragonfly,
        target::OperatingSystem::Emscripten => wire::OperatingSystem::Emscripten,
        target::OperatingSystem::Freebsd => wire::OperatingSystem::Freebsd,
        target::OperatingSystem::Fuchsia => wire::OperatingSystem::Fuchsia,
        target::OperatingSystem::Haiku => wire::OperatingSystem::Haiku,
        target::OperatingSystem::Hermit => wire::OperatingSystem::Hermit,
        target::OperatingSystem::Illumos => wire::OperatingSystem::Illumos,
        target::OperatingSystem::Ios => wire::OperatingSystem::Ios,
        target::OperatingSystem::L4re => wire::OperatingSystem::L4re,
        target::OperatingSystem::Linux => wire::OperatingSystem::Linux,
        target::OperatingSystem::MacOSX { .. } => wire::OperatingSystem::Macosx,
        target::OperatingSystem::Nebulet => wire::OperatingSystem::Nebulet,
        target::OperatingSystem::Netbsd => wire::OperatingSystem::Netbsd,
        target::OperatingSystem::None_ => wire::OperatingSystem::None_,
        target::OperatingSystem::Openbsd => wire::OperatingSystem::Openbsd,
        target::OperatingSystem::Psp => wire::OperatingSystem::Psp,
        target::OperatingSystem::Redox => wire::OperatingSystem::Redox,
        target::OperatingSystem::Solaris => wire::OperatingSystem::Solaris,
        target::OperatingSystem::Tvos => wire::OperatingSystem::Tvos,
        target::OperatingSystem::Uefi => wire::OperatingSystem::Uefi,
        target::OperatingSystem::VxWorks => wire::OperatingSystem::VxWorks,
        target::OperatingSystem::Wasi => wire::OperatingSystem::Wasi,
        target::OperatingSystem::Windows => wire::OperatingSystem::Windows,
    }
}

/// The Vendor value that a wire value stands for.
pub open spec fn vendor_from_wire(w: wire::Vendor) -> target::Vendor {
    match w {
        wire::Vendor::Unknown => target::Vendor::Unknown,
        wire::Vendor::Amd => target::Vendor::Amd,
        wire::Vendor::Apple => target::Vendor::Apple,
        wire::Vendor::Experimental => target::Vendor::Experimental,
        wire::Vendor::Fortanix => target::Vendor::Fortanix,
        wire::Vendor::Nvidia => target::Vendor::Nvidia,
        wire::Vendor::Pc => target::Vendor::Pc,
        wire::Vendor::Rumprun => target::Vendor::Rumprun,
        wire::Vendor::Sun => target::Vendor::Sun,
        wire::Vendor::Uwp => target::Vendor::Uwp,
        wire::Vendor::Wrs => target::Vendor::Wrs,
    }
}

/// The wire value that stands for a Vendor value.
pub open spec fn vendor_to_wire(v: target::Vendor) -> wire::Vendor {
    match v {
        target::Vendor::Unknown => wire::Vendor::Unknown,
        target::Vendor::Amd => wire::Vendor::Amd,
        target::Vendor::Apple => wire::Vendor::Apple,
        target::Vendor::Experimental => wire::Vendor::Experimental,
        target::Vendor::Fortanix => wire::Vendor::Fortanix,
        target::Vendor::Nvidia => wire::Vendor::Nvidia,
        target::Vendor::Pc => wire::Vendor::Pc,
        target::Vendor::Rumprun => wire::Vendor::Rumprun,
        target::Vendor::Sun => wire::Vendor::Sun,
        target::Vendor::Uwp => wire::Vendor::Uwp,
        target::Vendor::Wrs => wire::Vendor::Wrs,
    }
}

/// The wire carries no version for macOS: an operating system value crosses
/// the wire unchanged unless it is a macOS version other than the one that
/// decoding assumes (10.10.10).
pub open spec fn os_survives_wire(o: target::OperatingSystem) -> bool {
    o matches target::OperatingSystem::MacOSX { major, minor, patch } ==> major == 10 && minor == 10
        && patch == 10
}

/// The wire form of a triple.
pub open spec fn triple_to_wire(t: target::Triple) -> wire::Triple {
    wire::Triple {
        architecture: arch_to_wire(t.architecture).spec_tag(),
        binary_format: binary_format_to_wire(t.binary_format).spec_tag(),
        environment: environment_to_wire(t.environment).spec_tag(),
        operating_system: os_to_wire(t.operating_system).spec_tag(),
        vendor: vendor_to_wire(t.vendor).spec_tag(),
    }
}

/// Whether every field of a wire triple holds a known tag.
pub open spec fn wire_triple_valid(w: wire::Triple) -> bool {
    &&& 0 <= w.architecture < wire::ARCH_COUNT
    &&& 0 <= w.binary_format < wire::BINARY_FORMAT_COUNT
    &&& 0 <= w.environment < wire::ENVIRONMENT_COUNT
    &&& 0 <= w.operating_system < wire::OS_COUNT
    &&& 0 <= w.vendor < wire::VENDOR_COUNT
}

/// The triple that a wire triple stands for. Each field is read from its own
/// slot, and a field holding an unknown tag reads as `Unknown`.
pub open spec fn triple_from_wire(w: wire::Triple) -> target::Triple {
    target::Triple {
        architecture: arch_from_wire(wire::Architecture::spec_from_i32(w.architecture)),
        vendor: vendor_from_wire(wire::Vendor::spec_from_i32(w.vendor)),
        operating_system: os_from_wire(wire::OperatingSystem::spec_from_i32(w.operating_system)),
        environment: environment_from_wire(wire::Environment::spec_from_i32(w.environment)),
        binary_format: binary_format_from_wire(wire::BinaryFormat::spec_from_i32(w.binary_format)),
    }
}

/// A Architecture value comes back unchanged from the wire.
pub proof fn lemma_arch_round_trip(v: target::Architecture)
    ensures
        arch_from_wire(arch_to_wire(v)) == v,
{
}

/// A wire Architecture value comes back unchanged through the internal form.
pub proof fn lemma_arch_wire_round_trip(w: wire::Architecture)
    ensures
        arch_to_wire(arch_from_wire(w)) == w,
{
}

/// A BinaryFormat value comes back unchanged from the wire.
pub proof fn lemma_binary_format_round_trip(v: target::BinaryFormat)
    ensures
        binary_format_from_wire(binary_format_to_wire(v)) == v,
{
}

/// A wire BinaryFormat value comes back unchanged through the internal form.
pub proof fn lemma_binary_format_wire_round_trip(w: wire::BinaryFormat)
    ensures
        binary_format_to_wire(binary_format_from_wire(w)) == w,
{
}

/// A Environment value comes back unchanged from the wire.
pub proof fn lemma_environment_round_trip(v: target::Environment)
    ensures
        environment_from_wire(environment_to_wire(v)) == v,
{
}

/// A wire Environment value comes back unchanged through the internal form.
pub proof fn lemma_environment_wire_round_trip(w: wire::Environment)
    ensures
        environment_to_wire(environment_from_wire(w)) == w,
{
}

/// An operating system value that the wire can carry comes back unchanged.
pub proof fn lemma_os_round_trip(v: target::OperatingSystem)
    requires
        os_survives_wire(v),
    ensures
        os_from_wire(os_to_wire(v)) == v,
{
}

/// A wire OperatingSystem value comes back unchanged through the internal form.
pub proof fn lemma_os_wire_round_trip(w: wire::OperatingSystem)
    ensures
        os_to_wire(os_from_wire(w)) == w,
{
}

/// A Vendor value comes back unchanged from the wire.
pub proof fn lemma_vendor_round_trip(v: target::Vendor)
    ensures
        vendor_from_wire(vendor_to_wire(v)) == v,
{
}

/// A wire Vendor value comes back unchanged through the internal form.
pub proof fn lemma_vendor_wire_round_trip(w: wire::Vendor)
    ensures
        vendor_to_wire(vendor_from_wire(w)) == w,
{
}

/// Round trip of a triple built from the enumerated values: encoding it and
/// decoding the result gives it back (macOS only at the version that decoding
/// assumes).
pub proof fn lemma_triple_round_trip(t: target::Triple)
    requires
        os_survives_wire(t.operating_system),
    ensures
        triple_from_wire(triple_to_wire(t)) == t,
{
    let w = triple_to_wire(t);
    arch_to_wire(t.architecture).lemma_tag_round_trip();
    binary_format_to_wire(t.binary_format).lemma_tag_round_trip();
    environment_to_wire(t.environment).lemma_tag_round_trip();
    os_to_wire(t.operating_system).lemma_tag_round_trip();
    vendor_to_wire(t.vendor).lemma_tag_round_trip();
    lemma_arch_round_trip(t.architecture);
    lemma_binary_format_round_trip(t.binary_format);
    lemma_environment_round_trip(t.environment);
    lemma_os_round_trip(t.operating_system);
    lemma_vendor_round_trip(t.vendor);
}

/// Round trip from the wire: a wire triple whose tags are all known decodes
/// to a triple whose encoding is the same wire triple.
pub proof fn lemma_wire_triple_round_trip(w: wire::Triple)
    requires
        wire_triple_valid(w),
    ensures
        triple_to_wire(triple_from_wire(w)) == w,
{
    let a = wire::Architecture::spec_from_i32(w.architecture);
    let b = wire::BinaryFormat::spec_from_i32(w.binary_format);
    let e = wire::Environment::spec_from_i32(w.environment);
    let o = wire::OperatingSystem::spec_from_i32(w.operating_system);
    let v = wire::Vendor::spec_from_i32(w.vendor);
    wire::Architecture::lemma_from_i32_tag(w.architecture);
    wire::BinaryFormat::lemma_from_i32_tag(w.binary_format);
    wire::Environment::lemma_from_i32_tag(w.environment);
    wire::OperatingSystem::lemma_from_i32_tag(w.operating_system);
    wire::Vendor::lemma_from_i32_tag(w.vendor);
    lemma_arch_wire_round_trip(a);
    lemma_binary_format_wire_round_trip(b);
    lemma_environment_wire_round_trip(e);
    lemma_os_wire_round_trip(o);
    lemma_vendor_wire_round_trip(v);
}

} // verus!
