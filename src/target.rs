//! The target triple as the code generator sees it: architecture families
//! with their sub-architectures, vendor, operating system, environment and
//! object format. Values here are plain data; the wire form is in `wire`.

use vstd::prelude::*;

verus! {

/// Sub-architectures of the `Arm` family.
#[derive(PartialEq, Eq, Structural, Clone, Copy, Debug)]
pub enum ArmArchitecture {
    Arm,
    Armeb,
    Armv4,
    Armv4t,
    Armv5t,
    Armv5te,
    Armv5tej,
    Armv6,
    Armv6j,
    Armv6k,
    Armv6z,
    Armv6kz,
    Armv6t2,
    Armv6m,
    Armv7,
    Armv7a,
    Armv7ve,
    Armv7m,
    Armv7r,
    Armv7s,
    Armv8,
    Armv8a,
    Armv8_1a,
    Armv8_2a,
    Armv8_3a,
    Armv8_4a,
    Armv8_5a,
    Armv8mBase,
    Armv8mMain,
    Armv8r,
    Armebv7r,
    Thumbeb,
    Thumbv4t,
    Thumbv6m,
    Thumbv7a,
    Thumbv7em,
    Thumbv7m,
    Thumbv7neon,
    Thumbv8mBase,
    Thumbv8mMain,
}

/// Sub-architectures of the `Aarch64` family.
#[derive(PartialEq, Eq, Structural, Clone, Copy, Debug)]
pub enum Aarch64Architecture {
    Aarch64,
    Aarch64be,
}

/// Sub-architectures of the `X86_32` family.
#[derive(PartialEq, Eq, Structural, Clone, Copy, Debug)]
pub enum X86_32Architecture {
    I386,
    I586,
    I686,
}

/// Sub-architectures of the `Mips32` family.
#[derive(PartialEq, Eq, Structural, Clone, Copy, Debug)]
pub enum Mips32Architecture {
    Mips,
    Mipsel,
    Mipsisa32r6,
    Mipsisa32r6el,
}

/// Sub-architectures of the `Mips64` family.
#[derive(PartialEq, Eq, Structural, Clone, Copy, Debug)]
pub enum Mips64Architecture {
    Mips64,
    Mips64el,
    Mipsisa64r6,
    Mipsisa64r6el,
}

/// Sub-architectures of the `Riscv32` family.
#[derive(PartialEq, Eq, Structural, Clone, Copy, Debug)]
pub enum Riscv32Architecture {
    Riscv32,
    Riscv32gc,
    Riscv32i,
    Riscv32imac,
    Riscv32imc,
}

/// Sub-architectures of the `Riscv64` family.
#[derive(PartialEq, Eq, Structural, Clone, Copy, Debug)]
pub enum Riscv64Architecture {
    Riscv64,
    Riscv64gc,
    Riscv64imac,
}

/// A processor architecture.
#[derive(PartialEq, Eq, Structural, Clone, Copy, Debug)]
pub enum Architecture {
    Unknown,
    Arm(ArmArchitecture),
    AmdGcn,
    Aarch64(Aarch64Architecture),
    Asmjs,
    Avr,
    Hexagon,
    X86_32(X86_32Architecture),
    Mips32(Mips32Architecture),
    Mips64(Mips64Architecture),
    Msp430,
    Nvptx64,
    Powerpc,
    Powerpc64,
    Powerpc64le,
    Riscv32(Riscv32Architecture),
    Riscv64(Riscv64Architecture),
    S390x,
    Sparc,
    Sparc64,
    Sparcv9,
    Wasm32,
    Wasm64,
    X86_64,
}

/// An object file format.
#[derive(PartialEq, Eq, Structural, Clone, Copy, Debug)]
pub enum BinaryFormat {
    Unknown,
    Elf,
    Coff,
    Macho,
    Wasm,
}

/// A target environment (C library and ABI flavour).
#[derive(PartialEq, Eq, Structural, Clone, Copy, Debug)]
pub enum Environment {
    Unknown,
    AmdGiz,
    Android,
    Androideabi,
    Eabi,
    Eabihf,
    Gnu,
    Gnuabi64,
    Gnueabi,
    Gnueabihf,
    Gnuspe,
    Gnux32,
    GnuIlp32,
    Macabi,
    Musl,
    Musleabi,
    Musleabihf,
    Muslabi64,
    Msvc,
    Kernel,
    Uclibc,
    Uclibceabi,
    Sgx,
    Softfloat,
    Spe,
}

/// An operating system.
#[derive(PartialEq, Eq, Structural, Clone, Copy, Debug)]
pub enum OperatingSystem {
    Unknown,
    AmdHsa,
    Bitrig,
    Cloudabi,
    Cuda,
    Darwin,
    Dragonfly,
    Emscripten,
    Freebsd,
    Fuchsia,
    Haiku,
    Hermit,
    Illumos,
    Ios,
    L4re,
    Linux,
    MacOSX { major: u16, minor: u16, patch: u16 },
    Nebulet,
    Netbsd,
    None_,
    Openbsd,
    Psp,
    Redox,
    Solaris,
    Tvos,
    Uefi,
    VxWorks,
    Wasi,
    Windows,
}

/// A target vendor.
#[derive(PartialEq, Eq, Structural, Clone, Copy, Debug)]
pub enum Vendor {
    Unknown,
    Amd,
    Apple,
    Experimental,
    Fortanix,
    Nvidia,
    Pc,
    Rumprun,
    Sun,
    Uwp,
    Wrs,
}

/// A full target description.
#[derive(PartialEq, Eq, Structural, Clone, Copy, Debug)]
pub struct Triple {
    pub architecture: Architecture,
    pub vendor: Vendor,
    pub operating_system: OperatingSystem,
    pub environment: Environment,
    pub binary_format: BinaryFormat,
}

} // verus!
