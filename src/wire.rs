//! The wire form of a target triple: five integer-tagged enumerations, each
//! listed exhaustively, and the message that carries them.

use vstd::prelude::*;

verus! {

/// Wire values of a triple's architecture field; a value's tag is its position in
/// this list.
#[derive(PartialEq, Eq, Structural, Clone, Copy, Debug)]
pub enum Architecture {
    Unknown,
    Arm,
    Armeb,
    Armv4,
    Armv4t,
    Armv5t,
    Armv5te,
    Armv5tej,
    Armv6,
    Armv6j,
    Armv6k,
    Armv6z,
    Armv6kz,
    Armv6t2,
    Armv6m,
    Armv7,
    Armv7a,
    Armv7ve,
    Armv7m,
    Armv7r,
    Armv7s,
    Armv8,
    Armv8a,
    Armv81a,
    Armv82a,
    Armv83a,
    Armv84a,
    Armv85a,
    Armv8mBase,
    Armv8mMain,
    Armv8r,
    Armebv7r,
    Thumbeb,
    Thumbv4t,
    Thumbv6m,
    Thumbv7a,
    Thumbv7em,
    Thumbv7m,
    Thumbv7neon,
    Thumbv8mBase,
    Thumbv8mMain,
    AmdGcn,
    Aarch64,
    Aarch64be,
    Asmjs,
    Avr,
    Hexagon,
    I386,
    I586,
    I686,
    Mips,
    Mipsel,
    Mipsisa32r6,
    Mipsisa32r6el,
    Mips64,
    Mips64el,
    Mipsisa64r6,
    Mipsisa64r6el,
    Msp430,
    Nvptx64,
    Powerpc,
    Powerpc64,
    Powerpc64le,
    Riscv32,
    Riscv32gc,
    Riscv32i,
    Riscv32imac,
    Riscv32imc,
    Riscv64,
    Riscv64gc,
    Riscv64imac,
    S390x,
    Sparc,
    Sparc64,
    Sparcv9,
    Wasm32,
    Wasm64,
    X8664,
}

/// Number of values of the wire enumeration `Architecture`.
pub const ARCH_COUNT: i32 = 78;

impl Architecture {
    /// The integer tag of this value on the wire.
    pub open spec fn spec_tag(self) -> i32 {
        match self {
            Architecture::Unknown => 0,
            Architecture::Arm => 1,
            Architecture::Armeb => 2,
            Architecture::Armv4 => 3,
            Architecture::Armv4t => 4,
            Architecture::Armv5t => 5,
            Architecture::Armv5te => 6,
            Architecture::Armv5tej => 7,
            Architecture::Armv6 => 8,
            Architecture::Armv6j => 9,
            Architecture::Armv6k => 10,
            Architecture::Armv6z => 11,
            Architecture::Armv6kz => 12,
            Architecture::Armv6t2 => 13,
            Architecture::Armv6m => 14,
            Architecture::Armv7 => 15,
            Architecture::Armv7a => 16,
            Architecture::Armv7ve => 17,
            Architecture::Armv7m => 18,
            Architecture::Armv7r => 19,
            Architecture::Armv7s => 20,
            Architecture::Armv8 => 21,
            Architecture::Armv8a => 22,
            Architecture::Armv81a => 23,
            Architecture::Armv82a => 24,
            Architecture::Armv83a => 25,
            Architecture::Armv84a => 26,
            Architecture::Armv85a => 27,
            Architecture::Armv8mBase => 28,
            Architecture::Armv8mMain => 29,
            Architecture::Armv8r => 30,
            Architecture::Armebv7r => 31,
            Architecture::Thumbeb => 32,
            Architecture::Thumbv4t => 33,
            Architecture::Thumbv6m => 34,
            Architecture::Thumbv7a => 35,
            Architecture::Thumbv7em => 36,
            Architecture::Thumbv7m => 37,
            Architecture::Thumbv7neon => 38,
            Architecture::Thumbv8mBase => 39,
            Architecture::Thumbv8mMain => 40,
            Architecture::AmdGcn => 41,
            Architecture::Aarch64 => 42,
            Architecture::Aarch64be => 43,
            Architecture::Asmjs => 44,
            Architecture::Avr => 45,
            Architecture::Hexagon => 46,
            Architecture::I386 => 47,
            Architecture::I586 => 48,
            Architecture::I686 => 49,
            Architecture::Mips => 50,
            Architecture::Mipsel => 51,
            Architecture::Mipsisa32r6 => 52,
            Architecture::Mipsisa32r6el => 53,
            Architecture::Mips64 => 54,
            Architecture::Mips64el => 55,
            Architecture::Mipsisa64r6 => 56,
            Architecture::Mipsisa64r6el => 57,
            Architecture::Msp430 => 58,
            Architecture::Nvptx64 => 59,
            Architecture::Powerpc => 60,
            Architecture::Powerpc64 => 61,
            Architecture::Powerpc64le => 62,
            Architecture::Riscv32 => 63,
            Architecture::Riscv32gc => 64,
            Architecture::Riscv32i => 65,
            Architecture::Riscv32imac => 66,
            Architecture::Riscv32imc => 67,
            Architecture::Riscv64 => 68,
            Architecture::Riscv64gc => 69,
            Architecture::Riscv64imac => 70,
            Architecture::S390x => 71,
            Architecture::Sparc => 72,
            Architecture::Sparc64 => 73,
            Architecture::Sparcv9 => 74,
            Architecture::Wasm32 => 75,
            Architecture::Wasm64 => 76,
            Architecture::X8664 => 77,
        }
    }

    /// The value that a wire tag stands for; an unknown tag stands for
    /// `Unknown`.
    pub open spec fn spec_from_i32(v: i32) -> Architecture {
        match v {
            0 => Architecture::Unknown,
            1 => Architecture::Arm,
            2 => Architecture::Armeb,
            3 => Architecture::Armv4,
            4 => Architecture::Armv4t,
            5 => Architecture::Armv5t,
            6 => Architecture::Armv5te,
            7 => Architecture::Armv5tej,
            8 => Architecture::Armv6,
            9 => Architecture::Armv6j,
            10 => Architecture::Armv6k,
            11 => Architecture::Armv6z,
            12 => Architecture::Armv6kz,
            13 => Architecture::Armv6t2,
            14 => Architecture::Armv6m,
            15 => Architecture::Armv7,
            16 => Architecture::Armv7a,
            17 => Architecture::Armv7ve,
            18 => Architecture::Armv7m,
            19 => Architecture::Armv7r,
            20 => Architecture::Armv7s,
            21 => Architecture::Armv8,
            22 => Architecture::Armv8a,
            23 => Architecture::Armv81a,
            24 => Architecture::Armv82a,
            25 => Architecture::Armv83a,
            26 => Architecture::Armv84a,
            27 => Architecture::Armv85a,
            28 => Architecture::Armv8mBase,
            29 => Architecture::Armv8mMain,
            30 => Architecture::Armv8r,
            31 => Architecture::Armebv7r,
            32 => Architecture::Thumbeb,
            33 => Architecture::Thumbv4t,
            34 => Architecture::Thumbv6m,
            35 => Architecture::Thumbv7a,
            36 => Architecture::Thumbv7em,
            37 => Architecture::Thumbv7m,
            38 => Architecture::Thumbv7neon,
            39 => Architecture::Thumbv8mBase,
            40 => Architecture::Thumbv8mMain,
            41 => Architecture::AmdGcn,
            42 => Architecture::Aarch64,
            43 => Architecture::Aarch64be,
            44 => Architecture::Asmjs,
            45 => Architecture::Avr,
            46 => Architecture::Hexagon,
            47 => Architecture::I386,
            48 => Architecture::I586,
            49 => Architecture::I686,
            50 => Architecture::Mips,
            51 => Architecture::Mipsel,
            52 => Architecture::Mipsisa32r6,
            53 => Architecture::Mipsisa32r6el,
            54 => Architecture::Mips64,
            55 => Architecture::Mips64el,
            56 => Architecture::Mipsisa64r6,
            57 => Architecture::Mipsisa64r6el,
            58 => Architecture::Msp430,
            59 => Architecture::Nvptx64,
            60 => Architecture::Powerpc,
            61 => Architecture::Powerpc64,
            62 => Architecture::Powerpc64le,
            63 => Architecture::Riscv32,
            64 => Architecture::Riscv32gc,
            65 => Architecture::Riscv32i,
            66 => Architecture::Riscv32imac,
            67 => Architecture::Riscv32imc,
            68 => Architecture::Riscv64,
            69 => Architecture::Riscv64gc,
            70 => Architecture::Riscv64imac,
            71 => Architecture::S390x,
            72 => Architecture::Sparc,
            73 => Architecture::Sparc64,
            74 => Architecture::Sparcv9,
            75 => Architecture::Wasm32,
            76 => Architecture::Wasm64,
            77 => Architecture::X8664,
            _ => Architecture::Unknown,
        }
    }

    /// The integer tag of this value.
    pub fn to_i32(&self) -> (r: i32)
        ensures
            r == self.spec_tag(),
            0 <= r < ARCH_COUNT,
    {
        match self {
            Architecture::Unknown => 0,
            Architecture::Arm => 1,
            Architecture::Armeb => 2,
            Architecture::Armv4 => 3,
            Architecture::Armv4t => 4,
            Architecture::Armv5t => 5,
            Architecture::Armv5te => 6,
            Architecture::Armv5tej => 7,
            Architecture::Armv6 => 8,
            Architecture::Armv6j => 9,
            Architecture::Armv6k => 10,
            Architecture::Armv6z => 11,
            Architecture::Armv6kz => 12,
            Architecture::Armv6t2 => 13,
            Architecture::Armv6m => 14,
            Architecture::Armv7 => 15,
            Architecture::Armv7a => 16,
            Architecture::Armv7ve => 17,
            Architecture::Armv7m => 18,
            Architecture::Armv7r => 19,
            Architecture::Armv7s => 20,
            Architecture::Armv8 => 21,
            Architecture::Armv8a => 22,
            Architecture::Armv81a => 23,
            Architecture::Armv82a => 24,
            Architecture::Armv83a => 25,
            Architecture::Armv84a => 26,
            Architecture::Armv85a => 27,
            Architecture::Armv8mBase => 28,
            Architecture::Armv8mMain => 29,
            Architecture::Armv8r => 30,
            Architecture::Armebv7r => 31,
            Architecture::Thumbeb => 32,
            Architecture::Thumbv4t => 33,
            Architecture::Thumbv6m => 34,
            Architecture::Thumbv7a => 35,
            Architecture::Thumbv7em => 36,
            Architecture::Thumbv7m => 37,
            Architecture::Thumbv7neon => 38,
            Architecture::Thumbv8mBase => 39,
            Architecture::Thumbv8mMain => 40,
            Architecture::AmdGcn => 41,
            Architecture::Aarch64 => 42,
            Architecture::Aarch64be => 43,
            Architecture::Asmjs => 44,
            Architecture::Avr => 45,
            Architecture::Hexagon => 46,
            Architecture::I386 => 47,
            Architecture::I586 => 48,
            Architecture::I686 => 49,
            Architecture::Mips => 50,
            Architecture::Mipsel => 51,
            Architecture::Mipsisa32r6 => 52,
            Architecture::Mipsisa32r6el => 53,
            Architecture::Mips64 => 54,
            Architecture::Mips64el => 55,
            Architecture::Mipsisa64r6 => 56,
            Architecture::Mipsisa64r6el => 57,
            Architecture::Msp430 => 58,
            Architecture::Nvptx64 => 59,
            Architecture::Powerpc => 60,
            Architecture::Powerpc64 => 61,
            Architecture::Powerpc64le => 62,
            Architecture::Riscv32 => 63,
            Architecture::Riscv32gc => 64,
            Architecture::Riscv32i => 65,
            Architecture::Riscv32imac => 66,
            Architecture::Riscv32imc => 67,
            Architecture::Riscv64 => 68,
            Architecture::Riscv64gc => 69,
            Architecture::Riscv64imac => 70,
            Architecture::S390x => 71,
            Architecture::Sparc => 72,
            Architecture::Sparc64 => 73,
            Architecture::Sparcv9 => 74,
            Architecture::Wasm32 => 75,
            Architecture::Wasm64 => 76,
            Architecture::X8664 => 77,
        }
    }

    /// Reads a wire tag; a tag that names no value reads as `Unknown`.
    pub fn from_i32(v: i32) -> (r: Architecture)
        ensures
            r == Self::spec_from_i32(v),
            0 <= v < ARCH_COUNT ==> r.spec_tag() == v,
            !(0 <= v < ARCH_COUNT) ==> r == Architecture::Unknown,
    {
        match v {
            0 => Architecture::Unknown,
            1 => Architecture::Arm,
            2 => Architecture::Armeb,
            3 => Architecture::Armv4,
            4 => Architecture::Armv4t,
            5 => Architecture::Armv5t,
            6 => Architecture::Armv5te,
            7 => Architecture::Armv5tej,
            8 => Architecture::Armv6,
            9 => Architecture::Armv6j,
            10 => Architecture::Armv6k,
            11 => Architecture::Armv6z,
            12 => Architecture::Armv6kz,
            13 => Architecture::Armv6t2,
            14 => Architecture::Armv6m,
            15 => Architecture::Armv7,
            16 => Architecture::Armv7a,
            17 => Architecture::Armv7ve,
            18 => Architecture::Armv7m,
            19 => Architecture::Armv7r,
            20 => Architecture::Armv7s,
            21 => Architecture::Armv8,
            22 => Architecture::Armv8a,
            23 => Architecture::Armv81a,
            24 => Architecture::Armv82a,
            25 => Architecture::Armv83a,
            26 => Architecture::Armv84a,
            27 => Architecture::Armv85a,
            28 => Architecture::Armv8mBase,
            29 => Architecture::Armv8mMain,
            30 => Architecture::Armv8r,
            31 => Architecture::Armebv7r,
            32 => Architecture::Thumbeb,
            33 => Architecture::Thumbv4t,
            34 => Architecture::Thumbv6m,
            35 => Architecture::Thumbv7a,
            36 => Architecture::Thumbv7em,
            37 => Architecture::Thumbv7m,
            38 => Architecture::Thumbv7neon,
            39 => Architecture::Thumbv8mBase,
            40 => Architecture::Thumbv8mMain,
            41 => Architecture::AmdGcn,
            42 => Architecture::Aarch64,
            43 => Architecture::Aarch64be,
            44 => Architecture::Asmjs,
            45 => Architecture::Avr,
            46 => Architecture::Hexagon,
            47 => Architecture::I386,
            48 => Architecture::I586,
            49 => Architecture::I686,
            50 => Architecture::Mips,
            51 => Architecture::Mipsel,
            52 => Architecture::Mipsisa32r6,
            53 => Architecture::Mipsisa32r6el,
            54 => Architecture::Mips64,
            55 => Architecture::Mips64el,
            56 => Architecture::Mipsisa64r6,
            57 => Architecture::Mipsisa64r6el,
            58 => Architecture::Msp430,
            59 => Architecture::Nvptx64,
            60 => Architecture::Powerpc,
            61 => Architecture::Powerpc64,
            62 => Architecture::Powerpc64le,
            63 => Architecture::Riscv32,
            64 => Architecture::Riscv32gc,
            65 => Architecture::Riscv32i,
            66 => Architecture::Riscv32imac,
            67 => Architecture::Riscv32imc,
            68 => Architecture::Riscv64,
            69 => Architecture::Riscv64gc,
            70 => Architecture::Riscv64imac,
            71 => Architecture::S390x,
            72 => Architecture::Sparc,
            73 => Architecture::Sparc64,
            74 => Architecture::Sparcv9,
            75 => Architecture::Wasm32,
            76 => Architecture::Wasm64,
            77 => Architecture::X8664,
            _ => Architecture::Unknown,
        }
    }

    /// Every value's tag reads back as that value.
    pub proof fn lemma_tag_round_trip(self)
        ensures
            Self::spec_from_i32(self.spec_tag()) == self,
            0 <= self.spec_tag() < ARCH_COUNT,
    {
    }

    /// A known tag reads as the value it is the tag of.
    pub proof fn lemma_from_i32_tag(v: i32)
        ensures
            0 <= v < ARCH_COUNT ==> Self::spec_from_i32(v).spec_tag() == v,
    {
    }
}

/// Wire values of a triple's binary format field; a value's tag is its position in
/// this list.
#[derive(PartialEq, Eq, Structural, Clone, Copy, Debug)]
pub enum BinaryFormat {
    Unknown,
    Elf,
    Coff,
    Macho,
    Wasm,
}

/// Number of values of the wire enumeration `BinaryFormat`.
pub const BINARY_FORMAT_COUNT: i32 = 5;

impl BinaryFormat {
    /// The integer tag of this value on the wire.
    pub open spec fn spec_tag(self) -> i32 {
        match self {
            BinaryFormat::Unknown => 0,
            BinaryFormat::Elf => 1,
            BinaryFormat::Coff => 2,
            BinaryFormat::Macho => 3,
            BinaryFormat::Wasm => 4,
        }
    }

    /// The value that a wire tag stands for; an unknown tag stands for
    /// `Unknown`.
    pub open spec fn spec_from_i32(v: i32) -> BinaryFormat {
        match v {
            0 => BinaryFormat::Unknown,
            1 => BinaryFormat::Elf,
            2 => BinaryFormat::Coff,
            3 => BinaryFormat::Macho,
            4 => BinaryFormat::Wasm,
            _ => BinaryFormat::Unknown,
        }
    }

    /// The integer tag of this value.
    pub fn to_i32(&self) -> (r: i32)
        ensures
            r == self.spec_tag(),
            0 <= r < BINARY_FORMAT_COUNT,
    {
        match self {
            BinaryFormat::Unknown => 0,
            BinaryFormat::Elf => 1,
            BinaryFormat::Coff => 2,
            BinaryFormat::Macho => 3,
            BinaryFormat::Wasm => 4,
        }
    }

    /// Reads a wire tag; a tag that names no value reads as `Unknown`.
    pub fn from_i32(v: i32) -> (r: BinaryFormat)
        ensures
            r == Self::spec_from_i32(v),
            0 <= v < BINARY_FORMAT_COUNT ==> r.spec_tag() == v,
            !(0 <= v < BINARY_FORMAT_COUNT) ==> r == BinaryFormat::Unknown,
    {
        match v {
            0 => BinaryFormat::Unknown,
            1 => BinaryFormat::Elf,
            2 => BinaryFormat::Coff,
            3 => BinaryFormat::Macho,
            4 => BinaryFormat::Wasm,
            _ => BinaryFormat::Unknown,
        }
    }

    /// Every value's tag reads back as that value.
    pub proof fn lemma_tag_round_trip(self)
        ensures
            Self::spec_from_i32(self.spec_tag()) == self,
            0 <= self.spec_tag() < BINARY_FORMAT_COUNT,
    {
    }

    /// A known tag reads as the value it is the tag of.
    pub proof fn lemma_from_i32_tag(v: i32)
        ensures
            0 <= v < BINARY_FORMAT_COUNT ==> Self::spec_from_i32(v).spec_tag() == v,
    {
    }
}

/// Wire values of a triple's environment field; a value's tag is its position in
/// this list.
#[derive(PartialEq, Eq, Structural, Clone, Copy, Debug)]
pub enum Environment {
    Unknown,
    AmdGiz,
    Android,
    Androideabi,
    Eabi,
    Eabihf,
    Gnu,
    Gnuabi64,
    Gnueabi,
    Gnueabihf,
    Gnuspe,
    Gnux32,
    GnuIlp32,
    Macabi,
    Musl,
    Musleabi,
    Musleabihf,
    Muslabi64,
    Msvc,
    Kernel,
    Uclibc,
    Uclibceabi,
    Sgx,
    Softfloat,
    Spe,
}

/// Number of values of the wire enumeration `Environment`.
pub const ENVIRONMENT_COUNT: i32 = 25;

impl Environment {
    /// The integer tag of this value on the wire.
    pub open spec fn spec_tag(self) -> i32 {
        match self {
            Environment::Unknown => 0,
            Environment::AmdGiz => 1,
            Environment::Android => 2,
            Environment::Androideabi => 3,
            Environment::Eabi => 4,
            Environment::Eabihf => 5,
            Environment::Gnu => 6,
            Environment::Gnuabi64 => 7,
            Environment::Gnueabi => 8,
            Environment::Gnueabihf => 9,
            Environment::Gnuspe => 10,
            Environment::Gnux32 => 11,
            Environment::GnuIlp32 => 12,
            Environment::Macabi => 13,
            Environment::Musl => 14,
            Environment::Musleabi => 15,
            Environment::Musleabihf => 16,
            Environment::Muslabi64 => 17,
            Environment::Msvc => 18,
            Environment::Kernel => 19,
            Environment::Uclibc => 20,
            Environment::Uclibceabi => 21,
            Environment::Sgx => 22,
            Environment::Softfloat => 23,
            Environment::Spe => 24,
        }
    }

    /// The value that a wire tag stands for; an unknown tag stands for
    /// `Unknown`.
    pub open spec fn spec_from_i32(v: i32) -> Environment {
        match v {
            0 => Environment::Unknown,
            1 => Environment::AmdGiz,
            2 => Environment::Android,
            3 => Environment::Androideabi,
            4 => Environment::Eabi,
            5 => Environment::Eabihf,
            6 => Environment::Gnu,
            7 => Environment::Gnuabi64,
            8 => Environment::Gnueabi,
            9 => Environment::Gnueabihf,
            10 => Environment::Gnuspe,
            11 => Environment::Gnux32,
            12 => Environment::GnuIlp32,
            13 => Environment::Macabi,
            14 => Environment::Musl,
            15 => Environment::Musleabi,
            16 => Environment::Musleabihf,
            17 => Environment::Muslabi64,
            18 => Environment::Msvc,
            19 => Environment::Kernel,
            20 => Environment::Uclibc,
            21 => Environment::Uclibceabi,
            22 => Environment::Sgx,
            23 => Environment::Softfloat,
            24 => Environment::Spe,
            _ => Environment::Unknown,
        }
    }

    /// The integer tag of this value.
    pub fn to_i32(&self) -> (r: i32)
        ensures
            r == self.spec_tag(),
            0 <= r < ENVIRONMENT_COUNT,
    {
        match self {
            Environment::Unknown => 0,
            Environment::AmdGiz => 1,
            Environment::Android => 2,
            Environment::Androideabi => 3,
            Environment::Eabi => 4,
            Environment::Eabihf => 5,
            Environment::Gnu => 6,
            Environment::Gnuabi64 => 7,
            Environment::Gnueabi => 8,
            Environment::Gnueabihf => 9,
            Environment::Gnuspe => 10,
            Environment::Gnux32 => 11,
            Environment::GnuIlp32 => 12,
            Environment::Macabi => 13,
            Environment::Musl => 14,
            Environment::Musleabi => 15,
            Environment::Musleabihf => 16,
            Environment::Muslabi64 => 17,
            Environment::Msvc => 18,
            Environment::Kernel => 19,
            Environment::Uclibc => 20,
            Environment::Uclibceabi => 21,
            Environment::Sgx => 22,
            Environment::Softfloat => 23,
            Environment::Spe => 24,
        }
    }

    /// Reads a wire tag; a tag that names no value reads as `Unknown`.
    pub fn from_i32(v: i32) -> (r: Environment)
        ensures
            r == Self::spec_from_i32(v),
            0 <= v < ENVIRONMENT_COUNT ==> r.spec_tag() == v,
            !(0 <= v < ENVIRONMENT_COUNT) ==> r == Environment::Unknown,
    {
        match v {
            0 => Environment::Unknown,
            1 => Environment::AmdGiz,
            2 => Environment::Android,
            3 => Environment::Androideabi,
            4 => Environment::Eabi,
            5 => Environment::Eabihf,
            6 => Environment::Gnu,
            7 => Environment::Gnuabi64,
            8 => Environment::Gnueabi,
            9 => Environment::Gnueabihf,
            10 => Environment::Gnuspe,
            11 => Environment::Gnux32,
            12 => Environment::GnuIlp32,
            13 => Environment::Macabi,
            14 => Environment::Musl,
            15 => Environment::Musleabi,
            16 => Environment::Musleabihf,
            17 => Environment::Muslabi64,
            18 => Environment::Msvc,
            19 => Environment::Kernel,
            20 => Environment::Uclibc,
            21 => Environment::Uclibceabi,
            22 => Environment::Sgx,
            23 => Environment::Softfloat,
            24 => Environment::Spe,
            _ => Environment::Unknown,
        }
    }

    /// Every value's tag reads back as that value.
    pub proof fn lemma_tag_round_trip(self)
        ensures
            Self::spec_from_i32(self.spec_tag()) == self,
            0 <= self.spec_tag() < ENVIRONMENT_COUNT,
    {
    }

    /// A known tag reads as the value it is the tag of.
    pub proof fn lemma_from_i32_tag(v: i32)
        ensures
            0 <= v < ENVIRONMENT_COUNT ==> Self::spec_from_i32(v).spec_tag() == v,
    {
    }
}

/// Wire values of a triple's operating system field; a value's tag is its position in
/// this list.
#[derive(PartialEq, Eq, Structural, Clone, Copy, Debug)]
pub enum OperatingSystem {
    Unknown,
    AmdHsa,
    Bitrig,
    Cloudabi,
    Cuda,
    Darwin,
    Dragonfly,
    Emscripten,
    Freebsd,
    Fuchsia,
    Haiku,
    Hermit,
    Illumos,
    Ios,
    L4re,
    Linux,
    Macosx,
    Nebulet,
    Netbsd,
    None_,
    Openbsd,
    Psp,
    Redox,
    Solaris,
    Tvos,
    Uefi,
    VxWorks,
    Wasi,
    Windows,
}

/// Number of values of the wire enumeration `OperatingSystem`.
pub const OS_COUNT: i32 = 29;

impl OperatingSystem {
    /// The integer tag of this value on the wire.
    pub open spec fn spec_tag(self) -> i32 {
        match self {
            OperatingSystem::Unknown => 0,
            OperatingSystem::AmdHsa => 1,
            OperatingSystem::Bitrig => 2,
            OperatingSystem::Cloudabi => 3,
            OperatingSystem::Cuda => 4,
            OperatingSystem::Darwin => 5,
            OperatingSystem::Dragonfly => 6,
            OperatingSystem::Emscripten => 7,
            OperatingSystem::Freebsd => 8,
            OperatingSystem::Fuchsia => 9,
            OperatingSystem::Haiku => 10,
            OperatingSystem::Hermit => 11,
            OperatingSystem::Illumos => 12,
            OperatingSystem::Ios => 13,
            OperatingSystem::L4re => 14,
            OperatingSystem::Linux => 15,
            OperatingSystem::Macosx => 16,
            OperatingSystem::Nebulet => 17,
            OperatingSystem::Netbsd => 18,
            OperatingSystem::None_ => 19,
            OperatingSystem::Openbsd => 20,
            OperatingSystem::Psp => 21,
            OperatingSystem::Redox => 22,
            OperatingSystem::Solaris => 23,
            OperatingSystem::Tvos => 24,
            OperatingSystem::Uefi => 25,
            OperatingSystem::VxWorks => 26,
            OperatingSystem::Wasi => 27,
            OperatingSystem::Windows => 28,
        }
    }

    /// The value that a wire tag stands for; an unknown tag stands for
    /// `Unknown`.
    pub open spec fn spec_from_i32(v: i32) -> OperatingSystem {
        match v {
            0 => OperatingSystem::Unknown,
            1 => OperatingSystem::AmdHsa,
            2 => OperatingSystem::Bitrig,
            3 => OperatingSystem::Cloudabi,
            4 => OperatingSystem::Cuda,
            5 => OperatingSystem::Darwin,
            6 => OperatingSystem::Dragonfly,
            7 => OperatingSystem::Emscripten,
            8 => OperatingSystem::Freebsd,
            9 => OperatingSystem::Fuchsia,
            10 => OperatingSystem::Haiku,
            11 => OperatingSystem::Hermit,
            12 => OperatingSystem::Illumos,
            13 => OperatingSystem::Ios,
            14 => OperatingSystem::L4re,
            15 => OperatingSystem::Linux,
            16 => OperatingSystem::Macosx,
            17 => OperatingSystem::Nebulet,
            18 => OperatingSystem::Netbsd,
            19 => OperatingSystem::None_,
            20 => OperatingSystem::Openbsd,
            21 => OperatingSystem::Psp,
            22 => OperatingSystem::Redox,
            23 => OperatingSystem::Solaris,
            24 => OperatingSystem::Tvos,
            25 => OperatingSystem::Uefi,
            26 => OperatingSystem::VxWorks,
            27 => OperatingSystem::Wasi,
            28 => OperatingSystem::Windows,
            _ => OperatingSystem::Unknown,
        }
    }

    /// The integer tag of this value.
    pub fn to_i32(&self) -> (r: i32)
        ensures
            r == self.spec_tag(),
            0 <= r < OS_COUNT,
    {
        match self {
            OperatingSystem::Unknown => 0,
            OperatingSystem::AmdHsa => 1,
            OperatingSystem::Bitrig => 2,
            OperatingSystem::Cloudabi => 3,
            OperatingSystem::Cuda => 4,
            OperatingSystem::Darwin => 5,
            OperatingSystem::Dragonfly => 6,
            OperatingSystem::Emscripten => 7,
            OperatingSystem::Freebsd => 8,
            OperatingSystem::Fuchsia => 9,
            OperatingSystem::Haiku => 10,
            OperatingSystem::Hermit => 11,
            OperatingSystem::Illumos => 12,
            OperatingSystem::Ios => 13,
            OperatingSystem::L4re => 14,
            OperatingSystem::Linux => 15,
            OperatingSystem::Macosx => 16,
            OperatingSystem::Nebulet => 17,
            OperatingSystem::Netbsd => 18,
            OperatingSystem::None_ => 19,
            OperatingSystem::Openbsd => 20,
            OperatingSystem::Psp => 21,
            OperatingSystem::Redox => 22,
            OperatingSystem::Solaris => 23,
            OperatingSystem::Tvos => 24,
            OperatingSystem::Uefi => 25,
            OperatingSystem::VxWorks => 26,
            OperatingSystem::Wasi => 27,
            OperatingSystem::Windows => 28,
        }
    }

    /// Reads a wire tag; a tag that names no value reads as `Unknown`.
    pub fn from_i32(v: i32) -> (r: OperatingSystem)
        ensures
            r == Self::spec_from_i32(v),
            0 <= v < OS_COUNT ==> r.spec_tag() == v,
            !(0 <= v < OS_COUNT) ==> r == OperatingSystem::Unknown,
    {
        match v {
            0 => OperatingSystem::Unknown,
            1 => OperatingSystem::AmdHsa,
            2 => OperatingSystem::Bitrig,
            3 => OperatingSystem::Cloudabi,
            4 => OperatingSystem::Cuda,
            5 => OperatingSystem::Darwin,
            6 => OperatingSystem::Dragonfly,
            7 => OperatingSystem::Emscripten,
            8 => OperatingSystem::Freebsd,
            9 => OperatingSystem::Fuchsia,
            10 => OperatingSystem::Haiku,
            11 => OperatingSystem::Hermit,
            12 => OperatingSystem::Illumos,
            13 => OperatingSystem::Ios,
            14 => OperatingSystem::L4re,
            15 => OperatingSystem::Linux,
            16 => OperatingSystem::Macosx,
            17 => OperatingSystem::Nebulet,
            18 => OperatingSystem::Netbsd,
            19 => OperatingSystem::None_,
            20 => OperatingSystem::Openbsd,
            21 => OperatingSystem::Psp,
            22 => OperatingSystem::Redox,
            23 => OperatingSystem::Solaris,
            24 => OperatingSystem::Tvos,
            25 => OperatingSystem::Uefi,
            26 => OperatingSystem::VxWorks,
            27 => OperatingSystem::Wasi,
            28 => OperatingSystem::Windows,
            _ => OperatingSystem::Unknown,
        }
    }

    /// Every value's tag reads back as that value.
    pub proof fn lemma_tag_round_trip(self)
        ensures
            Self::spec_from_i32(self.spec_tag()) == self,
            0 <= self.spec_tag() < OS_COUNT,
    {
    }

    /// A known tag reads as the value it is the tag of.
    pub proof fn lemma_from_i32_tag(v: i32)
        ensures
            0 <= v < OS_COUNT ==> Self::spec_from_i32(v).spec_tag() == v,
    {
    }
}

/// Wire values of a triple's vendor field; a value's tag is its position in
/// this list.
#[derive(PartialEq, Eq, Structural, Clone, Copy, Debug)]
pub enum Vendor {
    Unknown,
    Amd,
    Apple,
    Experimental,
    Fortanix,
    Nvidia,
    Pc,
    Rumprun,
    Sun,
    Uwp,
    Wrs,
}

/// Number of values of the wire enumeration `Vendor`.
pub const VENDOR_COUNT: i32 = 11;

impl Vendor {
    /// The integer tag of this value on the wire.
    pub open spec fn spec_tag(self) -> i32 {
        match self {
            Vendor::Unknown => 0,
            Vendor::Amd => 1,
            Vendor::Apple => 2,
            Vendor::Experimental => 3,
            Vendor::Fortanix => 4,
            Vendor::Nvidia => 5,
            Vendor::Pc => 6,
            Vendor::Rumprun => 7,
            Vendor::Sun => 8,
            Vendor::Uwp => 9,
            Vendor::Wrs => 10,
        }
    }

    /// The value that a wire tag stands for; an unknown tag stands for
    /// `Unknown`.
    pub open spec fn spec_from_i32(v: i32) -> Vendor {
        match v {
            0 => Vendor::Unknown,
            1 => Vendor::Amd,
            2 => Vendor::Apple,
            3 => Vendor::Experimental,
            4 => Vendor::Fortanix,
            5 => Vendor::Nvidia,
            6 => Vendor::Pc,
            7 => Vendor::Rumprun,
            8 => Vendor::Sun,
            9 => Vendor::Uwp,
            10 => Vendor::Wrs,
            _ => Vendor::Unknown,
        }
    }

    /// The integer tag of this value.
    pub fn to_i32(&self) -> (r: i32)
        ensures
            r == self.spec_tag(),
            0 <= r < VENDOR_COUNT,
    {
        match self {
            Vendor::Unknown => 0,
            Vendor::Amd => 1,
            Vendor::Apple => 2,
            Vendor::Experimental => 3,
            Vendor::Fortanix => 4,
            Vendor::Nvidia => 5,
            Vendor::Pc => 6,
            Vendor::Rumprun => 7,
            Vendor::Sun => 8,
            Vendor::Uwp => 9,
            Vendor::Wrs => 10,
        }
    }

    /// Reads a wire tag; a tag that names no value reads as `Unknown`.
    pub fn from_i32(v: i32) -> (r: Vendor)
        ensures
            r == Self::spec_from_i32(v),
            0 <= v < VENDOR_COUNT ==> r.spec_tag() == v,
            !(0 <= v < VENDOR_COUNT) ==> r == Vendor::Unknown,
    {
        match v {
            0 => Vendor::Unknown,
            1 => Vendor::Amd,
            2 => Vendor::Apple,
            3 => Vendor::Experimental,
            4 => Vendor::Fortanix,
            5 => Vendor::Nvidia,
            6 => Vendor::Pc,
            7 => Vendor::Rumprun,
            8 => Vendor::Sun,
            9 => Vendor::Uwp,
            10 => Vendor::Wrs,
            _ => Vendor::Unknown,
        }
    }

    /// Every value's tag reads back as that value.
    pub proof fn lemma_tag_round_trip(self)
        ensures
            Self::spec_from_i32(self.spec_tag()) == self,
            0 <= self.spec_tag() < VENDOR_COUNT,
    {
    }

    /// A known tag reads as the value it is the tag of.
    pub proof fn lemma_from_i32_tag(v: i32)
        ensures
            0 <= v < VENDOR_COUNT ==> Self::spec_from_i32(v).spec_tag() == v,
    {
    }
}

/// A target triple as carried on the wire: one tag per field.
#[derive(PartialEq, Eq, Structural, Clone, Copy, Debug)]
pub struct Triple {
    pub architecture: i32,
    pub binary_format: i32,
    pub environment: i32,
    pub operating_system: i32,
    pub vendor: i32,
}

} // verus!
