use skylift::compile_env::{CompileEnv, Tunables, WasmFeatures};
use skylift::fingerprint::fingerprint_input;
use skylift::flags::{FlagMap, FlagValue};
use skylift::target;

fn triple() -> target::Triple {
    target::Triple {
        architecture: target::Architecture::X86_64,
        vendor: target::Vendor::Unknown,
        operating_system: target::OperatingSystem::Linux,
        environment: target::Environment::Gnu,
        binary_format: target::BinaryFormat::Elf,
    }
}

fn env() -> CompileEnv {
    CompileEnv {
        tunables: Tunables {
            static_memory_bound: 1,
            static_memory_offset_guard_size: 0x100,
            dynamic_memory_offset_guard_size: 0,
            generate_native_debuginfo: true,
            parse_wasm_debuginfo: false,
            interruptable: false,
            consume_fuel: false,
            static_memory_bound_is_maximum: false,
            guard_before_linear_memory: false,
        },
        features: WasmFeatures {
            reference_types: false,
            multi_value: true,
            bulk_memory: false,
            module_linking: false,
            simd: false,
            threads: false,
            tail_call: false,
            deterministic_only: false,
            multi_memory: false,
            exceptions: false,
            memory64: false,
        },
        paged_memory_initialization: false,
    }
}

#[test]
fn fingerprint_layout() {
    let mut flags = FlagMap::new();
    flags.insert("a".to_string(), FlagValue::Bool(true));
    let bytes = fingerprint_input(&triple(), &flags, &FlagMap::new(), &env(), "v", &[7, 8]);
    let mut expected: Vec<u8> = vec![77, 0, 15, 6, 1, 0, 0, 0, 0, 0, 0];
    expected.extend_from_slice(&[1, 0, 0, 0, 0, 0, 0, 0]);
    expected.extend_from_slice(&[1, 0, 0, 0, 0, 0, 0, 0, b'a', 0, 0, 0, 2, 1]);
    expected.extend_from_slice(&[0, 0, 0, 0, 0, 0, 0, 0]);
    expected.extend_from_slice(&[1, 0, 0, 0, 0, 0, 0, 0]);
    expected.extend_from_slice(&[0, 1, 0, 0, 0, 0, 0, 0]);
    expected.extend_from_slice(&[0, 0, 0, 0, 0, 0, 0, 0]);
    expected.extend_from_slice(&[1, 0, 0, 0, 0, 0]);
    expected.extend_from_slice(&[0, 1, 0, 0, 0, 0, 0, 0, 0, 0, 0]);
    expected.extend_from_slice(&[1, 0, 0, 0, 0, 0, 0, 0, b'v', 0, 0, 0]);
    expected.extend_from_slice(&[2, 0, 0, 0, 0, 0, 0, 0, 7, 8]);
    assert_eq!(bytes, expected);
}

#[test]
fn fingerprint_separates_configurations() {
    let mut flags = FlagMap::new();
    flags.insert("opt_level".to_string(), FlagValue::Enum("speed".to_string()));
    let mut other = FlagMap::new();
    other.insert("opt_level".to_string(), FlagValue::Enum("none".to_string()));
    let base = fingerprint_input(&triple(), &flags, &FlagMap::new(), &env(), "1.0", b"\0asm");
    assert_eq!(base, fingerprint_input(&triple(), &flags, &FlagMap::new(), &env(), "1.0", b"\0asm"));
    assert_ne!(base, fingerprint_input(&triple(), &other, &FlagMap::new(), &env(), "1.0", b"\0asm"));
    assert_ne!(base, fingerprint_input(&triple(), &FlagMap::new(), &flags, &env(), "1.0", b"\0asm"));
    assert_ne!(base, fingerprint_input(&triple(), &flags, &FlagMap::new(), &env(), "1.1", b"\0asm"));
    assert_ne!(base, fingerprint_input(&triple(), &flags, &FlagMap::new(), &env(), "1.0", b"\0asn"));
    let mac = target::Triple {
        operating_system: target::OperatingSystem::MacOSX { major: 11, minor: 0, patch: 0 },
        ..triple()
    };
    let mac2 = target::Triple {
        operating_system: target::OperatingSystem::MacOSX { major: 12, minor: 0, patch: 0 },
        ..triple()
    };
    assert_ne!(
        fingerprint_input(&mac, &flags, &FlagMap::new(), &env(), "1.0", b""),
        fingerprint_input(&mac2, &flags, &FlagMap::new(), &env(), "1.0", b"")
    );
    let mut paged = env();
    paged.paged_memory_initialization = true;
    assert_eq!(base, fingerprint_input(&triple(), &flags, &FlagMap::new(), &paged, "1.0", b"\0asm"));
}

#[test]
fn fingerprint_ignores_listing_order() {
    let mut a = FlagMap::new();
    a.insert("opt_level".to_string(), FlagValue::Enum("speed".to_string()));
    a.insert("enable_verifier".to_string(), FlagValue::Bool(false));
    let mut b = FlagMap::new();
    b.insert("enable_verifier".to_string(), FlagValue::Bool(false));
    b.insert("opt_level".to_string(), FlagValue::Enum("speed".to_string()));
    assert_eq!(
        fingerprint_input(&triple(), &a, &b, &env(), "1", b""),
        fingerprint_input(&triple(), &b, &a, &env(), "1", b"")
    );
}
