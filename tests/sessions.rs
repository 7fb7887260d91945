use skylift::compile_env::{BuildModuleRequest, CompileEnv, ServerError, Tunables, WasmFeatures};
use skylift::convert::internal2rpc;
use skylift::remote_id::{RemoteId, REMOTE_ID_HEADER, REMOTE_ID_LEN};
use skylift::service::{get_remote_id, CompilerService};
use skylift::session::CompilerSession;
use skylift::status::Code;
use skylift::target;
use skylift::wire;

/// A stand-in builder: the target it was given and its settings.
#[derive(Clone, Debug, PartialEq)]
struct Config {
    triple: target::Triple,
    settings: Vec<(String, String)>,
}

/// A stand-in compiler: the configuration it was built from.
#[derive(Clone, Debug, PartialEq)]
struct Frozen(Config);

fn host() -> target::Triple {
    target::Triple {
        architecture: target::Architecture::X86_64,
        vendor: target::Vendor::Unknown,
        operating_system: target::OperatingSystem::Linux,
        environment: target::Environment::Gnu,
        binary_format: target::BinaryFormat::Elf,
    }
}

fn aarch64() -> target::Triple {
    target::Triple {
        architecture: target::Architecture::Aarch64(target::Aarch64Architecture::Aarch64),
        vendor: target::Vendor::Unknown,
        operating_system: target::OperatingSystem::Linux,
        environment: target::Environment::Gnu,
        binary_format: target::BinaryFormat::Elf,
    }
}

fn fresh_config() -> Config {
    Config { triple: host(), settings: Vec::new() }
}

fn tunables() -> Tunables {
    Tunables {
        static_memory_bound: 0x1_0000,
        static_memory_offset_guard_size: 0x8000_0000,
        dynamic_memory_offset_guard_size: 0x1_0000,
        generate_native_debuginfo: false,
        parse_wasm_debuginfo: true,
        interruptable: false,
        consume_fuel: false,
        static_memory_bound_is_maximum: false,
        guard_before_linear_memory: true,
    }
}

fn mvp() -> WasmFeatures {
    WasmFeatures {
        reference_types: false,
        multi_value: false,
        bulk_memory: false,
        module_linking: false,
        simd: false,
        threads: false,
        tail_call: false,
        deterministic_only: false,
        multi_memory: false,
        exceptions: false,
        memory64: false,
    }
}

fn empty_module_request() -> BuildModuleRequest {
    BuildModuleRequest {
        wasm: vec![0x00, 0x61, 0x73, 0x6d],
        tunables: Some(tunables()),
        features: Some(mvp()),
        paged_memory_initialization: false,
    }
}

#[test]
fn header_name_and_id_shape() {
    assert_eq!(REMOTE_ID_HEADER, "remote_id");
    let a = RemoteId::new().unwrap();
    let b = RemoteId::new().unwrap();
    assert_eq!(a.as_str().len(), REMOTE_ID_LEN);
    assert_ne!(a.as_str(), b.as_str());
    assert_eq!(RemoteId::from_text("u-1").as_str(), "u-1");
}

#[test]
fn missing_header_is_a_precondition_failure() {
    let e = get_remote_id(None).unwrap_err();
    assert_eq!(e.code, Code::FailedPrecondition);
    assert_eq!(e.message, "invalid remote id");
    assert_eq!(get_remote_id(Some("u-1")).unwrap().as_str(), "u-1");
}

#[test]
fn handshake() {
    let mut svc: CompilerService<Config, Frozen> = CompilerService::new();
    let id = svc.new_builder(fresh_config()).unwrap();
    let got = svc.builder(Some(id.as_str())).unwrap();
    assert_eq!(internal2rpc::from_triple(&got.triple), internal2rpc::from_triple(&host()));
    let e = svc.get_triple(Some("u-2")).unwrap_err();
    assert_eq!(e.code, Code::FailedPrecondition);
    assert_eq!(e.message, "invalid remote id");
    let e = svc.builder(None).unwrap_err();
    assert_eq!(e.code, Code::FailedPrecondition);
}

#[test]
fn new_builder_ids_are_distinct() {
    let mut svc: CompilerService<Config, Frozen> = CompilerService::new();
    let a = svc.new_builder(fresh_config()).unwrap();
    let b = svc.new_builder(fresh_config()).unwrap();
    assert_ne!(a.as_str(), b.as_str());
    assert!(svc.get_session(&a).is_ok());
    assert!(svc.get_session(&b).is_ok());
}

#[test]
fn build_phase_order() {
    let mut svc: CompilerService<Config, Frozen> = CompilerService::new();
    let id = svc.new_builder(fresh_config()).unwrap();
    let h = Some(id.as_str());

    let wire_x86 = internal2rpc::from_triple(&host());
    let (b, t) = svc.set_target(h, &wire_x86).unwrap();
    b.triple = t;

    let b = svc.set_settings(h).unwrap();
    b.settings.push(("opt_level".to_string(), "speed".to_string()));

    let frozen = Frozen(svc.builder(h).unwrap().clone());
    let resp = svc.build(h, frozen).unwrap();
    assert_eq!(resp.remote_id, id.as_str());

    match svc.get_triple(h).unwrap() {
        CompilerSession::Compile(c) => assert_eq!(c.0.triple, host()),
        CompilerSession::Build(_) => panic!("the session is built"),
    }
    let c = svc.compiler(h).unwrap();
    assert_eq!(c.0.settings, vec![("opt_level".to_string(), "speed".to_string())]);
    assert_eq!(c.0.triple, host());

    let wire_arm = internal2rpc::from_triple(&aarch64());
    let e = svc.set_target(h, &wire_arm).unwrap_err();
    assert_eq!(e.code, Code::FailedPrecondition);
    assert_eq!(e.message, "session is not in build state");
    let e = svc.set_settings(h).unwrap_err();
    assert_eq!(e.code, Code::FailedPrecondition);
    assert_eq!(e.message, "session is not in build state");
    let e = svc.build(h, Frozen(fresh_config())).unwrap_err();
    assert_eq!(e.code, Code::FailedPrecondition);
}

#[test]
fn unknown_triple_tags_are_set_as_unknown() {
    let mut svc: CompilerService<Config, Frozen> = CompilerService::new();
    let id = svc.new_builder(fresh_config()).unwrap();
    let mut w = internal2rpc::from_triple(&host());
    w.architecture = 500;
    let (_, t) = svc.set_target(Some(id.as_str()), &w).unwrap();
    assert_eq!(t.architecture, target::Architecture::Unknown);
    assert_eq!(t.operating_system, target::OperatingSystem::Linux);
    let e = svc.set_target(Some("nobody"), &w).unwrap_err();
    assert_eq!(e.code, Code::FailedPrecondition);
    assert_eq!(e.message, "invalid remote id");
}

#[test]
fn compiler_calls_fail_in_build_state() {
    let mut svc: CompilerService<Config, Frozen> = CompilerService::new();
    let id = svc.new_builder(fresh_config()).unwrap();
    let e = svc.compiler(Some(id.as_str())).unwrap_err();
    assert_eq!(e.code, Code::FailedPrecondition);
    assert_eq!(e.message, "session is not in compile state");
    let e = svc.build_module(Some(id.as_str()), &empty_module_request()).unwrap_err();
    assert_eq!(e.code, Code::FailedPrecondition);
    assert_eq!(e.message, "session is not in compile state");
}

#[test]
fn state_exclusivity() {
    let mut s: CompilerSession<u32, u64> = CompilerSession::Build(1);
    assert!(s.map_builder().is_ok() && s.map_compiler().is_err());
    *s.map_builder_mut().unwrap() = 7;
    assert!(matches!(s, CompilerSession::Build(7)));
    s = CompilerSession::Compile(9);
    assert!(s.map_builder().is_err() && s.map_compiler().is_ok());
    assert!(s.map_builder_mut().is_err());
    *s.map_compiler_mut().unwrap() = 10;
    assert!(matches!(s, CompilerSession::Compile(10)));
}

#[test]
fn build_module_checks_environment_first() {
    let mut svc: CompilerService<Config, Frozen> = CompilerService::new();
    let id = svc.new_builder(fresh_config()).unwrap();
    let h = Some(id.as_str());
    svc.build(h, Frozen(fresh_config())).unwrap();

    let mut req = empty_module_request();
    req.tunables = None;
    let e = svc.build_module(h, &req).unwrap_err();
    assert_eq!(e.code, Code::InvalidArgument);
    assert_eq!(e.message, "Bad compilation environment");
    let e = svc.build_module(Some("nobody"), &req).unwrap_err();
    assert_eq!(e.code, Code::InvalidArgument);

    let (c, env) = svc.build_module(h, &empty_module_request()).unwrap();
    assert_eq!(c.0.triple, host());
    assert_eq!(env.tunables, tunables());
    assert!(!env.paged_memory_initialization);
    // The session stays usable after a rejected request.
    assert!(svc.build_module(h, &empty_module_request()).is_ok());
}

#[test]
fn sessions_are_isolated() {
    let mut svc: CompilerService<Config, Frozen> = CompilerService::new();
    let a = svc.new_builder(fresh_config()).unwrap();
    let b = svc.new_builder(fresh_config()).unwrap();
    let (builder, t) = svc.set_target(Some(b.as_str()), &internal2rpc::from_triple(&aarch64())).unwrap();
    builder.triple = t;
    svc.build(Some(a.as_str()), Frozen(fresh_config())).unwrap();
    assert_eq!(svc.builder(Some(b.as_str())).unwrap().triple, aarch64());
    assert_eq!(svc.compiler(Some(a.as_str())).unwrap().0.triple, host());
}

#[test]
fn reserved_operations_are_unimplemented() {
    let svc: CompilerService<Config, Frozen> = CompilerService::new();
    assert_eq!(svc.enable_settings("x").unwrap_err().code, Code::Unimplemented);
    assert_eq!(svc.get_settings().unwrap_err().code, Code::Unimplemented);
}

#[test]
fn insert_session_refuses_a_used_id() {
    let mut svc: CompilerService<Config, Frozen> = CompilerService::new();
    svc.insert_session(RemoteId::from_text("u-1"), CompilerSession::Build(fresh_config())).unwrap();
    let e = svc
        .insert_session(RemoteId::from_text("u-1"), CompilerSession::Compile(Frozen(fresh_config())))
        .unwrap_err();
    assert_eq!(e.code, Code::Internal);
    assert_eq!(e.message, "remote id already in use");
    assert!(svc.builder(Some("u-1")).is_ok());
}

#[test]
fn compile_env_requires_tunables_and_features() {
    let req = empty_module_request();
    let env = CompileEnv::try_from(&req).unwrap();
    assert_eq!(env.features, mvp());
    let mut no_features = req.clone();
    no_features.features = None;
    assert_eq!(CompileEnv::try_from(&no_features), Err(ServerError::BadCompileEnv));
    let mut paged = req.clone();
    paged.paged_memory_initialization = true;
    assert!(CompileEnv::try_from(&paged).unwrap().paged_memory_initialization);
}

#[test]
fn wire_triple_with_known_tags_builds() {
    let w = wire::Triple { architecture: 0, binary_format: 0, environment: 0, operating_system: 0, vendor: 0 };
    let mut svc: CompilerService<Config, Frozen> = CompilerService::new();
    let id = svc.new_builder(fresh_config()).unwrap();
    let (_, t) = svc.set_target(Some(id.as_str()), &w).unwrap();
    assert_eq!(t.architecture, target::Architecture::Unknown);
}

#[test]
fn it_works() {
    assert_eq!(2 + 2, 4);
}

#[test]
fn minted_ids_have_uuid_shape() {
    let id = RemoteId::new().unwrap();
    let text: Vec<char> = id.as_str().chars().collect();
    assert_eq!(text[14], '4');
    assert!(matches!(text[19], '8' | '9' | 'a' | 'b'));
    for (i, c) in id.as_str().chars().enumerate() {
        if i == 8 || i == 13 || i == 18 || i == 23 {
            assert_eq!(c, '-');
        } else {
            assert!(c.is_ascii_digit() || ('a'..='f').contains(&c));
        }
    }
}
