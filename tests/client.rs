use skylift::client::{module_bytes, Builder, ClientError};
use skylift::compile_env::{BuildModuleRequest, Tunables, WasmFeatures};
use skylift::convert::internal2rpc;
use skylift::flags::{FlagMap, FlagValue};
use skylift::module_reply::{module_reply, Any, BuildFailure, BuildModuleResponse};
use skylift::remote_id::RemoteId;
use skylift::service::CompilerService;
use skylift::status::Code;
use skylift::target;
use skylift::wire;

fn host() -> target::Triple {
    target::Triple {
        architecture: target::Architecture::X86_64,
        vendor: target::Vendor::Pc,
        operating_system: target::OperatingSystem::Windows,
        environment: target::Environment::Msvc,
        binary_format: target::BinaryFormat::Coff,
    }
}

fn flags() -> FlagMap {
    let mut m = FlagMap::new();
    m.insert("opt_level".to_string(), FlagValue::Enum("speed".to_string()));
    m
}

#[test]
fn client_learns_triple_at_connection() {
    let b = Builder::new(RemoteId::from_text("u-1"), &internal2rpc::from_triple(&host()));
    assert_eq!(b.remote_id(), "u-1");
    assert_eq!(b.triple(), host());
    let settings: Vec<(&str, &str)> =
        b.settings().iter().map(|r| (r.name.as_str(), r.value.as_str())).collect();
    assert_eq!(settings, vec![("avoid_div_traps", "true"), ("enable_probestack", "false")]);
    let odd = wire::Triple { architecture: 999, binary_format: 0, environment: 0, operating_system: 0, vendor: 0 };
    let b = Builder::new(RemoteId::from_text("u-1"), &odd);
    assert_eq!(b.triple().architecture, target::Architecture::Unknown);
}

#[test]
fn client_target_then_build() {
    let mut b = Builder::new(RemoteId::from_text("u-1"), &internal2rpc::from_triple(&host()));
    let arm = target::Triple {
        architecture: target::Architecture::Aarch64(target::Aarch64Architecture::Aarch64),
        ..host()
    };
    assert_eq!(b.target_request(&arm), internal2rpc::from_triple(&arm));
    b.target(arm);
    assert_eq!(b.triple(), arm);
    let req = b.set("opt_level", "speed");
    assert_eq!((req.name.as_str(), req.value.as_str()), ("opt_level", "speed"));
    assert_eq!(b.settings().len(), 3);

    let c = b.build(flags(), FlagMap::new());
    assert_eq!(c.remote_id(), "u-1");
    assert_eq!(c.triple(), arm);
    assert_eq!(c.flags().entries().len(), 1);
    assert_eq!(c.flags().entries()[0].name, "opt_level");
    assert_eq!(c.isa_flags().entries().len(), 0);
}

#[test]
fn module_reply_envelope() {
    let r = module_reply(Ok(vec![1, 2, 3])).unwrap();
    let m = r.serialized_module.unwrap();
    assert_eq!(m.value, vec![1, 2, 3]);
    assert_eq!(m.type_url, "type.skylift/skylift.SerializedModule");
    assert_eq!(
        module_bytes(BuildModuleResponse { serialized_module: Some(Any { type_url: String::new(), value: vec![4] }) }),
        Ok(vec![4])
    );
    assert_eq!(
        module_bytes(BuildModuleResponse { serialized_module: None }),
        Err(ClientError::MissingModule)
    );
}

#[test]
fn compile_failure_is_internal_with_first_error() {
    let e = module_reply(Err(BuildFailure::Compile("bad opcode".to_string()))).unwrap_err();
    assert_eq!(e.code, Code::Internal);
    assert_eq!(e.message, "compilation failed bad opcode");
}

#[test]
fn malformed_module_keeps_session_usable() {
    let mut svc: CompilerService<(), ()> = CompilerService::new();
    let id = svc.new_builder(()).unwrap();
    let h = Some(id.as_str());
    svc.build(h, ()).unwrap();
    let req = BuildModuleRequest {
        wasm: vec![0x13, 0x37, 0xc0, 0xde, 0x00, 0x01, 0x02, 0x03, 0xff, 0xfe, 0xfd, 0xfc, 0x10, 0x20, 0x30, 0x40],
        tunables: Some(Tunables {
            static_memory_bound: 0,
            static_memory_offset_guard_size: 0,
            dynamic_memory_offset_guard_size: 0,
            generate_native_debuginfo: false,
            parse_wasm_debuginfo: false,
            interruptable: false,
            consume_fuel: false,
            static_memory_bound_is_maximum: false,
            guard_before_linear_memory: false,
        }),
        features: Some(WasmFeatures {
            reference_types: false,
            multi_value: false,
            bulk_memory: false,
            module_linking: false,
            simd: false,
            threads: false,
            tail_call: false,
            deterministic_only: false,
            multi_memory: false,
            exceptions: false,
            memory64: false,
        }),
        paged_memory_initialization: false,
    };
    assert!(svc.build_module(h, &req).is_ok());
    let e = module_reply(Err(BuildFailure::Parse)).unwrap_err();
    assert_eq!(e.code, Code::InvalidArgument);
    assert_eq!(e.message, "failed to parse WebAssembly module");
    // A later request on the same session is still served.
    assert!(svc.build_module(h, &req).is_ok());
    assert!(module_reply(Ok(vec![0x00, 0x61, 0x73, 0x6d])).is_ok());
}
