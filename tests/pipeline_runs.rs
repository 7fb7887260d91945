use skylift::compile_env::{CompileEnv, Tunables, WasmFeatures};
use skylift::module_reply::BuildFailure;
use skylift::codegen::CodeGenerator;
use skylift::pipeline::build_artifacts;
use std::cell::Cell;

/// A module: its function bodies as listed by the generator.
type Module = Vec<(usize, u8)>;

/// A code generator whose "compilation" of body `b` is `b + 100`, and which
/// fails on body 0xff.
struct Toy {
    compiles: Cell<usize>,
}

impl CodeGenerator<Module, u8, u32, Vec<u32>> for Toy {
    fn translate(&self, wasm: &[u8], _env: &CompileEnv) -> Option<Vec<Module>> {
        if wasm.len() < 4 || &wasm[..4] != b"\0asm" {
            return None;
        }
        // Each following byte pair is (module number, body); bodies are
        // listed in reverse index order to mimic parallel completion.
        let mut modules: Vec<Module> = Vec::new();
        for pair in wasm[4..].chunks(2) {
            let m = pair[0] as usize;
            while modules.len() <= m {
                modules.push(Vec::new());
            }
            modules[m].push((0, pair[1]));
        }
        for m in modules.iter_mut() {
            let n = m.len();
            for (k, entry) in m.iter_mut().enumerate() {
                entry.0 = k;
            }
            m.reverse();
            assert_eq!(m.len(), n);
        }
        Some(modules)
    }

    fn take_bodies(&self, module: &Module) -> Vec<(usize, u8)> {
        module.clone()
    }

    fn compile_function(&self, _module: &Module, _index: usize, body: u8, _env: &CompileEnv) -> Result<u32, String> {
        self.compiles.set(self.compiles.get() + 1);
        if body == 0xff {
            Err("bad body".to_string())
        } else {
            Ok(body as u32 + 100)
        }
    }

    fn finish(&self, _module: Module, functions: Vec<u32>, paged_init: bool, _env: &CompileEnv) -> Result<Vec<u32>, String> {
        let mut a = functions;
        a.push(if paged_init { 1 } else { 0 });
        Ok(a)
    }

    fn serialize(&self, artifacts: Vec<Vec<u32>>, _env: &CompileEnv) -> Result<Vec<u8>, String> {
        let mut out = b"SKY".to_vec();
        for a in artifacts {
            out.push(a.len() as u8);
            out.extend(a.iter().map(|x| *x as u8));
        }
        Ok(out)
    }
}

fn env(paged: bool) -> CompileEnv {
    CompileEnv {
        tunables: Tunables {
            static_memory_bound: 0,
            static_memory_offset_guard_size: 0,
            dynamic_memory_offset_guard_size: 0,
            generate_native_debuginfo: false,
            parse_wasm_debuginfo: false,
            interruptable: false,
            consume_fuel: false,
            static_memory_bound_is_maximum: false,
            guard_before_linear_memory: false,
        },
        features: WasmFeatures {
            reference_types: false,
            multi_value: false,
            bulk_memory: false,
            module_linking: false,
            simd: false,
            threads: false,
            tail_call: false,
            deterministic_only: false,
            multi_memory: false,
            exceptions: false,
            memory64: false,
        },
        paged_memory_initialization: paged,
    }
}

#[test]
fn pipeline_orders_functions_by_index() {
    let g = Toy { compiles: Cell::new(0) };
    let wasm = b"\0asm\x00\x01\x00\x02\x00\x03\x01\x07";
    let bytes = build_artifacts(&g, &env(false), wasm).unwrap();
    assert_eq!(bytes, vec![b'S', b'K', b'Y', 4, 101, 102, 103, 0, 2, 107, 0]);
    assert_eq!(g.compiles.get(), 4);
}

#[test]
fn pipeline_requests_paged_init_when_asked() {
    let g = Toy { compiles: Cell::new(0) };
    let bytes = build_artifacts(&g, &env(true), b"\0asm\x00\x05").unwrap();
    assert_eq!(bytes, vec![b'S', b'K', b'Y', 2, 105, 1]);
}

#[test]
fn pipeline_parse_failure_compiles_nothing() {
    let g = Toy { compiles: Cell::new(0) };
    let r = build_artifacts(&g, &env(false), &[0x13, 0x37, 0xc0, 0xde, 1, 2, 3, 4, 5, 6, 7, 8, 9, 10, 11, 12]);
    assert!(matches!(r, Err(BuildFailure::Parse)));
    assert_eq!(g.compiles.get(), 0);
}

#[test]
fn pipeline_first_failure_aborts() {
    let g = Toy { compiles: Cell::new(0) };
    let r = build_artifacts(&g, &env(false), b"\0asm\x00\x01\x00\xff\x01\x02");
    match r {
        Err(BuildFailure::Compile(e)) => assert_eq!(e, "bad body"),
        _ => panic!("expected the compile failure"),
    }
    assert_eq!(g.compiles.get(), 2);
}
