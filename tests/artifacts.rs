use skylift::cache::{ArtifactCache, Lookup};
use skylift::commands::{CacheSetting, CommonOptions, ServerCommand};
use skylift::flags::{check_remote_flags, compare_names, flag_maps_equal, FlagCheck, FlagMap, FlagMismatch, FlagValue};
use skylift::pipeline::{collect_in_index_order, CollectError};
use skylift::fingerprint::{cache_entry, cached_artifact};
use skylift::trampoline::{
    host_to_wasm_arguments, host_to_wasm_layout, host_to_wasm_trampoline, slot_offsets, slot_size,
    values_vec_len, wasm_to_host_layout, wasm_to_host_trampoline, ArgSource, ExternalName, RelocError,
    TrampolineRelocSink, TranslatorPool,
};

#[test]
fn single_flight_per_key() {
    let mut cache = ArtifactCache::new();
    assert!(matches!(cache.begin(7), Lookup::Compute));
    assert!(matches!(cache.begin(7), Lookup::Wait));
    assert!(matches!(cache.begin(7), Lookup::Wait));
    assert!(matches!(cache.begin(8), Lookup::Compute));
    let stored = cache.complete(7, vec![1, 2, 3]);
    assert_eq!(stored, vec![1, 2, 3]);
    match cache.begin(7) {
        Lookup::Hit(b) => assert_eq!(b, vec![1, 2, 3]),
        _ => panic!("expected a hit"),
    }
}

#[test]
fn cache_hit_skips_compute_on_a_new_session() {
    let mut cache = ArtifactCache::new();
    let mut computations = 0;
    for _ in 0..2 {
        match cache.begin(42) {
            Lookup::Compute => {
                computations += 1;
                cache.complete(42, vec![9, 9]);
            }
            Lookup::Hit(b) => assert_eq!(b, vec![9, 9]),
            Lookup::Wait => panic!("nothing is in flight"),
        }
    }
    assert_eq!(computations, 1);
}

#[test]
fn stored_artifact_is_never_replaced() {
    let mut cache = ArtifactCache::new();
    assert!(matches!(cache.begin(1), Lookup::Compute));
    cache.complete(1, vec![5]);
    assert_eq!(cache.complete(1, vec![6]), vec![5]);
    cache.abort(1);
    assert!(matches!(cache.begin(1), Lookup::Hit(_)));
}

#[test]
fn failed_compute_releases_the_claim() {
    let mut cache = ArtifactCache::new();
    assert!(matches!(cache.begin(3), Lookup::Compute));
    cache.abort(3);
    assert!(matches!(cache.begin(3), Lookup::Compute));
}

#[test]
fn results_are_put_in_index_order() {
    let results: Vec<(usize, Result<&str, String>)> =
        vec![(2, Ok("c")), (0, Ok("a")), (3, Ok("d")), (1, Ok("b"))];
    let v = collect_in_index_order(4, results).ok().unwrap();
    assert_eq!(v, vec!["a", "b", "c", "d"]);
}

#[test]
fn first_failure_wins() {
    let results: Vec<(usize, Result<u32, &str>)> =
        vec![(1, Ok(10)), (0, Err("first")), (2, Err("second"))];
    match collect_in_index_order(3, results) {
        Err(CollectError::Compile(e)) => assert_eq!(e, "first"),
        _ => panic!("expected the first failure"),
    }
}

#[test]
fn bad_indices_are_rejected() {
    let dup: Vec<(usize, Result<u32, ()>)> = vec![(0, Ok(1)), (0, Ok(2))];
    assert!(matches!(collect_in_index_order(2, dup), Err(CollectError::BadIndex)));
    let missing: Vec<(usize, Result<u32, ()>)> = vec![(0, Ok(1))];
    assert!(matches!(collect_in_index_order(2, missing), Err(CollectError::BadIndex)));
    let out_of_range: Vec<(usize, Result<u32, ()>)> = vec![(5, Ok(1))];
    assert!(matches!(collect_in_index_order(1, out_of_range), Err(CollectError::BadIndex)));
    let empty: Vec<(usize, Result<u32, ()>)> = Vec::new();
    assert_eq!(collect_in_index_order(0, empty).ok().unwrap(), Vec::<u32>::new());
}

#[test]
fn slot_sizes() {
    assert_eq!(slot_size(8), 16);
    assert_eq!(slot_size(4), 16);
    assert_eq!(slot_size(32), 32);
    assert_eq!(values_vec_len(3, 1, 16), Some(48));
    assert_eq!(values_vec_len(0, 2, 16), Some(32));
    assert_eq!(values_vec_len(0, 0, 16), Some(0));
    assert_eq!(values_vec_len(1 << 28, 0, 16), None);
    assert_eq!(slot_offsets(3, 16), Some(vec![0, 16, 32]));
}

#[test]
fn host_to_wasm_argument_sources() {
    let v = host_to_wasm_arguments(5, 16).unwrap();
    assert_eq!(
        v,
        vec![
            ArgSource::Vmctx,
            ArgSource::CallerVmctx,
            ArgSource::Slot(0),
            ArgSource::Slot(16),
            ArgSource::Slot(32)
        ]
    );
    assert_eq!(host_to_wasm_arguments(2, 16).unwrap().len(), 2);
}

#[test]
fn wasm_to_host_frame() {
    let l = wasm_to_host_layout(2, 3, 8).unwrap();
    assert_eq!(l.values_vec_len, 48);
    assert_eq!(l.param_offsets, vec![0, 16]);
    assert_eq!(l.result_offsets, vec![0, 16, 32]);
}

#[test]
fn only_libcall_relocations_are_accepted() {
    let mut sink = TrampolineRelocSink::new();
    sink.reloc_external(12, 3, &ExternalName::LibCall(4), -4);
    assert_eq!(sink.relocs.len(), 1);
    assert_eq!(sink.relocs[0].libcall, 4);
    assert_eq!(sink.relocs[0].offset, 12);
    assert_eq!(sink.reloc_constant(0, 0, 0), Err(RelocError::ConstantRelocation));
    assert_eq!(sink.reloc_jt(0, 0, 0), Err(RelocError::JumpTableRelocation));
    assert_eq!(sink.relocs.len(), 1);
}

#[test]
fn translator_pool_reuses_last_saved() {
    let mut pool: TranslatorPool<u32> = TranslatorPool::new();
    assert_eq!(pool.take_translator(), None);
    pool.save_translator(1);
    pool.save_translator(2);
    assert_eq!(pool.take_translator(), Some(2));
    assert_eq!(pool.take_translator(), Some(1));
    assert_eq!(pool.take_translator(), None);
}

fn map(flags: &[(&str, FlagValue)]) -> FlagMap {
    let mut m = FlagMap::new();
    for (name, value) in flags {
        m.insert(name.to_string(), value.clone());
    }
    m
}

#[test]
fn flag_maps_compare_by_name_and_value() {
    let a = map(&[("opt_level", FlagValue::Enum("speed".to_string())), ("enable_verifier", FlagValue::Bool(true))]);
    let b = map(&[("enable_verifier", FlagValue::Bool(true)), ("opt_level", FlagValue::Enum("speed".to_string()))]);
    assert!(flag_maps_equal(&a, &b));
    let names: Vec<&str> = a.entries().iter().map(|f| f.name.as_str()).collect();
    assert_eq!(names, vec!["enable_verifier", "opt_level"]);
    let c = map(&[("opt_level", FlagValue::Enum("none".to_string())), ("enable_verifier", FlagValue::Bool(true))]);
    assert!(!flag_maps_equal(&a, &c));
    let d = map(&[("opt_level", FlagValue::Num(1))]);
    assert!(!flag_maps_equal(&a, &d));
}

#[test]
fn flag_map_insert_replaces_same_name() {
    let m = map(&[("b", FlagValue::Num(1)), ("a", FlagValue::Num(2)), ("b", FlagValue::Num(3))]);
    assert_eq!(m.entries().len(), 2);
    assert_eq!(m.entries()[0].name, "a");
    assert_eq!(m.entries()[1].name, "b");
    assert!(matches!(m.entries()[1].value, FlagValue::Num(3)));
}

#[test]
fn name_order() {
    assert_eq!(compare_names("a", "b"), -1);
    assert_eq!(compare_names("ab", "a"), 1);
    assert_eq!(compare_names("abc", "abc"), 0);
    assert_eq!(compare_names("", "a"), -1);
    assert_eq!(compare_names("Z", "a"), -1);
}

#[test]
fn flag_check_modes() {
    let shared = map(&[("opt_level", FlagValue::Enum("speed".to_string()))]);
    let isa = map(&[("has_sse3", FlagValue::Bool(true))]);
    let other_isa = map(&[("has_sse3", FlagValue::Bool(false))]);
    assert_eq!(check_remote_flags(&shared, &shared, &isa, &isa, FlagCheck::Strict), Ok(true));
    assert_eq!(
        check_remote_flags(&shared, &shared, &isa, &other_isa, FlagCheck::Strict),
        Err(FlagMismatch::Isa)
    );
    assert_eq!(
        check_remote_flags(&shared, &FlagMap::new(), &isa, &other_isa, FlagCheck::Strict),
        Err(FlagMismatch::Shared)
    );
    assert_eq!(
        check_remote_flags(&shared, &shared, &isa, &other_isa, FlagCheck::Lenient),
        Ok(false)
    );
}

#[test]
fn server_command_launch() {
    let cmd = ServerCommand {
        host: "[::1]:1337".to_string(),
        common: CommonOptions { config: Some("cache.toml".to_string()), disable_cache: false },
    };
    let launch = cmd.execute();
    assert_eq!(launch.host, "[::1]:1337");
    assert!(matches!(launch.cache, CacheSetting::ConfigFile(ref p) if p == "cache.toml"));
    let off = ServerCommand {
        host: "0.0.0.0:1".to_string(),
        common: CommonOptions { config: None, disable_cache: true },
    };
    assert!(matches!(off.execute().cache, CacheSetting::Disabled));
    let default = ServerCommand {
        host: "0.0.0.0:1".to_string(),
        common: CommonOptions { config: None, disable_cache: false },
    };
    assert!(matches!(default.execute().cache, CacheSetting::DefaultConfig));
}

#[test]
fn host_to_wasm_frame_stores_results_in_their_slots() {
    let l = host_to_wasm_layout(4, 3, 8).unwrap();
    assert_eq!(l.args, vec![ArgSource::Vmctx, ArgSource::CallerVmctx, ArgSource::Slot(0), ArgSource::Slot(16)]);
    assert_eq!(l.result_offsets, vec![0, 16, 32]);
    let wide = host_to_wasm_layout(3, 2, 32).unwrap();
    assert_eq!(wide.args[2], ArgSource::Slot(0));
    assert_eq!(wide.result_offsets, vec![0, 32]);
    assert!(host_to_wasm_layout(2, usize::MAX, 16).is_none());
}

#[test]
fn trampolines_return_their_translator() {
    let mut pool: TranslatorPool<u32> = TranslatorPool::new();
    assert!(host_to_wasm_trampoline(&mut pool, 7, 3, 1, 8).is_some());
    assert_eq!(pool.take_translator(), Some(7));
    assert_eq!(pool.take_translator(), None);
    pool.save_translator(1);
    pool.save_translator(2);
    assert!(wasm_to_host_trampoline(&mut pool, 9, 1, 1, 8).is_some());
    assert_eq!(pool.take_translator(), Some(2));
    assert_eq!(pool.take_translator(), Some(1));
    assert_eq!(pool.take_translator(), None);
    assert!(host_to_wasm_trampoline(&mut pool, 5, 2, usize::MAX, 16).is_none());
    assert_eq!(pool.take_translator(), None);
}

#[test]
fn cache_entries_carry_their_fingerprint() {
    let entry = cache_entry(&[1, 2, 3], &[9, 8]);
    assert_eq!(entry, vec![3, 0, 0, 0, 0, 0, 0, 0, 1, 2, 3, 9, 8]);
    assert_eq!(cached_artifact(&entry, &[1, 2, 3]), Some(vec![9, 8]));
    assert_eq!(cached_artifact(&entry, &[1, 2, 4]), None);
    assert_eq!(cached_artifact(&entry, &[1, 2]), None);
    assert_eq!(cached_artifact(&[3, 0], &[1, 2, 3]), None);
    assert_eq!(cached_artifact(&cache_entry(&[], &[]), &[]), Some(vec![]));
}
