use whis_core::model_cache::{ModelAccess, ModelCache};
use whis_core::errors::TranscribeError;
use whis_core::reassembly::Reassembler;

#[test]
fn test_cache_same_path_loads_once() {
    let mut cache = ModelCache::new();
    cache.set_keep_loaded(true);
    assert_eq!(cache.get_model("model.bin", true), Ok(ModelAccess::Loaded));
    assert_eq!(cache.loads, 1);
    // The second get with the same path reuses the slot: still one load.
    assert_eq!(cache.get_model("model.bin", true), Ok(ModelAccess::Reused));
    assert_eq!(cache.loads, 1);
}

#[test]
fn test_cache_other_path_reloads_and_evicts() {
    let mut cache = ModelCache::new();
    assert_eq!(cache.get_model("small.bin", true), Ok(ModelAccess::Loaded));
    assert_eq!(cache.get_model("large.bin", true), Ok(ModelAccess::Loaded));
    assert_eq!(cache.loads, 2);
    assert_eq!(cache.slot.as_deref(), Some("large.bin"));
    // The first model was evicted, so it loads again.
    assert_eq!(cache.get_model("small.bin", true), Ok(ModelAccess::Loaded));
    assert_eq!(cache.loads, 3);
}

#[test]
fn test_cache_discards_after_use_by_default() {
    let mut cache = ModelCache::new();
    assert!(!cache.should_keep_loaded());
    assert_eq!(cache.get_model("model.bin", true), Ok(ModelAccess::Loaded));
    // keep_loaded is false: the slot is dropped right after the call.
    cache.maybe_unload();
    assert!(cache.slot.is_none());
    // A further call with the same path is a fresh disk load.
    assert_eq!(cache.get_model("model.bin", true), Ok(ModelAccess::Loaded));
    assert_eq!(cache.loads, 2);
}

#[test]
fn test_cache_keeps_model_in_listen_mode() {
    let mut cache = ModelCache::new();
    cache.set_keep_loaded(true);
    assert_eq!(cache.get_model("model.bin", true), Ok(ModelAccess::Loaded));
    cache.maybe_unload();
    assert!(cache.slot.is_some());
    assert_eq!(cache.get_model("model.bin", true), Ok(ModelAccess::Reused));
    assert_eq!(cache.loads, 1);
}

#[test]
fn test_cache_errors() {
    let mut cache = ModelCache::new();
    assert_eq!(cache.get_model("", true), Err(TranscribeError::Configuration));
    assert_eq!(
        cache.get_model("missing.bin", false),
        Err(TranscribeError::ModelNotFound { path: "missing.bin".to_string() })
    );
    assert_eq!(cache.loads, 0);
    assert!(cache.slot.is_none());
}

#[test]
fn test_unload_model_clears_slot() {
    let mut cache = ModelCache::new();
    cache.get_model("model.bin", true).unwrap();
    cache.unload_model();
    assert!(cache.slot.is_none());
    assert_eq!(cache.loads, 1);
}

#[test]
fn test_reassembly_orders_by_index() {
    let mut r = Reassembler::new();
    r.insert(1, "world peace".to_string());
    r.insert(0, "hello world".to_string());
    r.set_expected(2);
    assert!(r.is_complete());
    // "world" is duplicated overlap text: trimmed from the later chunk.
    assert_eq!(r.finalize(), "hello world peace");
}

#[test]
fn test_reassembly_completion_order_does_not_matter() {
    let results = [
        (0usize, "the quick brown"),
        (1usize, "brown fox jumps"),
        (2usize, "jumps over it"),
    ];

    let mut forward = Reassembler::new();
    for (i, t) in results.iter() {
        forward.insert(*i, t.to_string());
    }
    forward.set_expected(3);

    let mut reverse = Reassembler::new();
    for (i, t) in results.iter().rev() {
        reverse.insert(*i, t.to_string());
    }
    reverse.set_expected(3);

    assert!(forward.is_complete() && reverse.is_complete());
    assert_eq!(forward.finalize(), reverse.finalize());
    assert_eq!(forward.finalize(), "the quick brown fox jumps over it");
}

#[test]
fn test_reassembly_without_overlap_concatenates() {
    let mut r = Reassembler::new();
    r.insert(0, "alpha".to_string());
    r.insert(1, "beta".to_string());
    r.set_expected(2);
    assert_eq!(r.finalize(), "alphabeta");
}

#[test]
fn test_reassembly_incomplete_until_all_present() {
    let mut r = Reassembler::new();
    r.insert(1, "b".to_string());
    assert!(!r.is_complete());
    r.set_expected(2);
    assert!(!r.is_complete());
    r.insert(0, "a".to_string());
    assert!(r.is_complete());
    assert_eq!(r.finalize(), "ab");
}

#[test]
fn test_finalize_partial_excludes_abandoned_chunks() {
    let mut r = Reassembler::new();
    r.insert(0, "the quick brown".to_string());
    r.insert(2, "jumps over it".to_string());
    r.set_expected(4);
    assert!(!r.is_complete());
    let (text, missing) = r.finalize_partial();
    // Chunks 1 and 3 were abandoned; the rest concatenates in order.
    assert_eq!(text, "the quick brownjumps over it");
    assert_eq!(missing, vec![1, 3]);
}

#[test]
fn test_finalize_partial_trims_between_present_neighbours() {
    let mut r = Reassembler::new();
    r.insert(0, "hello world".to_string());
    r.insert(1, "world peace".to_string());
    r.set_expected(2);
    let (text, missing) = r.finalize_partial();
    assert_eq!(text, "hello world peace");
    assert!(missing.is_empty());
}
