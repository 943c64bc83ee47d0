use std::path::Path;

use vmaf_models::assets::{get_asset, get_vmaf_4k_model, get_vmaf_def_model, ModelName};
use vmaf_models::cache::{
    derive_secondary_path, get_4k_model_path, get_def_model_path, join_in_dir, primary_filename,
    ModelCache,
};

fn file_len(path: &str) -> u64 {
    Path::new(path).metadata().expect("file should exist").len()
}

#[test]
fn def_path_is_stable_across_calls() {
    let mut cache = ModelCache::new();
    let p1 = cache.get_model_path(ModelName::Default).expect("materialization should succeed");
    let mtime_before = Path::new(&p1).metadata().unwrap().modified().unwrap();
    let p2 = cache.get_model_path(ModelName::Default).expect("cached call should succeed");
    assert_eq!(p1, p2);
    let mtime_after = Path::new(&p1).metadata().unwrap().modified().unwrap();
    assert_eq!(mtime_before, mtime_after);
}

#[test]
fn four_k_path_is_stable_across_calls() {
    let mut cache = ModelCache::new();
    let p1 = cache.get_model_path(ModelName::FourK).expect("materialization should succeed");
    let p2 = cache.get_model_path(ModelName::FourK).expect("cached call should succeed");
    assert_eq!(p1, p2);
}

#[test]
fn def_files_exist_with_payload_sizes() {
    let mut cache = ModelCache::new();
    let p = cache.get_model_path(ModelName::Default).expect("materialization should succeed");
    let secondary = format!("{}.model", p);
    assert!(Path::new(&p).exists());
    assert!(Path::new(&secondary).exists());
    let (primary_bytes, secondary_bytes) = get_vmaf_def_model();
    assert!(!primary_bytes.is_empty());
    assert!(!secondary_bytes.is_empty());
    assert_eq!(file_len(&p), primary_bytes.len() as u64);
    assert_eq!(file_len(&secondary), secondary_bytes.len() as u64);
}

#[test]
fn four_k_files_exist_with_payload_sizes() {
    let mut cache = ModelCache::new();
    let p = cache.get_model_path(ModelName::FourK).expect("materialization should succeed");
    let secondary = format!("{}.model", p);
    assert!(Path::new(&p).exists());
    assert!(Path::new(&secondary).exists());
    let (primary_bytes, secondary_bytes) = get_vmaf_4k_model();
    assert_eq!(file_len(&p), primary_bytes.len() as u64);
    assert_eq!(file_len(&secondary), secondary_bytes.len() as u64);
}

#[test]
fn def_path_ends_with_canonical_filename() {
    let mut cache = ModelCache::new();
    let p = cache.get_model_path(ModelName::Default).expect("materialization should succeed");
    assert!(p.ends_with("/vmaf_v0.6.1.pkl"));
}

#[test]
fn four_k_path_ends_with_canonical_filename() {
    let mut cache = ModelCache::new();
    let p = cache.get_model_path(ModelName::FourK).expect("materialization should succeed");
    assert!(p.ends_with("/vmaf_4k_v0.6.1.pkl"));
}

#[test]
fn models_materialize_into_distinct_directories() {
    let mut cache = ModelCache::new();
    let p_def = cache.get_model_path(ModelName::Default).expect("default should materialize");
    let p_4k = cache.get_model_path(ModelName::FourK).expect("4k should materialize");
    assert_ne!(p_def, p_4k);
    assert_ne!(format!("{}.model", p_def), format!("{}.model", p_4k));
    let dir_def = Path::new(&p_def).parent().expect("path should have a parent");
    let dir_4k = Path::new(&p_4k).parent().expect("path should have a parent");
    assert_ne!(dir_def, dir_4k);
}

#[test]
fn materializing_one_model_leaves_the_other_untouched() {
    let mut cache = ModelCache::new();
    let p_def = cache.get_model_path(ModelName::Default).expect("default should materialize");
    let _ = cache.get_model_path(ModelName::FourK).expect("4k should materialize");
    let p_def_again = cache.get_model_path(ModelName::Default).expect("cached call");
    assert_eq!(p_def, p_def_again);
}

#[test]
fn dropping_the_cache_removes_the_directories() {
    let mut cache = ModelCache::new();
    let p_def = cache.get_model_path(ModelName::Default).expect("default should materialize");
    let p_4k = cache.get_model_path(ModelName::FourK).expect("4k should materialize");
    assert!(Path::new(&p_def).exists());
    assert!(Path::new(&p_4k).exists());
    drop(cache);
    assert!(!Path::new(&p_def).exists());
    assert!(!Path::new(&format!("{}.model", p_def)).exists());
    assert!(!Path::new(&p_4k).exists());
    assert!(Path::new(&p_def).parent().map(|d| !d.exists()).unwrap_or(false));
    assert!(Path::new(&p_4k).parent().map(|d| !d.exists()).unwrap_or(false));
}

#[test]
fn free_functions_agree_with_the_cache() {
    let mut cache = ModelCache::new();
    let p_def = get_def_model_path(&mut cache).expect("default should materialize");
    let p_4k = get_4k_model_path(&mut cache).expect("4k should materialize");
    assert_eq!(p_def, cache.get_model_path(ModelName::Default).unwrap());
    assert_eq!(p_4k, cache.get_model_path(ModelName::FourK).unwrap());
    assert_eq!(p_def, get_def_model_path(&mut cache).unwrap());
    assert_eq!(p_4k, get_4k_model_path(&mut cache).unwrap());
}

#[test]
fn assets_are_fixed_and_distinct() {
    let (def_primary, def_secondary) = get_vmaf_def_model();
    let (four_k_primary, four_k_secondary) = get_vmaf_4k_model();
    assert!(!def_primary.is_empty());
    assert!(!def_secondary.is_empty());
    assert!(!four_k_primary.is_empty());
    assert!(!four_k_secondary.is_empty());
    assert_ne!(def_primary, four_k_primary);
    assert_ne!(def_secondary, four_k_secondary);
    assert_eq!(get_asset(ModelName::Default), (def_primary, def_secondary));
    assert_eq!(get_asset(ModelName::FourK), (four_k_primary, four_k_secondary));
}

#[test]
fn default_entry_serves_default_bytes() {
    // The default entry is materialized from the default payload, not
    // the 4K payload: the file size matches the default payload alone.
    let mut cache = ModelCache::new();
    let p = cache.get_model_path(ModelName::Default).expect("default should materialize");
    let (def_primary, _) = get_vmaf_def_model();
    let (four_k_primary, _) = get_vmaf_4k_model();
    assert_eq!(file_len(&p), def_primary.len() as u64);
    assert_ne!(file_len(&p), four_k_primary.len() as u64);
}

#[test]
fn secondary_path_derivation_appends_fixed_suffix() {
    assert_eq!(derive_secondary_path("a/b/vmaf_v0.6.1.pkl"), "a/b/vmaf_v0.6.1.pkl.model");
    assert_eq!(derive_secondary_path(""), ".model");
    assert_eq!(join_in_dir("tmp", "f.pkl"), "tmp/f.pkl");
    assert_eq!(primary_filename(ModelName::Default), "vmaf_v0.6.1.pkl");
    assert_eq!(primary_filename(ModelName::FourK), "vmaf_4k_v0.6.1.pkl");
}
