use bindings::models::sampler_v2_job_result::{SamplerV2Result, SamplerV2ResultEntry, SamplerV2ResultEntryData};
use std::collections::HashMap;

#[test]
fn a_default_register_is_empty() {
    let data = SamplerV2ResultEntryData::default();
    assert_eq!(data, SamplerV2ResultEntryData { samples: Vec::new(), num_bits: 0 });
}

#[test]
fn a_default_entry_has_no_registers_and_null_metadata() {
    let entry = SamplerV2ResultEntry::default();
    assert!(entry.data.is_empty());
    assert!(entry.metadata.is_null());
    assert_eq!(entry, SamplerV2ResultEntry { data: HashMap::new(), metadata: serde_json::Value::Null });
}

#[test]
fn a_default_result_has_no_entries_and_null_metadata() {
    let result = SamplerV2Result::default();
    assert!(result.results.is_empty());
    assert!(result.metadata.is_null());
    assert_eq!(result, SamplerV2Result { metadata: serde_json::Value::Null, results: Vec::new() });
}

#[test]
fn a_result_holds_its_entries() {
    let data = SamplerV2ResultEntryData { samples: vec!["0x0".to_string(), "0x3".to_string()], num_bits: 2 };
    let mut registers = HashMap::new();
    registers.insert("meas".to_string(), data.clone());
    let entry = SamplerV2ResultEntry { data: registers, metadata: serde_json::Value::Bool(true) };
    let result = SamplerV2Result { metadata: serde_json::Value::Null, results: vec![entry.clone()] };
    let copy = result.clone();
    assert_eq!(copy, result);
    assert_eq!(copy.results[0].data["meas"], data);
    assert_eq!(copy.results[0].data["meas"].num_bits, 2);
    assert_eq!(copy.results[0].metadata, serde_json::Value::Bool(true));
    assert_ne!(SamplerV2Result::default(), result);
}
