//! The result of a sampler job: for every circuit of the job, the samples
//! measured on each of its classical registers.

use std::collections::HashMap;
use vstd::prelude::*;
use crate::json::model;
use crate::text::texts;

verus! {

/// The samples of one classical register.
#[derive(Clone, Debug, PartialEq)]
pub struct SamplerV2ResultEntryData {
    /// One text per shot.
    pub samples: Vec<String>,
    /// The width of the register.
    pub num_bits: u32,
}

/// What a `SamplerV2ResultEntryData` stands for in contracts.
pub struct RegisterModel {
    pub samples: Seq<Seq<char>>,
    pub num_bits: u32,
}

impl View for SamplerV2ResultEntryData {
    type V = RegisterModel;

    open spec fn view(&self) -> RegisterModel {
        RegisterModel { samples: texts(self.samples@), num_bits: self.num_bits }
    }
}

impl Default for SamplerV2ResultEntryData {
    /// A register of width zero without samples.
    fn default() -> (data: SamplerV2ResultEntryData)
        ensures
            data@ == (RegisterModel { samples: Seq::empty(), num_bits: 0 }),
    {
        let data = SamplerV2ResultEntryData { samples: Vec::new(), num_bits: 0 };
        assert(texts(data.samples@) =~= Seq::empty());
        data
    }
}

/// The result for one circuit: its registers by name, and what the service
/// adds about the execution.
#[derive(Clone, Debug, PartialEq)]
pub struct SamplerV2ResultEntry {
    pub data: HashMap<String, SamplerV2ResultEntryData>,
    pub metadata: serde_json::Value,
}

impl Default for SamplerV2ResultEntry {
    /// An entry without registers, with `null` for its metadata.
    fn default() -> (entry: SamplerV2ResultEntry)
        ensures
            entry.data@ == Map::<String, SamplerV2ResultEntryData>::empty(),
            model(entry.metadata) is Null,
    {
        SamplerV2ResultEntry { data: HashMap::new(), metadata: crate::json::null_value() }
    }
}

/// The result of a job: one entry per circuit, and what the service adds about
/// the job.
#[derive(Clone, Debug, PartialEq)]
pub struct SamplerV2Result {
    pub metadata: serde_json::Value,
    pub results: Vec<SamplerV2ResultEntry>,
}

impl Default for SamplerV2Result {
    /// A result without entries, with `null` for its metadata.
    fn default() -> (result: SamplerV2Result)
        ensures
            model(result.metadata) is Null,
            result.results@ == Seq::<SamplerV2ResultEntry>::empty(),
    {
        SamplerV2Result { metadata: crate::json::null_value(), results: Vec::new() }
    }
}

} // verus!
