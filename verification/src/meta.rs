//! Model metadata taken from a GGUF header, and the records the model
//! library keeps.
use vstd::prelude::*;
use crate::gguf::format::{entries_view, EntryView, GgufHeader, GgufValue, KvEntry, ValueView};
use crate::quant::{file_type_to_name, quant_name};

verus! {

/// Metadata of one GGUF model file.
pub struct ModelMeta {
    pub path: String,
    pub file_size_bytes: u64,
    /// `general.name`
    pub name: Option<String>,
    /// `general.architecture` (llama, qwen2, ...)
    pub architecture: String,
    /// `general.file_type`
    pub file_type: Option<u32>,
    /// Quantization name of `file_type` (e.g. Q4_K_M)
    pub file_type_name: Option<String>,
    /// `<arch>.context_length`
    pub context_length: Option<u32>,
    /// `<arch>.embedding_length`
    pub embedding_length: Option<u32>,
    /// `<arch>.block_count` (layers)
    pub block_count: Option<u32>,
    /// `<arch>.attention.head_count`
    pub head_count: Option<u32>,
    /// `<arch>.attention.head_count_kv`
    pub head_count_kv: Option<u32>,
    /// `<arch>.attention.key_length`
    pub key_length: Option<u32>,
    /// `<arch>.attention.value_length`
    pub value_length: Option<u32>,
    /// GGUF format version
    pub gguf_version: u32,
}

/// One model found by a library scan.
pub struct ModelInfo {
    pub path: String,
    pub file_name: String,
    pub folder: String,
    pub file_size_bytes: u64,
    /// The metadata, when the file parsed.
    pub meta: Option<ModelMeta>,
    /// The error message, when it did not.
    pub parse_error: Option<String>,
}

/// Which part of the weights goes to the GPU: all of them, or `layers` of
/// `of` layers (`layers < of`).
#[derive(PartialEq, Eq, Structural, Clone, Copy)]
pub enum OffloadShare {
    Full,
    Partial { layers: u32, of: u64 },
}

/// A memory estimate for running a model under a preset.
pub struct VramEstimate {
    /// Model weights (the file size)
    pub weights_bytes: u64,
    /// KV cache
    pub kv_cache_bytes: u64,
    /// Runtime overhead
    pub overhead_bytes: u64,
    /// Weights, KV cache and overhead together
    pub total_bytes: u64,
    /// The share of the weights offloaded to the GPU
    pub offload: OffloadShare,
    /// Assumptions behind the estimate
    pub notes: Vec<String>,
}

pub open spec fn opt_view(o: Option<String>) -> Option<Seq<char>> {
    match o {
        Some(s) => Some(s@),
        None => None,
    }
}

/// The value of the last entry with key `key` (a later entry with the same
/// key replaces an earlier one).
pub open spec fn lookup(e: Seq<EntryView>, key: Seq<char>) -> Option<ValueView>
    decreases e.len(),
{
    if e.len() == 0 {
        None
    } else if e.last().key == key {
        Some(e.last().value)
    } else {
        lookup(e.drop_last(), key)
    }
}

pub open spec fn u32_entry(e: Seq<EntryView>, key: Seq<char>) -> Option<u32> {
    match lookup(e, key) {
        Some(ValueView::U32(v)) => Some(v),
        _ => None,
    }
}

pub open spec fn str_entry(e: Seq<EntryView>, key: Seq<char>) -> Option<Seq<char>> {
    match lookup(e, key) {
        Some(ValueView::Str(s)) => Some(s),
        _ => None,
    }
}

/// `general.architecture` when it is a string, else `unknown`.
pub open spec fn architecture_of(e: Seq<EntryView>) -> Seq<char> {
    match str_entry(e, "general.architecture"@) {
        Some(s) => s,
        None => "unknown"@,
    }
}

/// The `u32` entry `<arch>.<field>`.
pub open spec fn arch_field(e: Seq<EntryView>, field: Seq<char>) -> Option<u32> {
    u32_entry(e, architecture_of(e) + "."@ + field)
}

fn find_value<'a>(entries: &'a Vec<KvEntry>, key: &String) -> (r: Option<&'a GgufValue>)
    ensures
        match lookup(entries_view(entries@), key@) {
            Some(v) => r matches Some(x) && x@ == v,
            None => r is None,
        },
{
    let ghost ev = entries_view(entries@);
    let mut i = entries.len();
    assert(ev.take(i as int) =~= ev);
    while i > 0
        invariant
            i <= entries@.len(),
            ev == entries_view(entries@),
            lookup(ev, key@) == lookup(ev.take(i as int), key@),
        decreases i,
    {
        assert(ev.take(i as int).drop_last() =~= ev.take(i - 1));
        if entries[i - 1].key == *key {
            return Some(&entries[i - 1].value);
        }
        i = i - 1;
    }
    None
}

fn u32_value(entries: &Vec<KvEntry>, key: &String) -> (r: Option<u32>)
    ensures
        r == u32_entry(entries_view(entries@), key@),
{
    match find_value(entries, key) {
        Some(GgufValue::U32(v)) => Some(*v),
        _ => None,
    }
}

fn str_value(entries: &Vec<KvEntry>, key: &String) -> (r: Option<String>)
    ensures
        opt_view(r) == str_entry(entries_view(entries@), key@),
{
    match find_value(entries, key) {
        Some(GgufValue::Str(s)) => Some(s.clone()),
        _ => None,
    }
}

fn arch_value(entries: &Vec<KvEntry>, arch: &String, field: &str) -> (r: Option<u32>)
    ensures
        r == u32_entry(entries_view(entries@), arch@ + "."@ + field@),
{
    let mut key = arch.clone();
    key.append(".");
    key.append(field);
    u32_value(entries, &key)
}

/// The metadata of a model file from its path, size and parsed header:
/// entries are looked up by key, a later entry replacing an earlier one;
/// per-architecture fields use the key `<architecture>.<field>`.
pub fn model_meta(path: String, file_size: u64, header: &GgufHeader) -> (m: ModelMeta)
    ensures
        ({
            let e = entries_view(header.entries@);
            &&& m.path@ == path@
            &&& m.file_size_bytes == file_size
            &&& opt_view(m.name) == str_entry(e, "general.name"@)
            &&& m.architecture@ == architecture_of(e)
            &&& m.file_type == u32_entry(e, "general.file_type"@)
            &&& opt_view(m.file_type_name) == match m.file_type {
                Some(t) => quant_name(t),
                None => None,
            }
            &&& m.context_length == arch_field(e, "context_length"@)
            &&& m.embedding_length == arch_field(e, "embedding_length"@)
            &&& m.block_count == arch_field(e, "block_count"@)
            &&& m.head_count == arch_field(e, "attention.head_count"@)
            &&& m.head_count_kv == arch_field(e, "attention.head_count_kv"@)
            &&& m.key_length == arch_field(e, "attention.key_length"@)
            &&& m.value_length == arch_field(e, "attention.value_length"@)
            &&& m.gguf_version == header.version
        }),
{
    let entries = &header.entries;
    let architecture = match str_value(entries, &String::from_str("general.architecture")) {
        Some(s) => s,
        None => String::from_str("unknown"),
    };
    let file_type = u32_value(entries, &String::from_str("general.file_type"));
    let file_type_name = match file_type {
        Some(t) => file_type_to_name(t),
        None => None,
    };
    let name = str_value(entries, &String::from_str("general.name"));
    let context_length = arch_value(entries, &architecture, "context_length");
    let embedding_length = arch_value(entries, &architecture, "embedding_length");
    let block_count = arch_value(entries, &architecture, "block_count");
    let head_count = arch_value(entries, &architecture, "attention.head_count");
    let head_count_kv = arch_value(entries, &architecture, "attention.head_count_kv");
    let key_length = arch_value(entries, &architecture, "attention.key_length");
    let value_length = arch_value(entries, &architecture, "attention.value_length");
    ModelMeta {
        path,
        file_size_bytes: file_size,
        name,
        architecture,
        file_type,
        file_type_name,
        context_length,
        embedding_length,
        block_count,
        head_count,
        head_count_kv,
        key_length,
        value_length,
        gguf_version: header.version,
    }
}

} // verus!
