use llama_rgui::error::{gguf_failure, AppError};
use llama_rgui::gguf::format::{GgufError, GgufHeader, GgufValue};
use llama_rgui::gguf::reader::{GgufReader, Reply, Request};
use llama_rgui::meta::model_meta;

/// Answers the reader's requests from an in-memory file, as a seekable file would.
fn read_header(file: &[u8]) -> Result<GgufHeader, GgufError> {
    let mut reader = GgufReader::new();
    let mut pos: i64 = 0;
    loop {
        match reader.next_request() {
            Request::Read(n) => {
                let start = pos as u64;
                match start.checked_add(n) {
                    Some(end) if end <= file.len() as u64 => {
                        let bytes = file[start as usize..end as usize].to_vec();
                        pos = end as i64;
                        reader.resume(Reply::Bytes(bytes));
                    }
                    _ => reader.resume(Reply::Failed("failed to fill whole buffer".to_string())),
                }
            }
            Request::Seek(d) => match pos.checked_add(d) {
                Some(p) if p >= 0 => {
                    pos = p;
                    reader.resume(Reply::Moved);
                }
                _ => reader.resume(Reply::Failed("invalid seek".to_string())),
            },
            Request::Finished => return reader.finish(),
        }
    }
}

fn put_u32(v: &mut Vec<u8>, x: u32) {
    v.extend_from_slice(&x.to_le_bytes());
}

fn put_u64(v: &mut Vec<u8>, x: u64) {
    v.extend_from_slice(&x.to_le_bytes());
}

fn put_str(v: &mut Vec<u8>, s: &str) {
    put_u64(v, s.len() as u64);
    v.extend_from_slice(s.as_bytes());
}

fn header(v: &mut Vec<u8>, version: u32, kv: u64) {
    put_u32(v, 0x46554747);
    put_u32(v, version);
    put_u64(v, 7);
    put_u64(v, kv);
}

fn kv_u32(v: &mut Vec<u8>, key: &str, x: u32) {
    put_str(v, key);
    put_u32(v, 4);
    put_u32(v, x);
}

fn kv_str(v: &mut Vec<u8>, key: &str, s: &str) {
    put_str(v, key);
    put_u32(v, 8);
    put_str(v, s);
}

fn sample_file() -> Vec<u8> {
    let mut f = Vec::new();
    header(&mut f, 3, 9);
    kv_str(&mut f, "general.architecture", "llama");
    kv_str(&mut f, "general.name", "Tiny");
    kv_u32(&mut f, "general.file_type", 15);
    // a skipped f32 scalar
    put_str(&mut f, "general.quantization_version");
    put_u32(&mut f, 6);
    put_u32(&mut f, 0x3f800000);
    // a string array (tokens), stepped over
    put_str(&mut f, "tokenizer.ggml.tokens");
    put_u32(&mut f, 9);
    put_u32(&mut f, 8);
    put_u64(&mut f, 3);
    put_str(&mut f, "<s>");
    put_str(&mut f, "</s>");
    put_str(&mut f, "hello");
    // a fixed-width array, skipped by one seek
    put_str(&mut f, "tokenizer.ggml.scores");
    put_u32(&mut f, 9);
    put_u32(&mut f, 6);
    put_u64(&mut f, 2);
    put_u32(&mut f, 0);
    put_u32(&mut f, 0);
    kv_u32(&mut f, "llama.context_length", 4096);
    kv_u32(&mut f, "llama.block_count", 32);
    kv_u32(&mut f, "llama.attention.head_count_kv", 8);
    f
}

#[test]
fn reads_kept_entries_in_order() {
    let h = read_header(&sample_file()).ok().expect("header");
    assert_eq!(h.version, 3);
    assert_eq!(h.entries.len(), 6);
    assert_eq!(h.entries[0].key, "general.architecture");
    match &h.entries[0].value {
        GgufValue::Str(s) => assert_eq!(s, "llama"),
        _ => panic!("expected a string"),
    }
    match &h.entries[2].value {
        GgufValue::U32(x) => assert_eq!(*x, 15),
        _ => panic!("expected a u32"),
    }
    assert_eq!(h.entries[5].key, "llama.attention.head_count_kv");
}

#[test]
fn meta_from_header_fields() {
    let h = read_header(&sample_file()).ok().expect("header");
    let m = model_meta("/models/tiny.gguf".to_string(), 1234, &h);
    assert_eq!(m.path, "/models/tiny.gguf");
    assert_eq!(m.file_size_bytes, 1234);
    assert_eq!(m.name.as_deref(), Some("Tiny"));
    assert_eq!(m.architecture, "llama");
    assert_eq!(m.file_type, Some(15));
    assert_eq!(m.file_type_name.as_deref(), Some("Q4_K_M"));
    assert_eq!(m.context_length, Some(4096));
    assert_eq!(m.block_count, Some(32));
    assert_eq!(m.head_count_kv, Some(8));
    assert_eq!(m.head_count, None);
    assert_eq!(m.embedding_length, None);
    assert_eq!(m.gguf_version, 3);
}

#[test]
fn later_entry_replaces_earlier() {
    let mut f = Vec::new();
    header(&mut f, 3, 3);
    kv_u32(&mut f, "qwen2.block_count", 10);
    kv_str(&mut f, "general.architecture", "qwen2");
    kv_u32(&mut f, "qwen2.block_count", 28);
    let h = read_header(&f).ok().expect("header");
    let m = model_meta("m.gguf".to_string(), 0, &h);
    assert_eq!(m.architecture, "qwen2");
    assert_eq!(m.block_count, Some(28));
}

#[test]
fn missing_architecture_is_unknown() {
    let mut f = Vec::new();
    header(&mut f, 2, 1);
    kv_u32(&mut f, "general.architecture", 5);
    let h = read_header(&f).ok().expect("header");
    let m = model_meta("m.gguf".to_string(), 0, &h);
    assert_eq!(m.architecture, "unknown");
    assert_eq!(m.file_type_name, None);
}

#[test]
fn wrong_magic_is_rejected() {
    let mut f = Vec::new();
    put_u32(&mut f, 0x12345678);
    put_u32(&mut f, 3);
    match read_header(&f) {
        Err(GgufError::NotGguf(m)) => {
            assert_eq!(m, 0x12345678);
            match gguf_failure(GgufError::NotGguf(m)) {
                AppError::GgufParse(t) => assert_eq!(t, "不是 GGUF 文件 (magic: 0x12345678)"),
                _ => panic!("expected a parse error"),
            }
        }
        _ => panic!("expected NotGguf"),
    }
}

#[test]
fn truncated_file_fails_with_io() {
    let f = sample_file();
    match read_header(&f[..f.len() - 2]) {
        Err(GgufError::Io(m)) => assert_eq!(m, "failed to fill whole buffer"),
        _ => panic!("expected an I/O failure"),
    }
    match read_header(&[0x47, 0x47]) {
        Err(GgufError::Io(_)) => {}
        _ => panic!("expected an I/O failure"),
    }
}

#[test]
fn unknown_value_type_is_invalid_data() {
    let mut f = Vec::new();
    header(&mut f, 3, 1);
    put_str(&mut f, "x");
    put_u32(&mut f, 13);
    match read_header(&f) {
        Err(GgufError::UnknownValueType(t)) => {
            assert_eq!(t, 13);
            match gguf_failure(GgufError::UnknownValueType(t)) {
                AppError::Io(m) => assert_eq!(m, "Unknown GGUF value type: 13"),
                _ => panic!("expected an I/O error"),
            }
        }
        _ => panic!("expected an unknown type"),
    }
}

#[test]
fn unknown_array_type_is_invalid_data() {
    let mut f = Vec::new();
    header(&mut f, 3, 1);
    put_str(&mut f, "x");
    put_u32(&mut f, 9);
    put_u32(&mut f, 42);
    put_u64(&mut f, 1);
    match read_header(&f) {
        Err(GgufError::UnknownArrayType(t)) => {
            assert_eq!(t, 42);
            match gguf_failure(GgufError::UnknownArrayType(t)) {
                AppError::Io(m) => assert_eq!(m, "Unknown array element type: 42"),
                _ => panic!("expected an I/O error"),
            }
        }
        _ => panic!("expected an unknown array type"),
    }
}

#[test]
fn oversized_array_overflows() {
    let mut f = Vec::new();
    header(&mut f, 3, 1);
    put_str(&mut f, "x");
    put_u32(&mut f, 9);
    put_u32(&mut f, 10);
    put_u64(&mut f, u64::MAX / 4);
    match read_header(&f) {
        Err(GgufError::SizeOverflow) => {}
        _ => panic!("expected an overflow"),
    }
}

#[test]
fn skip_past_end_is_allowed_for_last_value() {
    let mut f = Vec::new();
    header(&mut f, 3, 1);
    put_str(&mut f, "x");
    put_u32(&mut f, 9);
    put_u32(&mut f, 0);
    put_u64(&mut f, 1000);
    let h = read_header(&f).ok().expect("header");
    assert_eq!(h.entries.len(), 0);
}

#[test]
fn no_entries_header() {
    let mut f = Vec::new();
    header(&mut f, 1, 0);
    let h = read_header(&f).ok().expect("header");
    assert_eq!(h.version, 1);
    assert!(h.entries.is_empty());
}
