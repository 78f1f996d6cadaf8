use llama_rgui::meta::{ModelMeta, OffloadShare};
use llama_rgui::schema::{CacheType, FlashAttnMode, GpuLayers, Preset, SplitMode};
use llama_rgui::spawn::build_args;
use llama_rgui::vram::{estimate, estimate_in_range, MB};

fn test_meta() -> ModelMeta {
    ModelMeta {
        path: "/tmp/test.gguf".into(),
        file_size_bytes: 4 * 1024 * 1024 * 1024,
        name: Some("test".into()),
        architecture: "llama".into(),
        file_type: Some(15),
        file_type_name: Some("Q4_K_M".into()),
        context_length: Some(4096),
        embedding_length: Some(4096),
        block_count: Some(32),
        head_count: Some(32),
        head_count_kv: Some(8),
        key_length: Some(128),
        value_length: Some(128),
        gguf_version: 3,
    }
}

#[test]
fn test_estimate_basic() {
    let meta = test_meta();
    let preset = Preset::default_preset();
    let est = estimate(&meta, &preset);

    // KV cache = (K+V) = 2 * 32 * 4096 * 8 * 128 * 2(F16) = 536870912 = 512MB
    assert_eq!(est.kv_cache_bytes, 512 * MB);
    assert!(est.total_bytes > 4 * 1024 * 1024 * 1024);
}

#[test]
fn estimate_exact_parts() {
    let meta = test_meta();
    let preset = Preset::default_preset();
    assert!(estimate_in_range(&meta, &preset));
    let est = estimate(&meta, &preset);
    assert_eq!(est.weights_bytes, 4 * 1024 * MB);
    // 5% of 4 GiB is below 256 MiB
    assert_eq!(est.overhead_bytes, 256 * MB);
    assert_eq!(est.total_bytes, 4 * 1024 * MB + 512 * MB + 256 * MB);
    assert!(est.offload == OffloadShare::Full);
    assert_eq!(
        est.notes,
        vec![
            "GPU 卸载设为 Auto，按全部卸载估算，实际取决于显存".to_string(),
            "上下文 4096 层 32 KV头 8 head_dim 128".to_string(),
            "估算误差约 ±10-15%".to_string(),
        ]
    );
}

#[test]
fn estimate_partial_offload_and_parallel() {
    let mut meta = test_meta();
    meta.file_size_bytes = 10_000 * MB;
    meta.key_length = None;
    meta.head_count_kv = None;
    let mut preset = Preset::default_preset();
    preset.n_gpu_layers = GpuLayers::Count(20);
    preset.parallel = 4;
    preset.ctx_size = 8192;
    preset.cache_type_k = CacheType::Q8_0;
    preset.cache_type_v = CacheType::Q4_0;
    let est = estimate(&meta, &preset);
    // head_dim = 4096 / 32, kv heads = head_count, element bytes = floor(1.0)
    assert_eq!(est.kv_cache_bytes, 2 * 32 * 8192 * 32 * 128 * 1 * 4);
    // 5% of the weights exceeds 256 MiB
    assert_eq!(est.overhead_bytes, 10_000 * MB / 20);
    assert!(est.offload == OffloadShare::Partial { layers: 20, of: 32 });
    assert_eq!(est.notes[0], "上下文 8192 层 32 KV头 32 head_dim 128");
    assert_eq!(est.notes[1], "并行 4 (KV 缓存已乘以并行数)");
    assert_eq!(est.notes.len(), 3);
}

#[test]
fn estimate_unknown_head_dim_and_defaults() {
    let mut meta = test_meta();
    meta.key_length = None;
    meta.embedding_length = None;
    meta.block_count = None;
    meta.context_length = None;
    let mut preset = Preset::default_preset();
    preset.n_gpu_layers = GpuLayers::Count(40);
    let est = estimate(&meta, &preset);
    assert_eq!(est.kv_cache_bytes, 2 * 32 * 4096 * 8 * 128 * 2);
    assert!(est.offload == OffloadShare::Full);
    assert_eq!(est.notes[0], "无法读取 head_dim，按 128 估算");
    assert_eq!(est.notes[1], "上下文 4096 层 32 KV头 8 head_dim 128");
}

#[test]
fn estimate_range_detects_overflow() {
    let mut meta = test_meta();
    meta.block_count = Some(u32::MAX);
    meta.context_length = Some(u32::MAX);
    meta.key_length = Some(u32::MAX);
    meta.head_count_kv = Some(u32::MAX);
    let preset = Preset::default_preset();
    assert!(!estimate_in_range(&meta, &preset));
}

#[test]
fn test_build_args_basic() {
    let preset = Preset::default_preset();
    let args = build_args("/path/to/model.gguf", &preset);
    assert!(args.contains(&"-m".to_string()));
    assert!(args.contains(&"/path/to/model.gguf".to_string()));
    assert!(args.contains(&"--host".to_string()));
    assert!(args.contains(&"--port".to_string()));
    assert!(args.contains(&"-ngl".to_string()));
}

#[test]
fn build_args_default_exact() {
    let preset = Preset::default_preset();
    let args = build_args("m.gguf", &preset);
    let expect: Vec<&str> = vec![
        "-m", "m.gguf", "--host", "127.0.0.1", "--port", "8080", "-ngl", "auto", "-fa", "auto", "-b", "2048",
        "-ub", "512", "--cache-type-k", "f16", "--cache-type-v", "f16", "-cb", "-sm", "layer", "--jinja",
    ];
    assert_eq!(args, expect.iter().map(|s| s.to_string()).collect::<Vec<_>>());
}

#[test]
fn build_args_all_options() {
    let mut preset = Preset::default_preset();
    preset.ctx_size = 32768;
    preset.n_gpu_layers = GpuLayers::Count(12);
    preset.threads = 8;
    preset.flash_attn = FlashAttnMode::Off;
    preset.batch_size = 0;
    preset.ubatch_size = 0;
    preset.parallel = 2;
    preset.cache_type_k = CacheType::Q8_0;
    preset.cache_type_v = CacheType::IQ4_NL;
    preset.cont_batching = false;
    preset.alias = Some("chat".into());
    preset.api_key = Some(String::new());
    preset.split_mode = SplitMode::NoSplit;
    preset.main_gpu = Some(1);
    preset.jinja = false;
    preset.chat_template = Some("chatml".into());
    preset.custom_args = vec!["--mlock".into(), "--verbose".into()];
    preset.port = 9000;
    let args = build_args("x.gguf", &preset);
    let expect: Vec<&str> = vec![
        "-m", "x.gguf", "--host", "127.0.0.1", "--port", "9000", "-c", "32768", "-ngl", "12", "-t", "8",
        "--no-flash-attn", "-np", "2", "--cache-type-k", "q8_0", "--cache-type-v", "iq4_nl",
        "--no-cont-batching", "-a", "chat", "-sm", "none", "--main-gpu", "1", "--no-jinja", "--chat-template",
        "chatml", "--mlock", "--verbose",
    ];
    assert_eq!(args, expect.iter().map(|s| s.to_string()).collect::<Vec<_>>());
}

#[test]
fn build_args_all_layers_and_flash_on() {
    let mut preset = Preset::default_preset();
    preset.n_gpu_layers = GpuLayers::All;
    preset.flash_attn = FlashAttnMode::On;
    preset.split_mode = SplitMode::Row;
    let args = build_args("y.gguf", &preset);
    assert_eq!(args[6..9].to_vec(), vec!["-ngl".to_string(), "99".to_string(), "-fa".to_string()]);
    assert!(args.contains(&"row".to_string()));
}

#[test]
fn estimate_sub_byte_cache_types() {
    let meta = test_meta();
    let mut preset = Preset::default_preset();
    preset.cache_type_k = CacheType::Q4_0;
    preset.cache_type_v = CacheType::Q4_0;
    assert!(estimate_in_range(&meta, &preset));
    let est = estimate(&meta, &preset);
    // 2 * 32 * 4096 * 8 * 128 elements at 0.518 bytes each, rounded down once.
    assert_eq!(est.kv_cache_bytes, 139_049_566);
    assert_eq!(est.total_bytes, 4 * 1024 * MB + 139_049_566 + 256 * MB);

    // The larger of the two types counts: Q5_1 (0.688) over Q4_0.
    preset.cache_type_v = CacheType::Q5_1;
    let est = estimate(&meta, &preset);
    assert_eq!(est.kv_cache_bytes, 2 * 32 * 4096 * 8 * 128 * 688 / 1000);

    preset.cache_type_k = CacheType::IQ4_NL;
    preset.cache_type_v = CacheType::IQ4_NL;
    let est = estimate(&meta, &preset);
    assert_eq!(est.kv_cache_bytes, 2 * 32 * 4096 * 8 * 128 / 2);
}

#[test]
fn estimate_large_model_within_u64() {
    let mut meta = test_meta();
    meta.block_count = Some(1 << 20);
    meta.context_length = Some(1 << 20);
    meta.head_count_kv = Some(1024);
    meta.key_length = Some(1024);
    let preset = Preset::default_preset();
    assert!(estimate_in_range(&meta, &preset));
    let est = estimate(&meta, &preset);
    assert_eq!(est.kv_cache_bytes, 1u64 << 62);
    assert_eq!(est.total_bytes, 4 * 1024 * MB + (1u64 << 62) + 256 * MB);

    // A KV cache past u64 is refused rather than computed.
    meta.head_count_kv = Some(1 << 20);
    assert!(!estimate_in_range(&meta, &preset));

    // A zero factor gives an empty cache however large the others are.
    meta.key_length = Some(0);
    meta.block_count = Some(u32::MAX);
    meta.context_length = Some(u32::MAX);
    meta.head_count_kv = Some(u32::MAX);
    assert!(estimate_in_range(&meta, &preset));
    assert_eq!(estimate(&meta, &preset).kv_cache_bytes, 0);
}
