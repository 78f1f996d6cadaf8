use llama_rgui::quant::{file_type_bytes_per_weight_milli, file_type_to_name};
use llama_rgui::schema::{
    default_batch, default_cache_type, default_ctx, default_host, default_parallel, default_port,
    default_threads, default_true, default_ubatch, default_win_height, default_win_width, AppConfig, CacheType,
    FlashAttnMode, GpuLayers, Preset, SplitMode, ThemeMode, WindowState,
};

fn is_uuid_v4(s: &str) -> bool {
    let b: Vec<char> = s.chars().collect();
    b.len() == 36
        && b.iter().enumerate().all(|(i, c)| {
            if i == 8 || i == 13 || i == 18 || i == 23 {
                *c == '-'
            } else {
                c.is_ascii_hexdigit() && !c.is_ascii_uppercase()
            }
        })
        && b[14] == '4'
        && "89ab".contains(b[19])
}

#[test]
fn default_preset_values() {
    let p = Preset::default_preset();
    assert!(is_uuid_v4(&p.id));
    assert_eq!(p.name, "默认");
    assert_eq!(p.ctx_size, 0);
    assert!(p.n_gpu_layers == GpuLayers::Auto);
    assert_eq!(p.threads, -1);
    assert_eq!(p.host, "127.0.0.1");
    assert_eq!(p.port, 8080);
    assert!(p.flash_attn == FlashAttnMode::Auto);
    assert_eq!(p.batch_size, 2048);
    assert_eq!(p.ubatch_size, 512);
    assert_eq!(p.parallel, 1);
    assert!(p.cache_type_k == CacheType::F16 && p.cache_type_v == CacheType::F16);
    assert!(p.cont_batching && p.jinja);
    assert!(p.split_mode == SplitMode::Layer);
    assert!(p.alias.is_none() && p.api_key.is_none() && p.main_gpu.is_none() && p.chat_template.is_none());
    assert!(p.custom_args.is_empty() && p.extra_env.is_empty());
}

#[test]
fn preset_ids_differ() {
    let a = Preset::default_preset();
    let b = Preset::default_preset();
    assert_ne!(a.id, b.id);
}

#[test]
fn default_config_values() {
    let c = AppConfig::default();
    assert!(c.server_path.is_none() && c.server_version.is_none());
    assert!(c.model_folders.is_empty());
    assert_eq!(c.presets.len(), 1);
    assert_eq!(c.presets[0].name, "默认");
    assert!(c.theme == ThemeMode::System);
    assert!(c.window == WindowState { width: 1000, height: 680, x: None, y: None, maximized: false });
}

#[test]
fn enum_defaults() {
    assert!(GpuLayers::default() == GpuLayers::Auto);
    assert!(FlashAttnMode::default() == FlashAttnMode::Off);
    assert!(CacheType::default() == CacheType::F16);
    assert!(SplitMode::default() == SplitMode::Layer);
    assert!(ThemeMode::default() == ThemeMode::System);
}

#[test]
fn default_value_functions() {
    assert_eq!(default_ctx(), 0);
    assert_eq!(default_threads(), -1);
    assert_eq!(default_host(), "127.0.0.1");
    assert_eq!(default_port(), 8080);
    assert_eq!(default_batch(), 2048);
    assert_eq!(default_ubatch(), 512);
    assert_eq!(default_parallel(), 1);
    assert!(default_cache_type() == CacheType::F16);
    assert!(default_true());
    assert_eq!(default_win_width(), 1000);
    assert_eq!(default_win_height(), 680);
}

#[test]
fn cache_type_tables() {
    assert_eq!(CacheType::F32.bytes_per_element_milli(), 4000);
    assert_eq!(CacheType::Q4_0.bytes_per_element_milli(), 518);
    assert_eq!(CacheType::Q5_1.bytes_per_element_milli(), 688);
    assert_eq!(CacheType::BF16.arg_name(), "bf16");
    assert_eq!(CacheType::IQ4_NL.arg_name(), "iq4_nl");
}

#[test]
fn quant_names() {
    assert_eq!(file_type_to_name(0).as_deref(), Some("F32"));
    assert_eq!(file_type_to_name(15).as_deref(), Some("Q4_K_M"));
    assert_eq!(file_type_to_name(31).as_deref(), Some("BF16"));
    assert_eq!(file_type_to_name(37).as_deref(), Some("IQ4_XS"));
    assert_eq!(file_type_to_name(4), None);
    assert_eq!(file_type_to_name(5), None);
    assert_eq!(file_type_to_name(38), None);
}

#[test]
fn bytes_per_weight_table() {
    assert_eq!(file_type_bytes_per_weight_milli(0), 4000);
    assert_eq!(file_type_bytes_per_weight_milli(31), 2000);
    assert_eq!(file_type_bytes_per_weight_milli(15), 563);
    assert_eq!(file_type_bytes_per_weight_milli(20), 188);
    assert_eq!(file_type_bytes_per_weight_milli(36), 125);
    assert_eq!(file_type_bytes_per_weight_milli(4), 500);
    assert_eq!(file_type_bytes_per_weight_milli(1000), 500);
}

#[test]
fn quantization_names_are_distinct() {
    let mut seen: Vec<(u32, String)> = Vec::new();
    for code in 0..64u32 {
        if let Some(n) = file_type_to_name(code) {
            for (c, m) in &seen {
                assert!(m != &n, "codes {} and {} share a name", c, code);
            }
            seen.push((code, n));
        }
    }
    assert_eq!(seen.len(), 36);
}
