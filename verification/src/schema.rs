//! The persisted configuration: launch presets and application settings,
//! with their defaults.
use vstd::prelude::*;
use std::collections::HashMap;

verus! {

/// Global application configuration.
pub struct AppConfig {
    /// Path of the llama-server executable
    pub server_path: Option<String>,
    /// Last detected server version
    pub server_version: Option<String>,
    /// Folders scanned for models
    pub model_folders: Vec<String>,
    /// Default model path
    pub default_model_path: Option<String>,
    /// Default preset id
    pub default_preset_id: Option<String>,
    /// Launch presets
    pub presets: Vec<Preset>,
    /// Preset id used last
    pub last_used_preset_id: Option<String>,
    /// Model path used last
    pub last_used_model_path: Option<String>,
    /// Theme
    pub theme: ThemeMode,
    /// Window size and position
    pub window: WindowState,
}

/// A set of llama-server launch parameters.
pub struct Preset {
    pub id: String,
    pub name: String,
    /// Context length (-c); 0 keeps the model's own
    pub ctx_size: u32,
    /// GPU offload layers (-ngl)
    pub n_gpu_layers: GpuLayers,
    /// Threads (-t); -1 is automatic
    pub threads: i32,
    /// Listen address (--host)
    pub host: String,
    /// Listen port (--port)
    pub port: u16,
    /// Model alias (-a)
    pub alias: Option<String>,
    /// Flash attention (-fa)
    pub flash_attn: FlashAttnMode,
    /// Batch size (-b)
    pub batch_size: u32,
    /// Micro-batch size (-ub)
    pub ubatch_size: u32,
    /// Parallel requests (-np)
    pub parallel: i32,
    /// K cache type (--cache-type-k)
    pub cache_type_k: CacheType,
    /// V cache type (--cache-type-v)
    pub cache_type_v: CacheType,
    /// Continuous batching (-cb)
    pub cont_batching: bool,
    /// API key (--api-key)
    pub api_key: Option<String>,
    /// GPU split mode (--split-mode)
    pub split_mode: SplitMode,
    /// Main GPU (--main-gpu)
    pub main_gpu: Option<u32>,
    /// Jinja templates (--jinja)
    pub jinja: bool,
    /// Custom chat template (--chat-template)
    pub chat_template: Option<String>,
    /// Raw arguments appended at the end
    pub custom_args: Vec<String>,
    /// Extra environment variables
    pub extra_env: HashMap<String, String>,
}

/// GPU offload layers.
#[derive(PartialEq, Eq, Structural, Clone, Copy)]
pub enum GpuLayers {
    Count(u32),
    Auto,
    All,
}

/// Flash attention mode.
#[derive(PartialEq, Eq, Structural, Clone, Copy)]
pub enum FlashAttnMode {
    On,
    Off,
    Auto,
}

/// KV cache element type.
#[allow(non_camel_case_types)]
#[derive(PartialEq, Eq, Structural, Clone, Copy)]
pub enum CacheType {
    F32,
    F16,
    BF16,
    Q8_0,
    Q4_0,
    Q4_1,
    Q5_0,
    Q5_1,
    IQ4_NL,
}

/// GPU split mode.
#[derive(PartialEq, Eq, Structural, Clone, Copy)]
pub enum SplitMode {
    NoSplit,
    Layer,
    Row,
}

/// Theme.
#[derive(PartialEq, Eq, Structural, Clone, Copy)]
pub enum ThemeMode {
    Light,
    Dark,
    System,
}

/// Remembered window size and position.
#[derive(PartialEq, Eq, Structural, Clone, Copy)]
pub struct WindowState {
    pub width: u32,
    pub height: u32,
    pub x: Option<i32>,
    pub y: Option<i32>,
    pub maximized: bool,
}

/// Bytes per element of a cache type, in thousandths of a byte.
pub open spec fn cache_bytes_milli(c: CacheType) -> nat {
    match c {
        CacheType::F32 => 4000,
        CacheType::F16 => 2000,
        CacheType::BF16 => 2000,
        CacheType::Q8_0 => 1000,
        CacheType::Q4_0 => 518,
        CacheType::Q4_1 => 563,
        CacheType::Q5_0 => 625,
        CacheType::Q5_1 => 688,
        CacheType::IQ4_NL => 500,
    }
}

/// The llama-server spelling of a cache type (its name in lower case).
pub open spec fn cache_arg(c: CacheType) -> Seq<char> {
    match c {
        CacheType::F32 => "f32"@,
        CacheType::F16 => "f16"@,
        CacheType::BF16 => "bf16"@,
        CacheType::Q8_0 => "q8_0"@,
        CacheType::Q4_0 => "q4_0"@,
        CacheType::Q4_1 => "q4_1"@,
        CacheType::Q5_0 => "q5_0"@,
        CacheType::Q5_1 => "q5_1"@,
        CacheType::IQ4_NL => "iq4_nl"@,
    }
}

/// Each cache type as llama-server spells it (its name in lower case) and
/// its size per element in thousandths of a byte: `f32` 4 bytes, `f16` and
/// `bf16` 2, `q8_0` 1, `q4_0` 0.518, `q4_1` 0.563, `q5_0` 0.625, `q5_1`
/// 0.688, `iq4_nl` 0.5.
pub proof fn cache_type_table()
    ensures
        cache_arg(CacheType::F32) == "f32"@ && cache_bytes_milli(CacheType::F32) == 4000,
        cache_arg(CacheType::F16) == "f16"@ && cache_bytes_milli(CacheType::F16) == 2000,
        cache_arg(CacheType::BF16) == "bf16"@ && cache_bytes_milli(CacheType::BF16) == 2000,
        cache_arg(CacheType::Q8_0) == "q8_0"@ && cache_bytes_milli(CacheType::Q8_0) == 1000,
        cache_arg(CacheType::Q4_0) == "q4_0"@ && cache_bytes_milli(CacheType::Q4_0) == 518,
        cache_arg(CacheType::Q4_1) == "q4_1"@ && cache_bytes_milli(CacheType::Q4_1) == 563,
        cache_arg(CacheType::Q5_0) == "q5_0"@ && cache_bytes_milli(CacheType::Q5_0) == 625,
        cache_arg(CacheType::Q5_1) == "q5_1"@ && cache_bytes_milli(CacheType::Q5_1) == 688,
        cache_arg(CacheType::IQ4_NL) == "iq4_nl"@ && cache_bytes_milli(CacheType::IQ4_NL) == 500,
{
}

impl CacheType {
    /// Bytes each cache element takes, in thousandths of a byte (F16 is
    /// 2000, Q4_0 is 518); used for memory estimates.
    pub fn bytes_per_element_milli(&self) -> (m: u32)
        ensures
            m == cache_bytes_milli(*self),
    {
        match self {
            CacheType::F32 => 4000,
            CacheType::F16 => 2000,
            CacheType::BF16 => 2000,
            CacheType::Q8_0 => 1000,
            CacheType::Q4_0 => 518,
            CacheType::Q4_1 => 563,
            CacheType::Q5_0 => 625,
            CacheType::Q5_1 => 688,
            CacheType::IQ4_NL => 500,
        }
    }

    /// The type as llama-server spells it (`f16`, `q8_0`, ...).
    pub fn arg_name(&self) -> (s: String)
        ensures
            s@ == cache_arg(*self),
    {
        match self {
            CacheType::F32 => String::from_str("f32"),
            CacheType::F16 => String::from_str("f16"),
            CacheType::BF16 => String::from_str("bf16"),
            CacheType::Q8_0 => String::from_str("q8_0"),
            CacheType::Q4_0 => String::from_str("q4_0"),
            CacheType::Q4_1 => String::from_str("q4_1"),
            CacheType::Q5_0 => String::from_str("q5_0"),
            CacheType::Q5_1 => String::from_str("q5_1"),
            CacheType::IQ4_NL => String::from_str("iq4_nl"),
        }
    }
}

impl Default for GpuLayers {
    fn default() -> (r: Self)
        ensures
            r == GpuLayers::Auto,
    {
        GpuLayers::Auto
    }
}

impl Default for FlashAttnMode {
    fn default() -> (r: Self)
        ensures
            r == FlashAttnMode::Off,
    {
        FlashAttnMode::Off
    }
}

impl Default for CacheType {
    fn default() -> (r: Self)
        ensures
            r == CacheType::F16,
    {
        CacheType::F16
    }
}

impl Default for SplitMode {
    fn default() -> (r: Self)
        ensures
            r == SplitMode::Layer,
    {
        SplitMode::Layer
    }
}

impl Default for ThemeMode {
    fn default() -> (r: Self)
        ensures
            r == ThemeMode::System,
    {
        ThemeMode::System
    }
}

impl Default for WindowState {
    fn default() -> (r: Self)
        ensures
            r == (WindowState { width: 1000, height: 680, x: None, y: None, maximized: false }),
    {
        WindowState { width: default_win_width(), height: default_win_height(), x: None, y: None, maximized: false }
    }
}

/// Lower-case hexadecimal digit.
pub open spec fn is_lower_hex(c: char) -> bool {
    ('0' <= c && c <= '9') || ('a' <= c && c <= 'f')
}

/// The hyphenated lower-case text of a random (version 4) UUID, such as
/// `67e55044-10b1-426f-9247-bb680e5fe0c8`.
pub open spec fn is_v4_uuid_text(s: Seq<char>) -> bool {
    &&& s.len() == 36
    &&& forall|i: int| 0 <= i < 36 ==> if i == 8 || i == 13 || i == 18 || i == 23 {
        #[trigger] s[i] == '-'
    } else {
        is_lower_hex(s[i])
    }
    &&& s[14] == '4'
    &&& (s[19] == '8' || s[19] == '9' || s[19] == 'a' || s[19] == 'b')
}

/// `uuid::Uuid::new_v4` rendered with `to_string`: a fresh random UUID in
/// hyphenated lower-case form, version nibble 4 and variant bits `10`.
/// Which UUID comes out is left open (it is random).
#[verifier::external_body]
fn new_preset_id() -> (id: String)
    ensures
        is_v4_uuid_text(id@),
{
    uuid::Uuid::new_v4().to_string()
}

/// A preset as `Preset::default_preset` makes it: a random id, the name
/// `默认` and the default launch parameters.
pub open spec fn is_default_preset(p: Preset) -> bool {
    &&& is_v4_uuid_text(p.id@)
    &&& p.name@ == "默认"@
    &&& p.ctx_size == 0
    &&& p.n_gpu_layers == GpuLayers::Auto
    &&& p.threads == -1
    &&& p.host@ == "127.0.0.1"@
    &&& p.port == 8080
    &&& p.alias is None
    &&& p.flash_attn == FlashAttnMode::Auto
    &&& p.batch_size == 2048
    &&& p.ubatch_size == 512
    &&& p.parallel == 1
    &&& p.cache_type_k == CacheType::F16
    &&& p.cache_type_v == CacheType::F16
    &&& p.cont_batching
    &&& p.api_key is None
    &&& p.split_mode == SplitMode::Layer
    &&& p.main_gpu is None
    &&& p.jinja
    &&& p.chat_template is None
    &&& p.custom_args@.len() == 0
    &&& p.extra_env@ == Map::<String, String>::empty()
}

impl Preset {
    /// A fresh preset with a random id and the default parameters.
    pub fn default_preset() -> (p: Preset)
        ensures
            is_default_preset(p),
    {
        Preset {
            id: new_preset_id(),
            name: String::from_str("默认"),
            ctx_size: default_ctx(),
            n_gpu_layers: GpuLayers::Auto,
            threads: default_threads(),
            host: default_host(),
            port: default_port(),
            alias: None,
            flash_attn: FlashAttnMode::Auto,
            batch_size: default_batch(),
            ubatch_size: default_ubatch(),
            parallel: default_parallel(),
            cache_type_k: default_cache_type(),
            cache_type_v: default_cache_type(),
            cont_batching: true,
            api_key: None,
            split_mode: SplitMode::Layer,
            main_gpu: None,
            jinja: true,
            chat_template: None,
            custom_args: Vec::new(),
            extra_env: HashMap::new(),
        }
    }
}

impl Default for AppConfig {
    /// An empty configuration with one default preset.
    fn default() -> (c: Self)
        ensures
            c.server_path is None,
            c.server_version is None,
            c.model_folders@.len() == 0,
            c.default_model_path is None,
            c.default_preset_id is None,
            c.presets@.len() == 1,
            is_default_preset(c.presets@[0]),
            c.last_used_preset_id is None,
            c.last_used_model_path is None,
            c.theme == ThemeMode::System,
            c.window == (WindowState { width: 1000, height: 680, x: None, y: None, maximized: false }),
    {
        let preset = Preset::default_preset();
        let mut presets: Vec<Preset> = Vec::new();
        presets.push(preset);
        AppConfig {
            server_path: None,
            server_version: None,
            model_folders: Vec::new(),
            default_model_path: None,
            default_preset_id: None,
            presets,
            last_used_preset_id: None,
            last_used_model_path: None,
            theme: ThemeMode::System,
            window: WindowState::default(),
        }
    }
}

/// Default context length: 0, the model's own.
pub fn default_ctx() -> (r: u32)
    ensures
        r == 0,
{
    0
}

/// Default thread count: -1, automatic.
pub fn default_threads() -> (r: i32)
    ensures
        r == -1,
{
    -1
}

/// Default listen address.
pub fn default_host() -> (r: String)
    ensures
        r@ == "127.0.0.1"@,
{
    String::from_str("127.0.0.1")
}

/// Default listen port.
pub fn default_port() -> (r: u16)
    ensures
        r == 8080,
{
    8080
}

/// Default batch size.
pub fn default_batch() -> (r: u32)
    ensures
        r == 2048,
{
    2048
}

/// Default micro-batch size.
pub fn default_ubatch() -> (r: u32)
    ensures
        r == 512,
{
    512
}

/// Default number of parallel requests.
pub fn default_parallel() -> (r: i32)
    ensures
        r == 1,
{
    1
}

/// Default cache type.
pub fn default_cache_type() -> (r: CacheType)
    ensures
        r == CacheType::F16,
{
    CacheType::F16
}

/// `true`, the default of the switches that are on unless set.
pub fn default_true() -> (r: bool)
    ensures
        r,
{
    true
}

/// Default window width.
pub fn default_win_width() -> (r: u32)
    ensures
        r == 1000,
{
    1000
}

/// Default window height.
pub fn default_win_height() -> (r: u32)
    ensures
        r == 680,
{
    680
}

} // verus!
