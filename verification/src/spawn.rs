//! The llama-server command line of a preset.
use vstd::prelude::*;
use crate::schema::{cache_arg, CacheType, FlashAttnMode, GpuLayers, Preset, SplitMode};
use crate::text::{decimal, decimal_string};

verus! {

pub open spec fn strings_view(v: Seq<String>) -> Seq<Seq<char>> {
    v.map_values(|s: String| s@)
}

/// An option and its value, when `cond` holds.
pub open spec fn opt_pair(cond: bool, flag: Seq<char>, value: Seq<char>) -> Seq<Seq<char>> {
    if cond {
        seq![flag, value]
    } else {
        Seq::empty()
    }
}

/// An option taking a text value: given only when the text is present and not empty.
pub open spec fn text_opt(flag: Seq<char>, value: Option<String>) -> Seq<Seq<char>> {
    match value {
        Some(v) => opt_pair(v@.len() > 0, flag, v@),
        None => Seq::empty(),
    }
}

pub open spec fn gpu_layer_args(n: GpuLayers) -> Seq<Seq<char>> {
    match n {
        GpuLayers::All => seq!["-ngl"@, "99"@],
        GpuLayers::Auto => seq!["-ngl"@, "auto"@],
        GpuLayers::Count(c) => seq!["-ngl"@, decimal(c as nat)],
    }
}

pub open spec fn flash_attn_args(m: FlashAttnMode) -> Seq<Seq<char>> {
    match m {
        FlashAttnMode::On => seq!["-fa"@],
        FlashAttnMode::Off => seq!["--no-flash-attn"@],
        FlashAttnMode::Auto => seq!["-fa"@, "auto"@],
    }
}

pub open spec fn split_mode_args(m: SplitMode) -> Seq<Seq<char>> {
    match m {
        SplitMode::NoSplit => seq!["-sm"@, "none"@],
        SplitMode::Layer => seq!["-sm"@, "layer"@],
        SplitMode::Row => seq!["-sm"@, "row"@],
    }
}

pub open spec fn head_args(model_path: Seq<char>, p: Preset) -> Seq<Seq<char>> {
    seq!["-m"@, model_path, "--host"@, p.host@, "--port"@, decimal(p.port as nat)]
}

pub open spec fn compute_args(p: Preset) -> Seq<Seq<char>> {
    opt_pair(p.ctx_size > 0, "-c"@, decimal(p.ctx_size as nat))
        + gpu_layer_args(p.n_gpu_layers)
        + thread_args(p)
}

pub open spec fn thread_args(p: Preset) -> Seq<Seq<char>> {
    opt_pair(p.threads > 0, "-t"@, decimal(p.threads as nat)) + flash_attn_args(p.flash_attn)
}

pub open spec fn batch_args(p: Preset) -> Seq<Seq<char>> {
    opt_pair(p.batch_size > 0, "-b"@, decimal(p.batch_size as nat))
        + opt_pair(p.ubatch_size > 0, "-ub"@, decimal(p.ubatch_size as nat))
        + opt_pair(p.parallel > 1, "-np"@, decimal(p.parallel as nat))
        + seq!["--cache-type-k"@, cache_arg(p.cache_type_k), "--cache-type-v"@, cache_arg(p.cache_type_v)]
        + (if p.cont_batching { seq!["-cb"@] } else { seq!["--no-cont-batching"@] })
}

pub open spec fn serving_args(p: Preset) -> Seq<Seq<char>> {
    access_args(p) + template_args(p)
}

pub open spec fn access_args(p: Preset) -> Seq<Seq<char>> {
    text_opt("-a"@, p.alias)
        + text_opt("--api-key"@, p.api_key)
        + split_mode_args(p.split_mode)
}

pub open spec fn template_args(p: Preset) -> Seq<Seq<char>> {
    (match p.main_gpu {
            Some(g) => seq!["--main-gpu"@, decimal(g as nat)],
            None => Seq::empty(),
        })
    + (if p.jinja { seq!["--jinja"@] } else { seq!["--no-jinja"@] })
    + text_opt("--chat-template"@, p.chat_template)
}

/// The full argument list for `model_path` under preset `p`, in order:
/// model, host and port, then the server options the preset sets,
/// then the preset's raw arguments.
pub open spec fn server_args(model_path: Seq<char>, p: Preset) -> Seq<Seq<char>> {
    head_args(model_path, p) + compute_args(p) + batch_args(p) + serving_args(p) + strings_view(p.custom_args@)
}

fn push_lit(args: &mut Vec<String>, lit: &str)
    ensures
        strings_view(final(args)@) == strings_view(old(args)@).push(lit@),
{
    args.push(String::from_str(lit));
    assert(strings_view(args@) =~= strings_view(old(args)@).push(lit@));
}

fn push_string(args: &mut Vec<String>, s: String)
    ensures
        strings_view(final(args)@) == strings_view(old(args)@).push(s@),
{
    let ghost v = s@;
    args.push(s);
    assert(strings_view(args@) =~= strings_view(old(args)@).push(v));
}

fn push_text_opt(args: &mut Vec<String>, flag: &str, value: &Option<String>)
    ensures
        strings_view(final(args)@) == strings_view(old(args)@) + text_opt(flag@, *value),
{
    match value {
        Some(v) => {
            if !v.as_str().is_empty() {
                push_lit(args, flag);
                push_string(args, v.clone());
            }
        },
        None => {},
    }
    assert(strings_view(args@) =~= strings_view(old(args)@) + text_opt(flag@, *value));
}

fn push_opt_pair(args: &mut Vec<String>, cond: bool, flag: &str, value: u64)
    ensures
        strings_view(final(args)@) == strings_view(old(args)@) + opt_pair(cond, flag@, decimal(value as nat)),
{
    if cond {
        push_lit(args, flag);
        push_string(args, decimal_string(value));
    }
    assert(strings_view(args@) =~= strings_view(old(args)@) + opt_pair(cond, flag@, decimal(value as nat)));
}

fn push_head(args: &mut Vec<String>, model_path: &str, preset: &Preset)
    ensures
        strings_view(final(args)@) == strings_view(old(args)@) + head_args(model_path@, *preset),
{
    push_lit(args, "-m");
    push_lit(args, model_path);
    push_lit(args, "--host");
    push_string(args, preset.host.clone());
    push_lit(args, "--port");
    push_string(args, decimal_string(preset.port as u64));
    assert(strings_view(args@) =~= strings_view(old(args)@) + head_args(model_path@, *preset));
}

fn push_threads(args: &mut Vec<String>, preset: &Preset)
    ensures
        strings_view(final(args)@) == strings_view(old(args)@) + thread_args(*preset),
{
    let ghost s0 = strings_view(args@);
    let t: u64 = if preset.threads > 0 { preset.threads as u64 } else { 0 };
    push_opt_pair(args, preset.threads > 0, "-t", t);
    let ghost s1 = strings_view(args@);
    assert(s1 == s0 + opt_pair(preset.threads > 0, "-t"@, decimal(preset.threads as nat)));
    match preset.flash_attn {
        FlashAttnMode::On => {
            push_lit(args, "-fa");
        },
        FlashAttnMode::Off => {
            push_lit(args, "--no-flash-attn");
        },
        FlashAttnMode::Auto => {
            push_lit(args, "-fa");
            push_lit(args, "auto");
        },
    }
    assert(strings_view(args@) =~= s1 + flash_attn_args(preset.flash_attn));
    assert(strings_view(args@) =~= s0 + thread_args(*preset));
}

fn push_compute(args: &mut Vec<String>, preset: &Preset)
    ensures
        strings_view(final(args)@) == strings_view(old(args)@) + compute_args(*preset),
{
    let ghost s0 = strings_view(args@);
    push_opt_pair(args, preset.ctx_size > 0, "-c", preset.ctx_size as u64);
    let ghost s1 = strings_view(args@);
    match preset.n_gpu_layers {
        GpuLayers::All => {
            push_lit(args, "-ngl");
            push_lit(args, "99");
        },
        GpuLayers::Auto => {
            push_lit(args, "-ngl");
            push_lit(args, "auto");
        },
        GpuLayers::Count(n) => {
            push_lit(args, "-ngl");
            push_string(args, decimal_string(n as u64));
        },
    }
    assert(strings_view(args@) =~= s1 + gpu_layer_args(preset.n_gpu_layers));
    let ghost s2 = strings_view(args@);
    push_threads(args, preset);
    assert(strings_view(args@) =~= s0 + compute_args(*preset));
}

fn push_batch(args: &mut Vec<String>, preset: &Preset)
    ensures
        strings_view(final(args)@) == strings_view(old(args)@) + batch_args(*preset),
{
    let ghost s0 = strings_view(args@);
    push_opt_pair(args, preset.batch_size > 0, "-b", preset.batch_size as u64);
    push_opt_pair(args, preset.ubatch_size > 0, "-ub", preset.ubatch_size as u64);
    let np: u64 = if preset.parallel > 1 { preset.parallel as u64 } else { 0 };
    push_opt_pair(args, preset.parallel > 1, "-np", np);
    let ghost s1 = strings_view(args@);
    push_lit(args, "--cache-type-k");
    push_string(args, preset.cache_type_k.arg_name());
    push_lit(args, "--cache-type-v");
    push_string(args, preset.cache_type_v.arg_name());
    assert(strings_view(args@) =~= s1 + seq!["--cache-type-k"@, cache_arg(preset.cache_type_k), "--cache-type-v"@, cache_arg(preset.cache_type_v)]);
    let ghost s2 = strings_view(args@);
    if preset.cont_batching {
        push_lit(args, "-cb");
    } else {
        push_lit(args, "--no-cont-batching");
    }
    assert(strings_view(args@) =~= s2 + (if preset.cont_batching { seq!["-cb"@] } else { seq!["--no-cont-batching"@] }));
    assert(strings_view(args@) =~= s0 + batch_args(*preset));
}

fn push_access(args: &mut Vec<String>, preset: &Preset)
    ensures
        strings_view(final(args)@) == strings_view(old(args)@) + access_args(*preset),
{
    let ghost s0 = strings_view(args@);
    push_text_opt(args, "-a", &preset.alias);
    push_text_opt(args, "--api-key", &preset.api_key);
    let ghost s1 = strings_view(args@);
    assert(s1 == s0 + text_opt("-a"@, preset.alias) + text_opt("--api-key"@, preset.api_key));
    match preset.split_mode {
        SplitMode::NoSplit => {
            push_lit(args, "-sm");
            push_lit(args, "none");
        },
        SplitMode::Layer => {
            push_lit(args, "-sm");
            push_lit(args, "layer");
        },
        SplitMode::Row => {
            push_lit(args, "-sm");
            push_lit(args, "row");
        },
    }
    assert(strings_view(args@) =~= s1 + split_mode_args(preset.split_mode));
    assert(strings_view(args@) =~= s0 + access_args(*preset));
}

fn push_template(args: &mut Vec<String>, preset: &Preset)
    ensures
        strings_view(final(args)@) == strings_view(old(args)@) + template_args(*preset),
{
    let ghost s0 = strings_view(args@);
    match preset.main_gpu {
        Some(mg) => {
            push_lit(args, "--main-gpu");
            push_string(args, decimal_string(mg as u64));
        },
        None => {},
    }
    let ghost gpu = match preset.main_gpu {
        Some(g) => seq!["--main-gpu"@, decimal(g as nat)],
        None => Seq::<Seq<char>>::empty(),
    };
    assert(strings_view(args@) =~= s0 + gpu);
    let ghost s2 = strings_view(args@);
    if preset.jinja {
        push_lit(args, "--jinja");
    } else {
        push_lit(args, "--no-jinja");
    }
    let ghost jinja = if preset.jinja { seq!["--jinja"@] } else { seq!["--no-jinja"@] };
    assert(strings_view(args@) =~= s2 + jinja);
    let ghost s3 = strings_view(args@);
    push_text_opt(args, "--chat-template", &preset.chat_template);
    assert(strings_view(args@) == s3 + text_opt("--chat-template"@, preset.chat_template));
    assert(template_args(*preset) == gpu + jinja + text_opt("--chat-template"@, preset.chat_template));
    assert(strings_view(args@) =~= s0 + template_args(*preset));
}

/// The llama-server command line for `model_path` under `preset`.
pub fn build_args(model_path: &str, preset: &Preset) -> (args: Vec<String>)
    ensures
        strings_view(args@) == server_args(model_path@, *preset),
{
    let mut args: Vec<String> = Vec::new();
    assert(strings_view(args@) =~= Seq::<Seq<char>>::empty());
    push_head(&mut args, model_path, preset);
    push_compute(&mut args, preset);
    push_batch(&mut args, preset);
    push_access(&mut args, preset);
    push_template(&mut args, preset);
    let ghost expect = head_args(model_path@, *preset) + compute_args(*preset) + batch_args(*preset) + serving_args(*preset);
    assert(serving_args(*preset) == access_args(*preset) + template_args(*preset));
    assert(strings_view(args@) =~= expect);
    let n = preset.custom_args.len();
    let mut i: usize = 0;
    while i < n
        invariant
            n == preset.custom_args@.len(),
            i <= n,
            strings_view(args@) == expect + strings_view(preset.custom_args@.take(i as int)),
        decreases n - i,
    {
        push_string(&mut args, preset.custom_args[i].clone());
        assert(strings_view(preset.custom_args@.take(i + 1)) =~= strings_view(preset.custom_args@.take(i as int)).push(preset.custom_args@[i as int]@));
        assert(strings_view(args@) =~= expect + strings_view(preset.custom_args@.take(i + 1)));
        i = i + 1;
    }
    assert(preset.custom_args@.take(n as int) =~= preset.custom_args@);
    assert(strings_view(args@) =~= server_args(model_path@, *preset));
    args
}

/// `flag` stands in `args` immediately followed by `value`.
pub open spec fn has_pair(args: Seq<Seq<char>>, flag: Seq<char>, value: Seq<char>) -> bool {
    exists|i: int| 0 <= i && i + 1 < args.len() && #[trigger] args[i] == flag && args[i + 1] == value
}

/// `flag` stands in `args`.
pub open spec fn has_flag(args: Seq<Seq<char>>, flag: Seq<char>) -> bool {
    exists|i: int| 0 <= i < args.len() && #[trigger] args[i] == flag
}

proof fn lemma_pair_base(flag: Seq<char>, value: Seq<char>)
    ensures
        has_pair(seq![flag, value], flag, value),
{
    let s = seq![flag, value];
    assert(s[0] == flag && s[1] == value);
}

proof fn lemma_flag_base(flag: Seq<char>)
    ensures
        has_flag(seq![flag], flag),
{
    assert(seq![flag][0] == flag);
}

proof fn lemma_pair_left(x: Seq<Seq<char>>, s: Seq<Seq<char>>, flag: Seq<char>, value: Seq<char>)
    requires
        has_pair(s, flag, value),
    ensures
        has_pair(x + s, flag, value),
{
    let i = choose|i: int| 0 <= i && i + 1 < s.len() && #[trigger] s[i] == flag && s[i + 1] == value;
    assert((x + s)[x.len() + i] == s[i]);
    assert((x + s)[x.len() + i + 1] == s[i + 1]);
}

proof fn lemma_pair_right(s: Seq<Seq<char>>, y: Seq<Seq<char>>, flag: Seq<char>, value: Seq<char>)
    requires
        has_pair(s, flag, value),
    ensures
        has_pair(s + y, flag, value),
{
    let i = choose|i: int| 0 <= i && i + 1 < s.len() && #[trigger] s[i] == flag && s[i + 1] == value;
    assert((s + y)[i] == s[i]);
    assert((s + y)[i + 1] == s[i + 1]);
}

proof fn lemma_flag_left(x: Seq<Seq<char>>, s: Seq<Seq<char>>, flag: Seq<char>)
    requires
        has_flag(s, flag),
    ensures
        has_flag(x + s, flag),
{
    let i = choose|i: int| 0 <= i < s.len() && #[trigger] s[i] == flag;
    assert((x + s)[x.len() + i] == s[i]);
}

proof fn lemma_flag_right(s: Seq<Seq<char>>, y: Seq<Seq<char>>, flag: Seq<char>)
    requires
        has_flag(s, flag),
    ensures
        has_flag(s + y, flag),
{
    let i = choose|i: int| 0 <= i < s.len() && #[trigger] s[i] == flag;
    assert((s + y)[i] == s[i]);
}

/// Lifts a pair found in one part of the command line (0: head, 1: compute
/// options, 2: batch options, 3: serving options) to the whole of it.
proof fn lemma_pair_in_args(mp: Seq<char>, p: Preset, part: int, flag: Seq<char>, value: Seq<char>)
    requires
        part == 0 ==> has_pair(head_args(mp, p), flag, value),
        part == 1 ==> has_pair(compute_args(p), flag, value),
        part == 2 ==> has_pair(batch_args(p), flag, value),
        part == 3 ==> has_pair(serving_args(p), flag, value),
        0 <= part <= 3,
    ensures
        has_pair(server_args(mp, p), flag, value),
{
    let h = head_args(mp, p);
    let c = compute_args(p);
    let b = batch_args(p);
    let v = serving_args(p);
    if part == 0 {
        lemma_pair_right(h, c, flag, value);
        lemma_pair_right(h + c, b, flag, value);
        lemma_pair_right(h + c + b, v, flag, value);
    } else if part == 1 {
        lemma_pair_left(h, c, flag, value);
        lemma_pair_right(h + c, b, flag, value);
        lemma_pair_right(h + c + b, v, flag, value);
    } else if part == 2 {
        lemma_pair_left(h + c, b, flag, value);
        lemma_pair_right(h + c + b, v, flag, value);
    } else {
        lemma_pair_left(h + c + b, v, flag, value);
    }
    lemma_pair_right(h + c + b + v, strings_view(p.custom_args@), flag, value);
}

proof fn lemma_flag_in_args(mp: Seq<char>, p: Preset, part: int, flag: Seq<char>)
    requires
        part == 1 ==> has_flag(compute_args(p), flag),
        part == 2 ==> has_flag(batch_args(p), flag),
        part == 3 ==> has_flag(serving_args(p), flag),
        1 <= part <= 3,
    ensures
        has_flag(server_args(mp, p), flag),
{
    let h = head_args(mp, p);
    let c = compute_args(p);
    let b = batch_args(p);
    let v = serving_args(p);
    if part == 1 {
        lemma_flag_left(h, c, flag);
        lemma_flag_right(h + c, b, flag);
        lemma_flag_right(h + c + b, v, flag);
    } else if part == 2 {
        lemma_flag_left(h + c, b, flag);
        lemma_flag_right(h + c + b, v, flag);
    } else {
        lemma_flag_left(h + c + b, v, flag);
    }
    lemma_flag_right(h + c + b + v, strings_view(p.custom_args@), flag);
}

proof fn lemma_head_carried(mp: Seq<char>, p: Preset)
    ensures
        has_pair(server_args(mp, p), "-m"@, mp),
        has_pair(server_args(mp, p), "--host"@, p.host@),
        has_pair(server_args(mp, p), "--port"@, decimal(p.port as nat)),
{
    let h = head_args(mp, p);
    // head: -m path --host host --port port
    assert(h[0] == "-m"@ && h[1] == mp && h[2] == "--host"@ && h[3] == p.host@);
    assert(h[4] == "--port"@ && h[5] == decimal(p.port as nat));
    lemma_pair_in_args(mp, p, 0, "-m"@, mp);
    assert(h[2] == "--host"@);
    lemma_pair_in_args(mp, p, 0, "--host"@, p.host@);
    lemma_pair_in_args(mp, p, 0, "--port"@, decimal(p.port as nat));
}

proof fn lemma_compute_carried(mp: Seq<char>, p: Preset)
    ensures
        p.ctx_size > 0 ==> has_pair(server_args(mp, p), "-c"@, decimal(p.ctx_size as nat)),
        p.n_gpu_layers matches GpuLayers::Count(n) ==> has_pair(server_args(mp, p), "-ngl"@, decimal(n as nat)),
        p.n_gpu_layers == GpuLayers::All ==> has_pair(server_args(mp, p), "-ngl"@, "99"@),
        p.n_gpu_layers == GpuLayers::Auto ==> has_pair(server_args(mp, p), "-ngl"@, "auto"@),
        p.threads > 0 ==> has_pair(server_args(mp, p), "-t"@, decimal(p.threads as nat)),
        p.flash_attn == FlashAttnMode::On ==> has_flag(server_args(mp, p), "-fa"@),
        p.flash_attn == FlashAttnMode::Off ==> has_flag(server_args(mp, p), "--no-flash-attn"@),
        p.flash_attn == FlashAttnMode::Auto ==> has_pair(server_args(mp, p), "-fa"@, "auto"@),
{
    // compute: -c, -ngl, -t, flash attention
    let c1 = opt_pair(p.ctx_size > 0, "-c"@, decimal(p.ctx_size as nat));
    let g = gpu_layer_args(p.n_gpu_layers);
    let t1 = opt_pair(p.threads > 0, "-t"@, decimal(p.threads as nat));
    let fa = flash_attn_args(p.flash_attn);
    if p.ctx_size > 0 {
        lemma_pair_base("-c"@, decimal(p.ctx_size as nat));
        lemma_pair_right(c1, g, "-c"@, decimal(p.ctx_size as nat));
        lemma_pair_right(c1 + g, thread_args(p), "-c"@, decimal(p.ctx_size as nat));
        lemma_pair_in_args(mp, p, 1, "-c"@, decimal(p.ctx_size as nat));
    }
    let ngl_value: Seq<char> = match p.n_gpu_layers {
        GpuLayers::All => "99"@,
        GpuLayers::Auto => "auto"@,
        GpuLayers::Count(n) => decimal(n as nat),
    };
    assert(g == seq!["-ngl"@, ngl_value]);
    lemma_pair_base("-ngl"@, ngl_value);
    lemma_pair_left(c1, g, "-ngl"@, ngl_value);
    lemma_pair_right(c1 + g, thread_args(p), "-ngl"@, ngl_value);
    lemma_pair_in_args(mp, p, 1, "-ngl"@, ngl_value);
    if p.threads > 0 {
        lemma_pair_base("-t"@, decimal(p.threads as nat));
        lemma_pair_right(t1, fa, "-t"@, decimal(p.threads as nat));
        lemma_pair_left(c1 + g, thread_args(p), "-t"@, decimal(p.threads as nat));
        lemma_pair_in_args(mp, p, 1, "-t"@, decimal(p.threads as nat));
    }
    match p.flash_attn {
        FlashAttnMode::On => {
            lemma_flag_base("-fa"@);
            lemma_flag_left(t1, fa, "-fa"@);
            lemma_flag_left(c1 + g, thread_args(p), "-fa"@);
            lemma_flag_in_args(mp, p, 1, "-fa"@);
        },
        FlashAttnMode::Off => {
            lemma_flag_base("--no-flash-attn"@);
            lemma_flag_left(t1, fa, "--no-flash-attn"@);
            lemma_flag_left(c1 + g, thread_args(p), "--no-flash-attn"@);
            lemma_flag_in_args(mp, p, 1, "--no-flash-attn"@);
        },
        FlashAttnMode::Auto => {
            lemma_pair_base("-fa"@, "auto"@);
            lemma_pair_left(t1, fa, "-fa"@, "auto"@);
            lemma_pair_left(c1 + g, thread_args(p), "-fa"@, "auto"@);
            lemma_pair_in_args(mp, p, 1, "-fa"@, "auto"@);
        },
    }
}

proof fn lemma_batch_carried(mp: Seq<char>, p: Preset)
    ensures
        p.batch_size > 0 ==> has_pair(server_args(mp, p), "-b"@, decimal(p.batch_size as nat)),
        p.ubatch_size > 0 ==> has_pair(server_args(mp, p), "-ub"@, decimal(p.ubatch_size as nat)),
        p.parallel > 1 ==> has_pair(server_args(mp, p), "-np"@, decimal(p.parallel as nat)),
        has_pair(server_args(mp, p), "--cache-type-k"@, cache_arg(p.cache_type_k)),
        has_pair(server_args(mp, p), "--cache-type-v"@, cache_arg(p.cache_type_v)),
        p.cont_batching ==> has_flag(server_args(mp, p), "-cb"@),
        !p.cont_batching ==> has_flag(server_args(mp, p), "--no-cont-batching"@),
{
    // batch: -b, -ub, -np, cache types, continuous batching
    let b1 = opt_pair(p.batch_size > 0, "-b"@, decimal(p.batch_size as nat));
    let b2 = opt_pair(p.ubatch_size > 0, "-ub"@, decimal(p.ubatch_size as nat));
    let b3 = opt_pair(p.parallel > 1, "-np"@, decimal(p.parallel as nat));
    let kv = seq!["--cache-type-k"@, cache_arg(p.cache_type_k), "--cache-type-v"@, cache_arg(p.cache_type_v)];
    let cb: Seq<Seq<char>> = if p.cont_batching { seq!["-cb"@] } else { seq!["--no-cont-batching"@] };
    assert(batch_args(p) == b1 + b2 + b3 + kv + cb);
    if p.batch_size > 0 {
        lemma_pair_base("-b"@, decimal(p.batch_size as nat));
        lemma_pair_right(b1, b2, "-b"@, decimal(p.batch_size as nat));
        lemma_pair_right(b1 + b2, b3, "-b"@, decimal(p.batch_size as nat));
        lemma_pair_right(b1 + b2 + b3, kv, "-b"@, decimal(p.batch_size as nat));
        lemma_pair_right(b1 + b2 + b3 + kv, cb, "-b"@, decimal(p.batch_size as nat));
        lemma_pair_in_args(mp, p, 2, "-b"@, decimal(p.batch_size as nat));
    }
    if p.ubatch_size > 0 {
        lemma_pair_base("-ub"@, decimal(p.ubatch_size as nat));
        lemma_pair_left(b1, b2, "-ub"@, decimal(p.ubatch_size as nat));
        lemma_pair_right(b1 + b2, b3, "-ub"@, decimal(p.ubatch_size as nat));
        lemma_pair_right(b1 + b2 + b3, kv, "-ub"@, decimal(p.ubatch_size as nat));
        lemma_pair_right(b1 + b2 + b3 + kv, cb, "-ub"@, decimal(p.ubatch_size as nat));
        lemma_pair_in_args(mp, p, 2, "-ub"@, decimal(p.ubatch_size as nat));
    }
    if p.parallel > 1 {
        lemma_pair_base("-np"@, decimal(p.parallel as nat));
        lemma_pair_left(b1 + b2, b3, "-np"@, decimal(p.parallel as nat));
        lemma_pair_right(b1 + b2 + b3, kv, "-np"@, decimal(p.parallel as nat));
        lemma_pair_right(b1 + b2 + b3 + kv, cb, "-np"@, decimal(p.parallel as nat));
        lemma_pair_in_args(mp, p, 2, "-np"@, decimal(p.parallel as nat));
    }
    assert(kv[0] == "--cache-type-k"@ && kv[1] == cache_arg(p.cache_type_k));
    assert(kv[2] == "--cache-type-v"@ && kv[3] == cache_arg(p.cache_type_v));
    assert(has_pair(kv, "--cache-type-k"@, cache_arg(p.cache_type_k)));
    assert(has_pair(kv, "--cache-type-v"@, cache_arg(p.cache_type_v)));
    lemma_pair_left(b1 + b2 + b3, kv, "--cache-type-k"@, cache_arg(p.cache_type_k));
    lemma_pair_right(b1 + b2 + b3 + kv, cb, "--cache-type-k"@, cache_arg(p.cache_type_k));
    lemma_pair_in_args(mp, p, 2, "--cache-type-k"@, cache_arg(p.cache_type_k));
    lemma_pair_left(b1 + b2 + b3, kv, "--cache-type-v"@, cache_arg(p.cache_type_v));
    lemma_pair_right(b1 + b2 + b3 + kv, cb, "--cache-type-v"@, cache_arg(p.cache_type_v));
    lemma_pair_in_args(mp, p, 2, "--cache-type-v"@, cache_arg(p.cache_type_v));
    let cb_flag: Seq<char> = if p.cont_batching { "-cb"@ } else { "--no-cont-batching"@ };
    assert(cb == seq![cb_flag]);
    lemma_flag_base(cb_flag);
    lemma_flag_left(b1 + b2 + b3 + kv, cb, cb_flag);
    lemma_flag_in_args(mp, p, 2, cb_flag);
}

proof fn lemma_serving_carried(mp: Seq<char>, p: Preset)
    ensures
        p.alias matches Some(a) ==> a@.len() > 0 ==> has_pair(server_args(mp, p), "-a"@, a@),
        p.api_key matches Some(k) ==> k@.len() > 0 ==> has_pair(server_args(mp, p), "--api-key"@, k@),
        p.split_mode == SplitMode::NoSplit ==> has_pair(server_args(mp, p), "-sm"@, "none"@),
        p.split_mode == SplitMode::Layer ==> has_pair(server_args(mp, p), "-sm"@, "layer"@),
        p.split_mode == SplitMode::Row ==> has_pair(server_args(mp, p), "-sm"@, "row"@),
        p.main_gpu matches Some(g) ==> has_pair(server_args(mp, p), "--main-gpu"@, decimal(g as nat)),
        p.jinja ==> has_flag(server_args(mp, p), "--jinja"@),
        !p.jinja ==> has_flag(server_args(mp, p), "--no-jinja"@),
        p.chat_template matches Some(t) ==> t@.len() > 0 ==> has_pair(server_args(mp, p), "--chat-template"@, t@),
{
    // serving: alias, API key, split mode, main GPU, jinja, chat template
    let a1 = text_opt("-a"@, p.alias);
    let a2 = text_opt("--api-key"@, p.api_key);
    let sm = split_mode_args(p.split_mode);
    let mg: Seq<Seq<char>> = match p.main_gpu {
        Some(gpu) => seq!["--main-gpu"@, decimal(gpu as nat)],
        None => Seq::empty(),
    };
    let jj: Seq<Seq<char>> = if p.jinja { seq!["--jinja"@] } else { seq!["--no-jinja"@] };
    let tp = text_opt("--chat-template"@, p.chat_template);
    assert(serving_args(p) == a1 + a2 + sm + (mg + jj + tp));
    if let Some(a) = p.alias {
        if a@.len() > 0 {
            lemma_pair_base("-a"@, a@);
            lemma_pair_right(a1, a2, "-a"@, a@);
            lemma_pair_right(a1 + a2, sm, "-a"@, a@);
            lemma_pair_right(a1 + a2 + sm, mg + jj + tp, "-a"@, a@);
            lemma_pair_in_args(mp, p, 3, "-a"@, a@);
        }
    }
    if let Some(k) = p.api_key {
        if k@.len() > 0 {
            lemma_pair_base("--api-key"@, k@);
            lemma_pair_left(a1, a2, "--api-key"@, k@);
            lemma_pair_right(a1 + a2, sm, "--api-key"@, k@);
            lemma_pair_right(a1 + a2 + sm, mg + jj + tp, "--api-key"@, k@);
            lemma_pair_in_args(mp, p, 3, "--api-key"@, k@);
        }
    }
    let sm_value: Seq<char> = match p.split_mode {
        SplitMode::NoSplit => "none"@,
        SplitMode::Layer => "layer"@,
        SplitMode::Row => "row"@,
    };
    assert(sm == seq!["-sm"@, sm_value]);
    lemma_pair_base("-sm"@, sm_value);
    lemma_pair_left(a1 + a2, sm, "-sm"@, sm_value);
    lemma_pair_right(a1 + a2 + sm, mg + jj + tp, "-sm"@, sm_value);
    lemma_pair_in_args(mp, p, 3, "-sm"@, sm_value);
    if let Some(gpu) = p.main_gpu {
        lemma_pair_base("--main-gpu"@, decimal(gpu as nat));
        lemma_pair_right(mg, jj, "--main-gpu"@, decimal(gpu as nat));
        lemma_pair_right(mg + jj, tp, "--main-gpu"@, decimal(gpu as nat));
        lemma_pair_left(a1 + a2 + sm, mg + jj + tp, "--main-gpu"@, decimal(gpu as nat));
        lemma_pair_in_args(mp, p, 3, "--main-gpu"@, decimal(gpu as nat));
    }
    let jj_flag: Seq<char> = if p.jinja { "--jinja"@ } else { "--no-jinja"@ };
    assert(jj == seq![jj_flag]);
    lemma_flag_base(jj_flag);
    lemma_flag_left(mg, jj, jj_flag);
    lemma_flag_right(mg + jj, tp, jj_flag);
    lemma_flag_left(a1 + a2 + sm, mg + jj + tp, jj_flag);
    lemma_flag_in_args(mp, p, 3, jj_flag);
    if let Some(t) = p.chat_template {
        if t@.len() > 0 {
            lemma_pair_base("--chat-template"@, t@);
            lemma_pair_left(mg + jj, tp, "--chat-template"@, t@);
            lemma_pair_left(a1 + a2 + sm, mg + jj + tp, "--chat-template"@, t@);
            lemma_pair_in_args(mp, p, 3, "--chat-template"@, t@);
        }
    }
}

proof fn lemma_custom_carried(mp: Seq<char>, p: Preset)
    ensures
        server_args(mp, p).len() >= p.custom_args@.len(),
        server_args(mp, p).skip(server_args(mp, p).len() - p.custom_args@.len()) == strings_view(p.custom_args@),
{
    // the raw arguments close the line
    let front = head_args(mp, p) + compute_args(p) + batch_args(p) + serving_args(p);
    let u = strings_view(p.custom_args@);
    assert(server_args(mp, p) == front + u);
    assert((front + u).skip(front.len() as int) =~= u);
}

/// The command line carries every setting of the preset: the model path,
/// host and port; each option the preset sets, as its flag followed by its
/// value (a context length, thread count, batch sizes and parallel requests
/// when set, the GPU layers, both cache types, an alias, API key or chat
/// template when present and not empty, a main GPU when given); the on/off
/// switches as their flags; and the raw arguments, in order, at the end.
pub proof fn server_args_carry_preset(mp: Seq<char>, p: Preset)
    ensures
        has_pair(server_args(mp, p), "-m"@, mp),
        has_pair(server_args(mp, p), "--host"@, p.host@),
        has_pair(server_args(mp, p), "--port"@, decimal(p.port as nat)),
        p.ctx_size > 0 ==> has_pair(server_args(mp, p), "-c"@, decimal(p.ctx_size as nat)),
        p.n_gpu_layers matches GpuLayers::Count(n) ==> has_pair(server_args(mp, p), "-ngl"@, decimal(n as nat)),
        p.n_gpu_layers == GpuLayers::All ==> has_pair(server_args(mp, p), "-ngl"@, "99"@),
        p.n_gpu_layers == GpuLayers::Auto ==> has_pair(server_args(mp, p), "-ngl"@, "auto"@),
        p.threads > 0 ==> has_pair(server_args(mp, p), "-t"@, decimal(p.threads as nat)),
        p.flash_attn == FlashAttnMode::On ==> has_flag(server_args(mp, p), "-fa"@),
        p.flash_attn == FlashAttnMode::Off ==> has_flag(server_args(mp, p), "--no-flash-attn"@),
        p.flash_attn == FlashAttnMode::Auto ==> has_pair(server_args(mp, p), "-fa"@, "auto"@),
        p.batch_size > 0 ==> has_pair(server_args(mp, p), "-b"@, decimal(p.batch_size as nat)),
        p.ubatch_size > 0 ==> has_pair(server_args(mp, p), "-ub"@, decimal(p.ubatch_size as nat)),
        p.parallel > 1 ==> has_pair(server_args(mp, p), "-np"@, decimal(p.parallel as nat)),
        has_pair(server_args(mp, p), "--cache-type-k"@, cache_arg(p.cache_type_k)),
        has_pair(server_args(mp, p), "--cache-type-v"@, cache_arg(p.cache_type_v)),
        p.cont_batching ==> has_flag(server_args(mp, p), "-cb"@),
        !p.cont_batching ==> has_flag(server_args(mp, p), "--no-cont-batching"@),
        p.alias matches Some(a) ==> a@.len() > 0 ==> has_pair(server_args(mp, p), "-a"@, a@),
        p.api_key matches Some(k) ==> k@.len() > 0 ==> has_pair(server_args(mp, p), "--api-key"@, k@),
        p.split_mode == SplitMode::NoSplit ==> has_pair(server_args(mp, p), "-sm"@, "none"@),
        p.split_mode == SplitMode::Layer ==> has_pair(server_args(mp, p), "-sm"@, "layer"@),
        p.split_mode == SplitMode::Row ==> has_pair(server_args(mp, p), "-sm"@, "row"@),
        p.main_gpu matches Some(g) ==> has_pair(server_args(mp, p), "--main-gpu"@, decimal(g as nat)),
        p.jinja ==> has_flag(server_args(mp, p), "--jinja"@),
        !p.jinja ==> has_flag(server_args(mp, p), "--no-jinja"@),
        p.chat_template matches Some(t) ==> t@.len() > 0 ==> has_pair(server_args(mp, p), "--chat-template"@, t@),
        server_args(mp, p).len() >= p.custom_args@.len(),
        server_args(mp, p).skip(server_args(mp, p).len() - p.custom_args@.len()) == strings_view(p.custom_args@),
{
    lemma_head_carried(mp, p);
    lemma_compute_carried(mp, p);
    lemma_batch_carried(mp, p);
    lemma_serving_carried(mp, p);
    lemma_custom_carried(mp, p);
}

} // verus!
