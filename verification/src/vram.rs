//! Memory estimate of a model under a launch preset.
use vstd::prelude::*;
use crate::meta::{ModelMeta, OffloadShare, VramEstimate};
use crate::schema::{cache_bytes_milli, GpuLayers, Preset};
use crate::spawn::strings_view;
use crate::text::{append_decimal, decimal};

verus! {

/// One mebibyte.
pub const MB: u64 = 1024 * 1024;

/// Layers: `block_count`, else 32.
pub open spec fn layers_of(m: ModelMeta) -> nat {
    match m.block_count {
        Some(b) => b as nat,
        None => 32,
    }
}

/// Context length: the preset's when set, else the model's, else 4096.
pub open spec fn ctx_of(m: ModelMeta, p: Preset) -> nat {
    if p.ctx_size > 0 {
        p.ctx_size as nat
    } else {
        match m.context_length {
            Some(c) => c as nat,
            None => 4096,
        }
    }
}

/// The head dimension is neither given nor derivable.
pub open spec fn head_dim_unknown(m: ModelMeta) -> bool {
    m.key_length is None && !(m.embedding_length is Some && m.head_count is Some)
}

/// Head dimension: `key_length`, else embedding length over head count
/// (128 when the head count is 0), else 128.
pub open spec fn head_dim_of(m: ModelMeta) -> nat {
    match m.key_length {
        Some(k) => k as nat,
        None => match (m.embedding_length, m.head_count) {
            (Some(e), Some(h)) => if h > 0 { (e / h) as nat } else { 128 },
            _ => 128,
        },
    }
}

/// KV heads: `head_count_kv`, else `head_count`, else 32.
pub open spec fn kv_heads_of(m: ModelMeta) -> nat {
    match m.head_count_kv {
        Some(k) => k as nat,
        None => match m.head_count {
            Some(h) => h as nat,
            None => 32,
        },
    }
}

/// Bytes per cache element, in thousandths of a byte: the larger of the K
/// and V cache types (Q4_0 is 518, F16 is 2000).
pub open spec fn dtype_milli_of(p: Preset) -> nat {
    let k = cache_bytes_milli(p.cache_type_k);
    let v = cache_bytes_milli(p.cache_type_v);
    if k >= v { k } else { v }
}

/// Parallel requests, at least 1.
pub open spec fn parallel_of(p: Preset) -> nat {
    if p.parallel > 1 {
        p.parallel as nat
    } else {
        1
    }
}

/// The KV cache in thousandths of a byte: 2 x layers x context x KV heads x
/// head dim x element size (thousandths of a byte) x parallel requests.
pub open spec fn kv_milli_of(m: ModelMeta, p: Preset) -> nat {
    2 * layers_of(m) * ctx_of(m, p) * kv_heads_of(m) * head_dim_of(m) * dtype_milli_of(p) * parallel_of(p)
}

/// KV cache bytes: 2 x layers x context x KV heads x head dim x element
/// bytes x parallel, the element size taken with its fraction (0.518 bytes
/// for Q4_0) and the product rounded down to whole bytes once, at the end.
pub open spec fn kv_cache_of(m: ModelMeta, p: Preset) -> nat {
    kv_milli_of(m, p) / 1000
}

/// Overhead: the larger of 256 MiB and 5% of the weights.
pub open spec fn overhead_of(m: ModelMeta) -> nat {
    let w = m.file_size_bytes as nat;
    if 256 * MB >= w / 20 { 256 * MB as nat } else { w / 20 }
}

/// The estimate's byte counts fit in a `u64`: its total (weights, KV cache
/// and overhead) is at most `u64::MAX`.
pub open spec fn estimate_fits(m: ModelMeta, p: Preset) -> bool {
    m.file_size_bytes + kv_cache_of(m, p) + overhead_of(m) <= u64::MAX
}

/// The GPU share of the weights.
pub open spec fn share_of(m: ModelMeta, p: Preset) -> OffloadShare {
    match p.n_gpu_layers {
        GpuLayers::Count(n) => if layers_of(m) > 0 && (n as nat) < layers_of(m) {
            OffloadShare::Partial { layers: n, of: layers_of(m) as u64 }
        } else {
            OffloadShare::Full
        },
        _ => OffloadShare::Full,
    }
}

pub open spec fn note_if(cond: bool, note: Seq<char>) -> Seq<Seq<char>> {
    if cond {
        seq![note]
    } else {
        Seq::empty()
    }
}

/// The context note: `上下文 <ctx> 层 <layers> KV头 <kv heads> head_dim <dim>`.
pub open spec fn shape_note(m: ModelMeta, p: Preset) -> Seq<char> {
    "上下文 "@ + decimal(ctx_of(m, p)) + " 层 "@ + decimal(layers_of(m)) + " KV头 "@ + decimal(kv_heads_of(m))
        + " head_dim "@ + decimal(head_dim_of(m))
}

/// The notes of an estimate, in order.
pub open spec fn notes_of(m: ModelMeta, p: Preset) -> Seq<Seq<char>> {
    note_if(head_dim_unknown(m), "无法读取 head_dim，按 128 估算"@)
        + note_if(p.n_gpu_layers == GpuLayers::Auto, "GPU 卸载设为 Auto，按全部卸载估算，实际取决于显存"@)
        + seq![shape_note(m, p)]
        + note_if(parallel_of(p) > 1, "并行 "@ + decimal(parallel_of(p)) + " (KV 缓存已乘以并行数)"@)
        + seq!["估算误差约 ±10-15%"@]
}

/// Whether the estimate of `meta` under `preset` stays within `u64`
/// (the estimate overflows otherwise).
pub fn estimate_in_range(meta: &ModelMeta, preset: &Preset) -> (ok: bool)
    ensures
        ok == estimate_fits(*meta, *preset),
{
    let (l, c, k, h, d, q) = factors(meta, preset);
    let kv = match kv_bytes(l, c, k, h, d, q) { Some(x) => x, None => return false };
    let overhead = overhead(meta.file_size_bytes);
    match meta.file_size_bytes.checked_add(kv) {
        Some(s) => s.checked_add(overhead).is_some(),
        None => false,
    }
}

proof fn lemma_at_least(x: int, y: int)
    requires
        x >= 0,
        y >= 1,
    ensures
        x * y >= x,
{
    assert(x * y >= x) by (nonlinear_arith)
        requires
            x >= 0,
            y >= 1;
}

/// The KV cache in whole bytes, `2 * l * c * k * h * d * q / 1000` with `d`
/// the element size in thousandths of a byte, when it fits in a `u64`.  The
/// product is taken in 128 bits, so nothing short of the result overflows.
fn kv_bytes(l: u64, c: u64, k: u64, h: u64, d: u64, q: u64) -> (r: Option<u64>)
    ensures
        match r {
            Some(v) => v as nat == 2 * l * c * k * h * d * q / 1000,
            None => 2 * l * c * k * h * d * q / 1000 > u64::MAX,
        },
{
    if l == 0 || c == 0 || k == 0 || h == 0 || d == 0 || q == 0 {
        assert(2 * l * c * k * h * d * q == 0) by (nonlinear_arith)
            requires
                l == 0 || c == 0 || k == 0 || h == 0 || d == 0 || q == 0;
        return Some(0);
    }
    let ghost x1: int = 2 * l;
    let ghost x2: int = x1 * c;
    let ghost x3: int = x2 * k;
    let ghost x4: int = x3 * h;
    let ghost x5: int = x4 * d;
    let ghost x6: int = x5 * q;
    proof {
        assert(x1 >= 0 && x2 >= 0 && x3 >= 0 && x4 >= 0 && x5 >= 0) by (nonlinear_arith)
            requires
                x1 == 2 * l, x2 == x1 * c, x3 == x2 * k, x4 == x3 * h, x5 == x4 * d,
                l >= 0, c >= 0, k >= 0, h >= 0, d >= 0;
        lemma_at_least(x5, q as int);
        lemma_at_least(x4, d as int);
        lemma_at_least(x3, h as int);
        lemma_at_least(x2, k as int);
        lemma_at_least(x1, c as int);
        assert(x6 == 2 * l * c * k * h * d * q);
    }
    let a1: u128 = 2 * (l as u128);
    let a2 = match a1.checked_mul(c as u128) { Some(v) => v, None => return None };
    let a3 = match a2.checked_mul(k as u128) { Some(v) => v, None => return None };
    let a4 = match a3.checked_mul(h as u128) { Some(v) => v, None => return None };
    let a5 = match a4.checked_mul(d as u128) { Some(v) => v, None => return None };
    let a6 = match a5.checked_mul(q as u128) { Some(v) => v, None => return None };
    let kv = a6 / 1000;
    if kv > u64::MAX as u128 {
        None
    } else {
        Some(kv as u64)
    }
}

fn overhead(weights: u64) -> (o: u64)
    ensures
        o as nat == if 256 * MB >= weights as nat / 20 { 256 * MB as nat } else { weights as nat / 20 },
{
    let fifth = weights / 20;
    if 256 * MB >= fifth { 256 * MB } else { fifth }
}

/// Layers, context, KV heads, head dimension, element size in thousandths
/// of a byte, parallelism.
fn factors(meta: &ModelMeta, preset: &Preset) -> (r: (u64, u64, u64, u64, u64, u64))
    ensures
        r.0 as nat == layers_of(*meta),
        r.1 as nat == ctx_of(*meta, *preset),
        r.2 as nat == kv_heads_of(*meta),
        r.3 as nat == head_dim_of(*meta),
        r.4 as nat == dtype_milli_of(*preset),
        r.5 as nat == parallel_of(*preset),
{
    let n_layers: u64 = match meta.block_count {
        Some(b) => b as u64,
        None => 32,
    };
    let n_ctx: u64 = if preset.ctx_size > 0 {
        preset.ctx_size as u64
    } else {
        match meta.context_length {
            Some(c) => c as u64,
            None => 4096,
        }
    };
    let head_dim: u64 = match meta.key_length {
        Some(k) => k as u64,
        None => match (meta.embedding_length, meta.head_count) {
            (Some(e), Some(h)) => if h > 0 { (e / h) as u64 } else { 128 },
            _ => 128,
        },
    };
    let n_head_kv: u64 = match meta.head_count_kv {
        Some(k) => k as u64,
        None => match meta.head_count {
            Some(h) => h as u64,
            None => 32,
        },
    };
    let dk = preset.cache_type_k.bytes_per_element_milli();
    let dv = preset.cache_type_v.bytes_per_element_milli();
    let dtype: u64 = (if dk >= dv { dk } else { dv }) as u64;
    let parallel: u64 = if preset.parallel > 1 { preset.parallel as u64 } else { 1 };
    (n_layers, n_ctx, n_head_kv, head_dim, dtype, parallel)
}

fn push_note(notes: &mut Vec<String>, note: String)
    ensures
        strings_view(final(notes)@) == strings_view(old(notes)@).push(note@),
{
    let ghost v = note@;
    notes.push(note);
    assert(strings_view(notes@) =~= strings_view(old(notes)@).push(v));
}

fn shape_note_text(c: u64, l: u64, k: u64, h: u64) -> (s: String)
    ensures
        s@ == "上下文 "@ + decimal(c as nat) + " 层 "@ + decimal(l as nat) + " KV头 "@ + decimal(k as nat)
            + " head_dim "@ + decimal(h as nat),
{
    let mut s = String::from_str("上下文 ");
    append_decimal(&mut s, c);
    s.append(" 层 ");
    append_decimal(&mut s, l);
    s.append(" KV头 ");
    append_decimal(&mut s, k);
    s.append(" head_dim ");
    append_decimal(&mut s, h);
    s
}

fn estimate_notes(meta: &ModelMeta, preset: &Preset, c: u64, l: u64, k: u64, h: u64, q: u64) -> (notes: Vec<String>)
    requires
        c as nat == ctx_of(*meta, *preset),
        l as nat == layers_of(*meta),
        k as nat == kv_heads_of(*meta),
        h as nat == head_dim_of(*meta),
        q as nat == parallel_of(*preset),
    ensures
        strings_view(notes@) == notes_of(*meta, *preset),
{
    let mut notes: Vec<String> = Vec::new();
    let ghost s0 = strings_view(notes@);
    assert(s0 =~= Seq::<Seq<char>>::empty());
    let unknown = meta.key_length.is_none() && !(meta.embedding_length.is_some() && meta.head_count.is_some());
    if unknown {
        push_note(&mut notes, String::from_str("无法读取 head_dim，按 128 估算"));
    }
    assert(strings_view(notes@) =~= note_if(head_dim_unknown(*meta), "无法读取 head_dim，按 128 估算"@));
    let ghost s1 = strings_view(notes@);
    if preset.n_gpu_layers == GpuLayers::Auto {
        push_note(&mut notes, String::from_str("GPU 卸载设为 Auto，按全部卸载估算，实际取决于显存"));
    }
    assert(strings_view(notes@) =~= s1 + note_if(preset.n_gpu_layers == GpuLayers::Auto, "GPU 卸载设为 Auto，按全部卸载估算，实际取决于显存"@));
    let ghost s2 = strings_view(notes@);
    push_note(&mut notes, shape_note_text(c, l, k, h));
    let ghost s3 = strings_view(notes@);
    if q > 1 {
        let mut t = String::from_str("并行 ");
        append_decimal(&mut t, q);
        t.append(" (KV 缓存已乘以并行数)");
        push_note(&mut notes, t);
    }
    assert(strings_view(notes@) =~= s3 + note_if(parallel_of(*preset) > 1, "并行 "@ + decimal(parallel_of(*preset)) + " (KV 缓存已乘以并行数)"@));
    push_note(&mut notes, String::from_str("估算误差约 ±10-15%"));
    assert(strings_view(notes@) =~= notes_of(*meta, *preset));
    notes
}

/// The memory estimate of `meta` under `preset`: weights are the file
/// size; the KV cache is 2 x layers x context x KV heads x head dim x
/// element bytes (with their fraction) x parallel requests, rounded down to
/// whole bytes; the overhead is the larger of 256 MiB
/// and 5% of the weights; the GPU share is all weights unless a layer count
/// below the model's layer count is set.
pub fn estimate(meta: &ModelMeta, preset: &Preset) -> (est: VramEstimate)
    requires
        estimate_fits(*meta, *preset),
    ensures
        est.weights_bytes == meta.file_size_bytes,
        est.kv_cache_bytes == kv_cache_of(*meta, *preset),
        est.overhead_bytes == overhead_of(*meta),
        est.total_bytes == meta.file_size_bytes + kv_cache_of(*meta, *preset) + overhead_of(*meta),
        est.offload == share_of(*meta, *preset),
        strings_view(est.notes@) == notes_of(*meta, *preset),
{
    let weights = meta.file_size_bytes;
    let (l, c, k, h, d, q) = factors(meta, preset);
    let kv_cache = match kv_bytes(l, c, k, h, d, q) {
        Some(x) => x,
        None => {
            assert(false);
            0
        },
    };
    let overhead = overhead(weights);
    let total = weights + kv_cache + overhead;
    let offload = match preset.n_gpu_layers {
        GpuLayers::Count(n) => if l > 0 && (n as u64) < l {
            OffloadShare::Partial { layers: n, of: l }
        } else {
            OffloadShare::Full
        },
        _ => OffloadShare::Full,
    };
    let notes = estimate_notes(meta, preset, c, l, k, h, q);
    VramEstimate {
        weights_bytes: weights,
        kv_cache_bytes: kv_cache,
        overhead_bytes: overhead,
        total_bytes: total,
        offload,
        notes,
    }
}

/// The GPU share follows the preset's layer setting: a layer count below the
/// model's layer count (32 when the model gives none) puts exactly that many
/// of its layers on the GPU, 0 (CPU only) included, and the rest in system
/// memory; a count at or above it, `All` and `Auto` put all of them there.
pub proof fn offload_share_law(m: ModelMeta, p: Preset)
    ensures
        ({
            let layers: nat = match m.block_count {
                Some(b) => b as nat,
                None => 32,
            };
            match p.n_gpu_layers {
                GpuLayers::Count(n) => if (n as nat) < layers {
                    share_of(m, p) == (OffloadShare::Partial { layers: n, of: layers as u64 })
                } else {
                    share_of(m, p) == OffloadShare::Full
                },
                _ => share_of(m, p) == OffloadShare::Full,
            }
        }),
{
}

/// The KV cache formula on the model's own fields: 2 x layers (32 when not
/// given) x context (the preset's when set, else the model's, else 4096) x KV
/// heads (`head_count_kv`, else `head_count`, else 32) x head dimension
/// (`key_length`, else embedding length over a non-zero head count, else 128)
/// x element size (the larger of the two cache types, in thousandths of a
/// byte) x parallel requests (at least 1), rounded down to whole bytes.
pub proof fn kv_cache_formula(m: ModelMeta, p: Preset)
    ensures
        ({
            let l: int = match m.block_count { Some(b) => b as int, None => 32 };
            let c: int = if p.ctx_size > 0 { p.ctx_size as int } else {
                match m.context_length { Some(x) => x as int, None => 4096 }
            };
            let k: int = match m.head_count_kv {
                Some(x) => x as int,
                None => match m.head_count { Some(x) => x as int, None => 32 },
            };
            let h: int = match m.key_length {
                Some(x) => x as int,
                None => match (m.embedding_length, m.head_count) {
                    (Some(e), Some(n)) => if n > 0 { (e / n) as int } else { 128 },
                    _ => 128,
                },
            };
            let mk = cache_bytes_milli(p.cache_type_k) as int;
            let mv = cache_bytes_milli(p.cache_type_v) as int;
            let d: int = if mk >= mv { mk } else { mv };
            let q: int = if p.parallel > 1 { p.parallel as int } else { 1 };
            kv_cache_of(m, p) == (2 * l * c * k * h * d * q) / 1000
        }),
{
}

/// The notes of an estimate: the error margin always comes last; the
/// head-dimension note appears exactly when the head dimension can be
/// neither read nor derived, the offload note exactly when GPU layers are
/// `Auto`, and the parallel note exactly when more than one request runs in
/// parallel; the context and shape note is always there.
pub proof fn estimate_notes_law(m: ModelMeta, p: Preset)
    ensures
        notes_of(m, p).last() == "估算误差约 ±10-15%"@,
        notes_of(m, p).contains("无法读取 head_dim，按 128 估算"@)
            <==> (m.key_length is None && (m.embedding_length is None || m.head_count is None)),
        notes_of(m, p).contains("GPU 卸载设为 Auto，按全部卸载估算，实际取决于显存"@) <==> p.n_gpu_layers == GpuLayers::Auto,
        notes_of(m, p).contains("并行 "@ + decimal(parallel_of(p)) + " (KV 缓存已乘以并行数)"@) <==> p.parallel > 1,
        notes_of(m, p).contains(shape_note(m, p)),
{
    let hn = "无法读取 head_dim，按 128 估算"@;
    let an = "GPU 卸载设为 Auto，按全部卸载估算，实际取决于显存"@;
    let mn = "估算误差约 ±10-15%"@;
    let pn = "并行 "@ + decimal(parallel_of(p)) + " (KV 缓存已乘以并行数)"@;
    let sn = shape_note(m, p);
    reveal_strlit("无法读取 head_dim，按 128 估算");
    reveal_strlit("GPU 卸载设为 Auto，按全部卸载估算，实际取决于显存");
    reveal_strlit("估算误差约 ±10-15%");
    reveal_strlit("并行 ");
    reveal_strlit("上下文 ");
    assert(hn[0] == '无' && an[0] == 'G' && mn[0] == '估');
    assert(pn[0] == '并');
    assert(sn[0] == '上');
    let n1 = note_if(head_dim_unknown(m), hn);
    let n2 = note_if(p.n_gpu_layers == GpuLayers::Auto, an);
    let n4 = note_if(parallel_of(p) > 1, pn);
    let notes = notes_of(m, p);
    assert(notes == n1 + n2 + seq![sn] + n4 + seq![mn]);
    let o2 = n1.len() as int;
    let o3 = o2 + n2.len();
    let o4 = o3 + 1;
    let o5 = o4 + n4.len();
    assert forall|i: int| 0 <= i < notes.len() implies
        (#[trigger] notes[i] == hn && i < o2) || (notes[i] == an && o2 <= i < o3) || (notes[i] == sn && i == o3)
            || (notes[i] == pn && o4 <= i < o5) || (notes[i] == mn && i == o5) by {
    }
    assert(notes.len() == o5 + 1);
    if head_dim_unknown(m) {
        assert(notes[0] == hn);
    }
    if p.n_gpu_layers == GpuLayers::Auto {
        assert(notes[o2] == an);
    }
    if parallel_of(p) > 1 {
        assert(notes[o4] == pn);
    }
    assert(notes[o3] == sn);
    if notes.contains(hn) {
        let i = choose|i: int| 0 <= i < notes.len() && notes[i] == hn;
        assert(notes[i][0] == '无');
    }
    if notes.contains(an) {
        let i = choose|i: int| 0 <= i < notes.len() && notes[i] == an;
        assert(notes[i][0] == 'G');
    }
    if notes.contains(pn) {
        let i = choose|i: int| 0 <= i < notes.len() && notes[i] == pn;
        assert(notes[i][0] == '并');
    }
}

} // verus!
