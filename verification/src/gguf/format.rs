//! The GGUF header grammar: the magic number, the version, the tensor and
//! key/value counts, then the key/value metadata entries.  Of the values only
//! `u32` and strings are kept; every other value is skipped by moving the read
//! position, as a seekable reader would.
use vstd::prelude::*;
use crate::text::utf8_lossy;

verus! {

/// `"GGUF"` read as a little-endian `u32`.
pub const GGUF_MAGIC: u32 = 0x46554747;

/// Value type codes of GGUF metadata.
pub const T_UINT8: u32 = 0;
pub const T_INT8: u32 = 1;
pub const T_UINT16: u32 = 2;
pub const T_INT16: u32 = 3;
pub const T_UINT32: u32 = 4;
pub const T_INT32: u32 = 5;
pub const T_FLOAT32: u32 = 6;
pub const T_BOOL: u32 = 7;
pub const T_STRING: u32 = 8;
pub const T_ARRAY: u32 = 9;
pub const T_UINT64: u32 = 10;
pub const T_INT64: u32 = 11;
pub const T_FLOAT64: u32 = 12;

/// A kept metadata value.
pub enum GgufValue {
    U32(u32),
    Str(String),
}

/// One kept metadata entry, in file order.
pub struct KvEntry {
    pub key: String,
    pub value: GgufValue,
}

/// What the header parse produces: the version and the kept entries in file order.
pub struct GgufHeader {
    pub version: u32,
    pub entries: Vec<KvEntry>,
}

/// Why a header could not be read.
pub enum GgufError {
    /// A read or a seek of the underlying file failed; the message is the I/O error's.
    Io(String),
    /// The first four bytes are not the GGUF magic; holds what was read.
    NotGguf(u32),
    /// A metadata value has an unknown type code.
    UnknownValueType(u32),
    /// An array has an unknown element type code.
    UnknownArrayType(u32),
    /// An array's byte size (count times element size) exceeds `u64`.
    SizeOverflow,
}

pub enum ValueView {
    U32(u32),
    Str(Seq<char>),
}

pub struct EntryView {
    pub key: Seq<char>,
    pub value: ValueView,
}

pub struct HeaderView {
    pub version: u32,
    pub entries: Seq<EntryView>,
}

/// The kinds of failure, with the I/O message left out.
pub enum Fault {
    Io,
    NotGguf(u32),
    UnknownValueType(u32),
    UnknownArrayType(u32),
    SizeOverflow,
}

impl View for GgufValue {
    type V = ValueView;

    open spec fn view(&self) -> ValueView {
        match self {
            GgufValue::U32(v) => ValueView::U32(*v),
            GgufValue::Str(s) => ValueView::Str(s@),
        }
    }
}

impl View for KvEntry {
    type V = EntryView;

    open spec fn view(&self) -> EntryView {
        EntryView { key: self.key@, value: self.value@ }
    }
}

pub open spec fn entries_view(v: Seq<KvEntry>) -> Seq<EntryView> {
    v.map_values(|e: KvEntry| e@)
}

impl View for GgufHeader {
    type V = HeaderView;

    open spec fn view(&self) -> HeaderView {
        HeaderView { version: self.version, entries: entries_view(self.entries@) }
    }
}

impl View for GgufError {
    type V = Fault;

    open spec fn view(&self) -> Fault {
        match self {
            GgufError::Io(_) => Fault::Io,
            GgufError::NotGguf(m) => Fault::NotGguf(*m),
            GgufError::UnknownValueType(t) => Fault::UnknownValueType(*t),
            GgufError::UnknownArrayType(t) => Fault::UnknownArrayType(*t),
            GgufError::SizeOverflow => Fault::SizeOverflow,
        }
    }
}

pub open spec fn result_view(r: Result<GgufHeader, GgufError>) -> Result<HeaderView, Fault> {
    match r {
        Ok(h) => Ok(h@),
        Err(e) => Err(e@),
    }
}

/// The `n` bytes of `f` at `pos`, if the file holds them all.
pub open spec fn read_at(f: Seq<u8>, pos: int, n: int) -> Option<Seq<u8>> {
    if 0 <= pos && 0 <= n && pos + n <= f.len() {
        Some(f.subrange(pos, pos + n))
    } else {
        None
    }
}

/// The position after moving by `delta` from `pos`; a file position is never
/// negative and never exceeds `i64::MAX`.
pub open spec fn seek_to(pos: int, delta: int) -> Option<int> {
    if 0 <= pos + delta <= i64::MAX {
        Some(pos + delta)
    } else {
        None
    }
}

/// Little-endian value of four bytes.
pub open spec fn le_u32(b: Seq<u8>) -> u32 {
    (b[0] as int + b[1] as int * 0x100 + b[2] as int * 0x10000 + b[3] as int * 0x1000000) as u32
}

/// Little-endian value of eight bytes.
pub open spec fn le_u64(b: Seq<u8>) -> u64 {
    (b[0] as int + b[1] as int * 0x100 + b[2] as int * 0x10000 + b[3] as int * 0x1000000
        + b[4] as int * 0x100000000 + b[5] as int * 0x10000000000
        + b[6] as int * 0x1000000000000 + b[7] as int * 0x100000000000000) as u64
}

/// How far a skipped scalar value moves the position, by type code; `None`
/// for codes that are not skipped scalars.
pub open spec fn scalar_width(t: u32) -> Option<int> {
    if t == T_UINT8 || t == T_INT8 || t == T_BOOL {
        Some(1)
    } else if t == T_UINT16 || t == T_INT16 {
        Some(2)
    } else if t == T_INT32 || t == T_FLOAT32 {
        Some(4)
    } else if t == T_UINT64 || t == T_INT64 || t == T_FLOAT64 {
        Some(8)
    } else {
        None
    }
}

/// Element width of a fixed-width array element type.
pub open spec fn element_width(t: u32) -> Option<int> {
    if t == T_UINT32 {
        Some(4)
    } else {
        scalar_width(t)
    }
}

/// A `u64` byte count reinterpreted as a signed 64-bit offset (two's complement).
pub open spec fn as_signed_offset(p: int) -> int {
    if p > i64::MAX {
        p - 0x10000000000000000
    } else {
        p
    }
}

pub open spec fn with_version(version: u32, r: Result<Seq<EntryView>, Fault>) -> Result<HeaderView, Fault> {
    match r {
        Ok(e) => Ok(HeaderView { version, entries: e }),
        Err(x) => Err(x),
    }
}

/// The header of file content `f`.
pub open spec fn parse_header(f: Seq<u8>) -> Result<HeaderView, Fault> {
    magic_from(f, 0)
}

pub open spec fn magic_from(f: Seq<u8>, pos: int) -> Result<HeaderView, Fault> {
    match read_at(f, pos, 4) {
        None => Err(Fault::Io),
        Some(b) => if le_u32(b) != GGUF_MAGIC {
            Err(Fault::NotGguf(le_u32(b)))
        } else {
            version_from(f, pos + 4)
        },
    }
}

pub open spec fn version_from(f: Seq<u8>, pos: int) -> Result<HeaderView, Fault> {
    match read_at(f, pos, 4) {
        None => Err(Fault::Io),
        Some(b) => tensors_from(f, pos + 4, le_u32(b)),
    }
}

pub open spec fn tensors_from(f: Seq<u8>, pos: int, version: u32) -> Result<HeaderView, Fault> {
    match read_at(f, pos, 8) {
        None => Err(Fault::Io),
        Some(_) => kv_count_from(f, pos + 8, version),
    }
}

pub open spec fn kv_count_from(f: Seq<u8>, pos: int, version: u32) -> Result<HeaderView, Fault> {
    match read_at(f, pos, 8) {
        None => Err(Fault::Io),
        Some(b) => with_version(version, entries_from(f, pos + 8, le_u64(b) as nat, Seq::empty())),
    }
}

/// `left` more entries from `pos`, after the entries `acc` already kept.
pub open spec fn entries_from(f: Seq<u8>, pos: int, left: nat, acc: Seq<EntryView>) -> Result<Seq<EntryView>, Fault>
    decreases left, 0nat, 0nat, 0nat,
{
    if left == 0 {
        Ok(acc)
    } else {
        key_len_from(f, pos, (left - 1) as nat, acc)
    }
}

/// An entry whose key length starts at `pos`; `left` entries follow it.
pub open spec fn key_len_from(f: Seq<u8>, pos: int, left: nat, acc: Seq<EntryView>) -> Result<Seq<EntryView>, Fault>
    decreases left, 1nat, 0nat, 9nat,
{
    match read_at(f, pos, 8) {
        None => Err(Fault::Io),
        Some(b) => key_bytes_from(f, pos + 8, le_u64(b) as int, left, acc),
    }
}

pub open spec fn key_bytes_from(f: Seq<u8>, pos: int, len: int, left: nat, acc: Seq<EntryView>) -> Result<Seq<EntryView>, Fault>
    decreases left, 1nat, 0nat, 8nat,
{
    match read_at(f, pos, len) {
        None => Err(Fault::Io),
        Some(b) => type_from(f, pos + len, utf8_lossy(b), left, acc),
    }
}

pub open spec fn type_from(f: Seq<u8>, pos: int, key: Seq<char>, left: nat, acc: Seq<EntryView>) -> Result<Seq<EntryView>, Fault>
    decreases left, 1nat, 0nat, 7nat,
{
    match read_at(f, pos, 4) {
        None => Err(Fault::Io),
        Some(b) => value_from(f, pos + 4, le_u32(b), key, left, acc),
    }
}

pub open spec fn value_from(f: Seq<u8>, pos: int, vtype: u32, key: Seq<char>, left: nat, acc: Seq<EntryView>) -> Result<Seq<EntryView>, Fault>
    decreases left, 1nat, 0nat, 6nat,
{
    if vtype == T_UINT32 {
        u32_value_from(f, pos, key, left, acc)
    } else if vtype == T_STRING {
        str_len_from(f, pos, key, left, acc)
    } else if vtype == T_ARRAY {
        elem_type_from(f, pos, left, acc)
    } else {
        match scalar_width(vtype) {
            Some(w) => skip_then(f, pos, w, left, acc),
            None => Err(Fault::UnknownValueType(vtype)),
        }
    }
}

pub open spec fn u32_value_from(f: Seq<u8>, pos: int, key: Seq<char>, left: nat, acc: Seq<EntryView>) -> Result<Seq<EntryView>, Fault>
    decreases left, 1nat, 0nat, 5nat,
{
    match read_at(f, pos, 4) {
        None => Err(Fault::Io),
        Some(b) => entries_from(f, pos + 4, left, acc.push(EntryView { key, value: ValueView::U32(le_u32(b)) })),
    }
}

pub open spec fn str_len_from(f: Seq<u8>, pos: int, key: Seq<char>, left: nat, acc: Seq<EntryView>) -> Result<Seq<EntryView>, Fault>
    decreases left, 1nat, 0nat, 5nat,
{
    match read_at(f, pos, 8) {
        None => Err(Fault::Io),
        Some(b) => str_bytes_from(f, pos + 8, key, le_u64(b) as int, left, acc),
    }
}

pub open spec fn str_bytes_from(f: Seq<u8>, pos: int, key: Seq<char>, len: int, left: nat, acc: Seq<EntryView>) -> Result<Seq<EntryView>, Fault>
    decreases left, 1nat, 0nat, 4nat,
{
    match read_at(f, pos, len) {
        None => Err(Fault::Io),
        Some(b) => entries_from(f, pos + len, left, acc.push(EntryView { key, value: ValueView::Str(utf8_lossy(b)) })),
    }
}

/// A skipped value: move by `delta`, then go on with the next entries.
pub open spec fn skip_then(f: Seq<u8>, pos: int, delta: int, left: nat, acc: Seq<EntryView>) -> Result<Seq<EntryView>, Fault>
    decreases left, 1nat, 0nat, 1nat,
{
    match seek_to(pos, delta) {
        None => Err(Fault::Io),
        Some(p) => entries_from(f, p, left, acc),
    }
}

pub open spec fn elem_type_from(f: Seq<u8>, pos: int, left: nat, acc: Seq<EntryView>) -> Result<Seq<EntryView>, Fault>
    decreases left, 1nat, 0nat, 5nat,
{
    match read_at(f, pos, 4) {
        None => Err(Fault::Io),
        Some(b) => count_from(f, pos + 4, le_u32(b), left, acc),
    }
}

pub open spec fn count_from(f: Seq<u8>, pos: int, elem: u32, left: nat, acc: Seq<EntryView>) -> Result<Seq<EntryView>, Fault>
    decreases left, 1nat, 0nat, 4nat,
{
    match read_at(f, pos, 8) {
        None => Err(Fault::Io),
        Some(b) => if elem == T_STRING {
            skip_strings(f, pos + 8, le_u64(b) as nat, left, acc)
        } else {
            match element_width(elem) {
                Some(w) => if le_u64(b) * w > u64::MAX {
                    Err(Fault::SizeOverflow)
                } else {
                    skip_then(f, pos + 8, as_signed_offset(le_u64(b) * w), left, acc)
                },
                None => Err(Fault::UnknownArrayType(elem)),
            }
        },
    }
}

/// `count` strings of an array still to step over, then the next entries.
pub open spec fn skip_strings(f: Seq<u8>, pos: int, count: nat, left: nat, acc: Seq<EntryView>) -> Result<Seq<EntryView>, Fault>
    decreases left, 0nat, count, 1nat,
{
    if count == 0 {
        entries_from(f, pos, left, acc)
    } else {
        item_len_from(f, pos, (count - 1) as nat, left, acc)
    }
}

/// A string of an array to step over; `rest` more strings follow it.
pub open spec fn item_len_from(f: Seq<u8>, pos: int, rest: nat, left: nat, acc: Seq<EntryView>) -> Result<Seq<EntryView>, Fault>
    decreases left, 0nat, rest, 3nat,
{
    match read_at(f, pos, 8) {
        None => Err(Fault::Io),
        Some(b) => item_bytes_from(f, pos + 8, le_u64(b) as int, rest, left, acc),
    }
}

pub open spec fn item_bytes_from(f: Seq<u8>, pos: int, len: int, rest: nat, left: nat, acc: Seq<EntryView>) -> Result<Seq<EntryView>, Fault>
    decreases left, 0nat, rest, 2nat,
{
    match read_at(f, pos, len) {
        None => Err(Fault::Io),
        Some(_) => skip_strings(f, pos + len, rest, left, acc),
    }
}

/// Little-endian value of a four-byte buffer.
pub fn decode_u32(b: &[u8]) -> (v: u32)
    requires
        b@.len() == 4,
    ensures
        v == le_u32(b@),
{
    b[0] as u32 + b[1] as u32 * 0x100 + b[2] as u32 * 0x10000 + b[3] as u32 * 0x1000000
}

/// Little-endian value of an eight-byte buffer.
pub fn decode_u64(b: &[u8]) -> (v: u64)
    requires
        b@.len() == 8,
    ensures
        v == le_u64(b@),
{
    b[0] as u64 + b[1] as u64 * 0x100 + b[2] as u64 * 0x10000 + b[3] as u64 * 0x1000000
        + b[4] as u64 * 0x100000000 + b[5] as u64 * 0x10000000000
        + b[6] as u64 * 0x1000000000000 + b[7] as u64 * 0x100000000000000
}

/// How far a skipped scalar value of type `t` moves the position.
pub fn scalar_skip(t: u32) -> (w: Option<i64>)
    ensures
        w is Some == scalar_width(t) is Some,
        w matches Some(x) ==> scalar_width(t) == Some(x as int),
{
    if t == T_UINT8 || t == T_INT8 || t == T_BOOL {
        Some(1)
    } else if t == T_UINT16 || t == T_INT16 {
        Some(2)
    } else if t == T_INT32 || t == T_FLOAT32 {
        Some(4)
    } else if t == T_UINT64 || t == T_INT64 || t == T_FLOAT64 {
        Some(8)
    } else {
        None
    }
}

/// Width of one element of a fixed-width array element type.
pub fn element_size(t: u32) -> (w: Option<u64>)
    ensures
        w is Some == element_width(t) is Some,
        w matches Some(x) ==> element_width(t) == Some(x as int),
{
    if t == T_UINT32 {
        Some(4)
    } else {
        match scalar_skip(t) {
            Some(x) => Some(x as u64),
            None => None,
        }
    }
}

/// A byte count reinterpreted as a signed 64-bit offset (what `as i64` does).
pub fn signed_offset(p: u64) -> (d: i64)
    ensures
        d as int == as_signed_offset(p as int),
{
    if p <= 0x7fff_ffff_ffff_ffff {
        p as i64
    } else {
        -((u64::MAX - p) as i64) - 1
    }
}

/// The GGUF metadata value types: every type code from 0 to 12 is read.  A
/// `u32` (4) is kept, a string (8) is kept, an array (9) is read by its
/// element type and count; every other type is a fixed-size value stepped
/// over by its size in bytes: 1 for `u8`, `i8` and `bool` (0, 1, 7), 2 for
/// `u16` and `i16` (2, 3), 4 for `i32` and `f32` (5, 6), 8 for `u64`, `i64`
/// and `f64` (10, 11, 12).  A code past 12 is unknown and ends the read.
pub proof fn gguf_value_types(f: Seq<u8>, pos: int, t: u32, key: Seq<char>, left: nat, acc: Seq<EntryView>)
    ensures
        (t == 0 || t == 1 || t == 7) ==> value_from(f, pos, t, key, left, acc) == skip_then(f, pos, 1, left, acc),
        (t == 2 || t == 3) ==> value_from(f, pos, t, key, left, acc) == skip_then(f, pos, 2, left, acc),
        (t == 5 || t == 6) ==> value_from(f, pos, t, key, left, acc) == skip_then(f, pos, 4, left, acc),
        (t == 10 || t == 11 || t == 12) ==> value_from(f, pos, t, key, left, acc) == skip_then(f, pos, 8, left, acc),
        t == 4 ==> value_from(f, pos, t, key, left, acc) == u32_value_from(f, pos, key, left, acc),
        t == 8 ==> value_from(f, pos, t, key, left, acc) == str_len_from(f, pos, key, left, acc),
        t == 9 ==> value_from(f, pos, t, key, left, acc) == elem_type_from(f, pos, left, acc),
        t > 12 ==> value_from(f, pos, t, key, left, acc) == Err::<Seq<EntryView>, Fault>(Fault::UnknownValueType(t)),
{
}

/// The element types of a GGUF array: strings (8) are stepped over one by
/// one; every fixed-size type is stepped over as a block of its size times
/// the count, the sizes being those of single values (1 for codes 0, 1 and
/// 7, 2 for 2 and 3, 4 for 4, 5 and 6, 8 for 10, 11 and 12); nested arrays
/// (9) and codes past 12 are unknown element types.
pub proof fn gguf_array_element_types(f: Seq<u8>, pos: int, elem: u32, left: nat, acc: Seq<EntryView>)
    ensures
        (elem == 0 || elem == 1 || elem == 7) ==> element_width(elem) == Some(1int),
        (elem == 2 || elem == 3) ==> element_width(elem) == Some(2int),
        (elem == 4 || elem == 5 || elem == 6) ==> element_width(elem) == Some(4int),
        (elem == 10 || elem == 11 || elem == 12) ==> element_width(elem) == Some(8int),
        (elem == 8 || elem == 9 || elem > 12) ==> element_width(elem) is None,
        elem == 8 ==> count_from(f, pos, elem, left, acc) == match read_at(f, pos, 8) {
            None => Err(Fault::Io),
            Some(b) => skip_strings(f, pos + 8, le_u64(b) as nat, left, acc),
        },
        (elem == 9 || elem > 12) && read_at(f, pos, 8) is Some
            ==> count_from(f, pos, elem, left, acc) == Err::<Seq<EntryView>, Fault>(Fault::UnknownArrayType(elem)),
{
}

} // verus!
