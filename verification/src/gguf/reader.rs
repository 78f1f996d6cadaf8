//! A resumable GGUF header reader.  It never touches a file itself: it asks
//! for reads and seeks one at a time, and the caller answers each with what
//! the file gave.  Answered from a file content `f`, it ends with
//! `parse_header(f)`.
use vstd::prelude::*;
use crate::gguf::format::{
    read_at, seek_to, le_u32, le_u64, magic_from, version_from, tensors_from, kv_count_from,
    with_version, entries_from, key_len_from, key_bytes_from, type_from, u32_value_from,
    str_len_from, str_bytes_from, elem_type_from, count_from, item_len_from, item_bytes_from,
    skip_then, entries_view, result_view, parse_header, decode_u32, decode_u64, element_size, scalar_skip,
    signed_offset, skip_strings, GgufError, GgufHeader, GgufValue, KvEntry, HeaderView, EntryView, ValueView,
    Fault, GGUF_MAGIC, T_UINT32, T_STRING, T_ARRAY,
};
use crate::text::{lossy_string, utf8_lossy};

verus! {

/// What the reader needs next.
pub enum Request {
    /// Read exactly this many bytes at the current position.
    Read(u64),
    /// Move the position by this signed offset.
    Seek(i64),
    /// The header is done (or failed); take the result with `finish`.
    Finished,
}

/// How the caller answered the last request.
pub enum Reply {
    /// The bytes read, exactly as many as were asked for.
    Bytes(Vec<u8>),
    /// The seek succeeded.
    Moved,
    /// The read or seek failed with this I/O message.
    Failed(String),
}

enum Stage {
    Magic,
    Version,
    TensorCount,
    KvCount,
    KeyLen,
    KeyBytes { len: u64 },
    ValueType { key: String },
    U32Value { key: String },
    StrLen { key: String },
    StrBytes { key: String, len: u64 },
    ElemType,
    ElemCount { elem: u32 },
    ItemLen { rest: u64 },
    ItemBytes { rest: u64, len: u64 },
    Skip { delta: i64 },
    Failed { error: GgufError },
    Complete,
}

/// The state of one header read.
pub struct GgufReader {
    stage: Stage,
    version: u32,
    /// Entries still to read after the one in progress.
    left: u64,
    entries: Vec<KvEntry>,
    pos: Ghost<int>,
}

/// A bound on the requests of one metadata entry (a key, a type and a value,
/// where a value may be an array of up to `u64::MAX` strings).
pub open spec fn entry_bound() -> nat {
    0x4_0000_0000_0000_0000
}

/// Work pair `a` is lexicographically below work pair `b`.
pub open spec fn less_work(a: (nat, nat), b: (nat, nat)) -> bool {
    a.0 < b.0 || (a.0 == b.0 && a.1 < b.1)
}

impl GgufReader {
    /// The position in the file that the next request refers to.
    pub closed spec fn position(&self) -> int {
        self.pos@
    }

    /// The request the reader is waiting on.
    pub closed spec fn pending(&self) -> Request {
        match self.stage {
            Stage::Magic | Stage::Version | Stage::ValueType { .. } | Stage::U32Value { .. } | Stage::ElemType => Request::Read(4),
            Stage::TensorCount | Stage::KvCount | Stage::KeyLen | Stage::StrLen { .. } | Stage::ElemCount { .. } | Stage::ItemLen { .. } => Request::Read(8),
            Stage::KeyBytes { len } => Request::Read(len),
            Stage::StrBytes { len, .. } => Request::Read(len),
            Stage::ItemBytes { len, .. } => Request::Read(len),
            Stage::Skip { delta } => Request::Seek(delta),
            Stage::Failed { .. } | Stage::Complete => Request::Finished,
        }
    }

    /// `reply` is what a file with content `f` answers to the pending request:
    /// the bytes at the position if the file holds them (else a failure), and
    /// a successful move exactly when the new position is within `0..=i64::MAX`.
    pub open spec fn answered_by(&self, f: Seq<u8>, reply: Reply) -> bool {
        match self.pending() {
            Request::Read(n) => match read_at(f, self.position(), n as int) {
                Some(b) => reply matches Reply::Bytes(v) && v@ == b,
                None => reply is Failed,
            },
            Request::Seek(d) => match seek_to(self.position(), d as int) {
                Some(_) => reply is Moved,
                None => reply is Failed,
            },
            Request::Finished => false,
        }
    }

    /// The reply has the shape the pending request asks for.
    pub open spec fn fits(&self, reply: Reply) -> bool {
        match self.pending() {
            Request::Read(n) => match reply {
                Reply::Bytes(v) => v@.len() == n,
                Reply::Failed(_) => true,
                Reply::Moved => false,
            },
            Request::Seek(_) => reply is Moved || reply is Failed,
            Request::Finished => false,
        }
    }

    /// What the header read will end with if every remaining request is
    /// answered from file content `f`.
    pub closed spec fn outcome(&self, f: Seq<u8>) -> Result<HeaderView, Fault> {
        let pos = self.pos@;
        let v = self.version;
        let left = self.left as nat;
        let acc = entries_view(self.entries@);
        match self.stage {
            Stage::Magic => magic_from(f, pos),
            Stage::Version => version_from(f, pos),
            Stage::TensorCount => tensors_from(f, pos, v),
            Stage::KvCount => kv_count_from(f, pos, v),
            Stage::KeyLen => with_version(v, key_len_from(f, pos, left, acc)),
            Stage::KeyBytes { len } => with_version(v, key_bytes_from(f, pos, len as int, left, acc)),
            Stage::ValueType { key } => with_version(v, type_from(f, pos, key@, left, acc)),
            Stage::U32Value { key } => with_version(v, u32_value_from(f, pos, key@, left, acc)),
            Stage::StrLen { key } => with_version(v, str_len_from(f, pos, key@, left, acc)),
            Stage::StrBytes { key, len } => with_version(v, str_bytes_from(f, pos, key@, len as int, left, acc)),
            Stage::ElemType => with_version(v, elem_type_from(f, pos, left, acc)),
            Stage::ElemCount { elem } => with_version(v, count_from(f, pos, elem, left, acc)),
            Stage::ItemLen { rest } => with_version(v, item_len_from(f, pos, rest as nat, left, acc)),
            Stage::ItemBytes { rest, len } => with_version(v, item_bytes_from(f, pos, len as int, rest as nat, left, acc)),
            Stage::Skip { delta } => with_version(v, skip_then(f, pos, delta as int, left, acc)),
            Stage::Failed { error } => Err(error@),
            Stage::Complete => Ok(HeaderView { version: v, entries: acc }),
        }
    }

    /// The requests still ahead, as a lexicographic pair: the header fields
    /// not yet read, then a bound on the requests of the entries not yet read
    /// (at most `entry_bound()` for each whole entry still to come).  A
    /// finished reader has none.
    pub closed spec fn work(&self) -> (nat, nat) {
        let k = entry_bound();
        let later = self.left as nat * k;
        match self.stage {
            Stage::Magic => (4, 0),
            Stage::Version => (3, 0),
            Stage::TensorCount => (2, 0),
            Stage::KvCount => (1, 0),
            Stage::KeyLen => (0, (later + k - 1) as nat),
            Stage::KeyBytes { .. } => (0, (later + k - 2) as nat),
            Stage::ValueType { .. } => (0, (later + k - 3) as nat),
            Stage::ElemType => (0, (later + k - 4) as nat),
            Stage::ElemCount { .. } => (0, (later + k - 5) as nat),
            Stage::U32Value { .. } => (0, (later + 1) as nat),
            Stage::StrLen { .. } => (0, (later + 2) as nat),
            Stage::StrBytes { .. } => (0, (later + 1) as nat),
            Stage::Skip { .. } => (0, (later + 1) as nat),
            Stage::ItemLen { rest } => (0, (later + 2 * rest + 2) as nat),
            Stage::ItemBytes { rest, .. } => (0, (later + 2 * rest + 1) as nat),
            Stage::Failed { .. } | Stage::Complete => (0, 0),
        }
    }

    /// The error the read failed with, once it has failed.
    pub closed spec fn failure(&self) -> Option<GgufError> {
        match self.stage {
            Stage::Failed { error } => Some(error),
            _ => None,
        }
    }

    /// A reader at the start of a file.
    pub fn new() -> (r: GgufReader)
        ensures
            r.position() == 0,
            r.pending() == Request::Read(4),
            forall|f: Seq<u8>| #[trigger] r.outcome(f) == parse_header(f),
    {
        GgufReader { stage: Stage::Magic, version: 0, left: 0, entries: Vec::new(), pos: Ghost(0) }
    }

    /// The request the reader is waiting on.
    pub fn next_request(&self) -> (req: Request)
        ensures
            req == self.pending(),
    {
        match &self.stage {
            Stage::Magic | Stage::Version | Stage::ValueType { .. } | Stage::U32Value { .. } | Stage::ElemType => Request::Read(4),
            Stage::TensorCount | Stage::KvCount | Stage::KeyLen | Stage::StrLen { .. } | Stage::ElemCount { .. } | Stage::ItemLen { .. } => Request::Read(8),
            Stage::KeyBytes { len } => Request::Read(*len),
            Stage::StrBytes { len, .. } => Request::Read(*len),
            Stage::ItemBytes { len, .. } => Request::Read(*len),
            Stage::Skip { delta } => Request::Seek(*delta),
            Stage::Failed { .. } | Stage::Complete => Request::Finished,
        }
    }

    /// After an entry (or the key/value count): go on with the next entry, or complete.
    fn next_entry(&mut self)
        ensures
            final(self).version == old(self).version,
            final(self).entries@ == old(self).entries@,
            final(self).pos@ == old(self).pos@,
            final(self).work().0 == 0,
            final(self).work().1 <= old(self).left as nat * entry_bound(),
            forall|f: Seq<u8>| #[trigger] final(self).outcome(f) == with_version(
                old(self).version,
                entries_from(f, old(self).pos@, old(self).left as nat, entries_view(old(self).entries@)),
            ),
    {
        if self.left == 0 {
            self.stage = Stage::Complete;
        } else {
            self.left = self.left - 1;
            self.stage = Stage::KeyLen;
        }
    }

    /// Takes the answer to the pending request and moves on: fewer requests
    /// are ahead than before, so answering every request ends the read.
    /// Whatever a file `f` answers, the end result for `f` stays what it was;
    /// a failed read or seek ends the read with that I/O error.
    pub fn resume(&mut self, reply: Reply)
        requires
            old(self).fits(reply),
        ensures
            less_work(final(self).work(), old(self).work()),
            forall|f: Seq<u8>| old(self).answered_by(f, reply) ==> #[trigger] final(self).outcome(f) == old(self).outcome(f),
            reply matches Reply::Failed(m) ==> final(self).pending() is Finished && final(self).failure() == Some(GgufError::Io(m)),
    {
        match reply {
            Reply::Failed(msg) => {
                let ghost before = *self;
                self.fail(GgufError::Io(msg));
                assert forall|f: Seq<u8>| before.answered_by(f, reply) implies #[trigger] self.outcome(f) == before.outcome(f) by {
                    reveal_with_fuel(entries_from, 1);
                }
            },
            Reply::Moved => {
                let ghost before = *self;
                let mut stage = Stage::Complete;
                std::mem::swap(&mut stage, &mut self.stage);
                match stage {
                    Stage::Skip { delta } => {
                        self.pos = Ghost(self.pos@ + delta as int);
                        self.next_entry();
                        assert forall|f: Seq<u8>| before.answered_by(f, reply) implies #[trigger] self.outcome(f) == before.outcome(f) by {
                        }
                    },
                    _ => {
                        assert(false);
                    },
                }
            },
            Reply::Bytes(b) => {
                self.take_bytes(b);
            },
        }
    }

    fn take_bytes(&mut self, b: Vec<u8>)
        requires
            old(self).pending() matches Request::Read(n) && b@.len() == n,
        ensures
            less_work(final(self).work(), old(self).work()),
            forall|f: Seq<u8>| #[trigger] read_at(f, old(self).position(), b@.len() as int) == Some(b@)
                ==> final(self).outcome(f) == old(self).outcome(f),
    {
        let group: u8 = match &self.stage {
            Stage::Magic | Stage::Version => 0,
            Stage::TensorCount | Stage::KvCount => 4,
            Stage::KeyLen | Stage::KeyBytes { .. } | Stage::ValueType { .. } => 1,
            Stage::U32Value { .. } | Stage::StrLen { .. } | Stage::StrBytes { .. } => 2,
            _ => 3,
        };
        if group == 0 {
            self.take_header(b);
        } else if group == 4 {
            self.take_counts(b);
        } else if group == 1 {
            self.take_key(b);
        } else if group == 2 {
            self.take_value(b);
        } else {
            self.take_array(b);
        }
    }

    fn take_header(&mut self, b: Vec<u8>)
        requires
            old(self).stage is Magic || old(self).stage is Version,
            old(self).pending() matches Request::Read(n) && b@.len() == n,
        ensures
            less_work(final(self).work(), old(self).work()),
            forall|f: Seq<u8>| #[trigger] read_at(f, old(self).position(), b@.len() as int) == Some(b@)
                ==> final(self).outcome(f) == old(self).outcome(f),
    {
        let ghost before = *self;
        let mut stage = Stage::Complete;
        std::mem::swap(&mut stage, &mut self.stage);
        match stage {
            Stage::Magic => {
                let m = decode_u32(b.as_slice());
                if m != GGUF_MAGIC {
                    self.fail(GgufError::NotGguf(m));
                } else {
                    self.pos = Ghost(self.pos@ + 4);
                    self.stage = Stage::Version;
                }
            },
            Stage::Version => {
                self.version = decode_u32(b.as_slice());
                self.pos = Ghost(self.pos@ + 4);
                self.stage = Stage::TensorCount;
            },
            _ => {
                assert(false);
            },
        }
    }

    fn take_counts(&mut self, b: Vec<u8>)
        requires
            old(self).stage is TensorCount || old(self).stage is KvCount,
            old(self).pending() matches Request::Read(n) && b@.len() == n,
        ensures
            less_work(final(self).work(), old(self).work()),
            forall|f: Seq<u8>| #[trigger] read_at(f, old(self).position(), b@.len() as int) == Some(b@)
                ==> final(self).outcome(f) == old(self).outcome(f),
    {
        let ghost before = *self;
        let mut stage = Stage::Complete;
        std::mem::swap(&mut stage, &mut self.stage);
        match stage {
            Stage::TensorCount => {
                self.pos = Ghost(self.pos@ + 8);
                self.stage = Stage::KvCount;
            },
            Stage::KvCount => {
                self.left = decode_u64(b.as_slice());
                self.entries = Vec::new();
                self.pos = Ghost(self.pos@ + 8);
                assert(entries_view(self.entries@) =~= Seq::<EntryView>::empty());
                self.next_entry();
            },
            _ => {
                assert(false);
            },
        }
    }

    fn take_key(&mut self, b: Vec<u8>)
        requires
            old(self).stage is KeyLen || old(self).stage is KeyBytes || old(self).stage is ValueType,
            old(self).pending() matches Request::Read(n) && b@.len() == n,
        ensures
            less_work(final(self).work(), old(self).work()),
            forall|f: Seq<u8>| #[trigger] read_at(f, old(self).position(), b@.len() as int) == Some(b@)
                ==> final(self).outcome(f) == old(self).outcome(f),
    {
        let ghost before = *self;
        let mut stage = Stage::Complete;
        std::mem::swap(&mut stage, &mut self.stage);
        match stage {
            Stage::KeyLen => {
                let len = decode_u64(b.as_slice());
                self.pos = Ghost(self.pos@ + 8);
                self.stage = Stage::KeyBytes { len };
            },
            Stage::KeyBytes { len } => {
                let key = lossy_string(b.as_slice());
                self.pos = Ghost(self.pos@ + len as int);
                self.stage = Stage::ValueType { key };
            },
            Stage::ValueType { key } => {
                let t = decode_u32(b.as_slice());
                self.pos = Ghost(self.pos@ + 4);
                if t == T_UINT32 {
                    self.stage = Stage::U32Value { key };
                } else if t == T_STRING {
                    self.stage = Stage::StrLen { key };
                } else if t == T_ARRAY {
                    self.stage = Stage::ElemType;
                } else {
                    match scalar_skip(t) {
                        Some(w) => {
                            self.stage = Stage::Skip { delta: w };
                        },
                        None => {
                            self.fail(GgufError::UnknownValueType(t));
                        },
                    }
                }
            },
            _ => {
                assert(false);
            },
        }
    }

    fn take_value(&mut self, b: Vec<u8>)
        requires
            old(self).stage is U32Value || old(self).stage is StrLen || old(self).stage is StrBytes,
            old(self).pending() matches Request::Read(n) && b@.len() == n,
        ensures
            less_work(final(self).work(), old(self).work()),
            forall|f: Seq<u8>| #[trigger] read_at(f, old(self).position(), b@.len() as int) == Some(b@)
                ==> final(self).outcome(f) == old(self).outcome(f),
    {
        let ghost before = *self;
        let mut stage = Stage::Complete;
        std::mem::swap(&mut stage, &mut self.stage);
        match stage {
            Stage::U32Value { key } => {
                let v = decode_u32(b.as_slice());
                self.entries.push(KvEntry { key, value: GgufValue::U32(v) });
                self.pos = Ghost(self.pos@ + 4);
                assert(entries_view(self.entries@) =~= entries_view(before.entries@).push(EntryView { key: key@, value: ValueView::U32(v) }));
                self.next_entry();
            },
            Stage::StrLen { key } => {
                let len = decode_u64(b.as_slice());
                self.pos = Ghost(self.pos@ + 8);
                self.stage = Stage::StrBytes { key, len };
            },
            Stage::StrBytes { key, len } => {
                let text = lossy_string(b.as_slice());
                let ghost tv = text@;
                self.entries.push(KvEntry { key, value: GgufValue::Str(text) });
                self.pos = Ghost(self.pos@ + len as int);
                assert(entries_view(self.entries@) =~= entries_view(before.entries@).push(EntryView { key: key@, value: ValueView::Str(tv) }));
                self.next_entry();
            },
            _ => {
                assert(false);
            },
        }
    }

    fn take_array(&mut self, b: Vec<u8>)
        requires
            old(self).stage is ElemType || old(self).stage is ElemCount || old(self).stage is ItemLen || old(self).stage is ItemBytes,
            old(self).pending() matches Request::Read(n) && b@.len() == n,
        ensures
            less_work(final(self).work(), old(self).work()),
            forall|f: Seq<u8>| #[trigger] read_at(f, old(self).position(), b@.len() as int) == Some(b@)
                ==> final(self).outcome(f) == old(self).outcome(f),
    {
        let ghost before = *self;
        let mut stage = Stage::Complete;
        std::mem::swap(&mut stage, &mut self.stage);
        match stage {
            Stage::ElemType => {
                let elem = decode_u32(b.as_slice());
                self.pos = Ghost(self.pos@ + 4);
                self.stage = Stage::ElemCount { elem };
            },
            Stage::ElemCount { elem } => {
                let count = decode_u64(b.as_slice());
                self.pos = Ghost(self.pos@ + 8);
                if elem == T_STRING {
                    if count == 0 {
                        self.next_entry();
                    } else {
                        self.stage = Stage::ItemLen { rest: count - 1 };
                    }
                } else {
                    match element_size(elem) {
                        Some(w) => match count.checked_mul(w) {
                            Some(p) => {
                                self.stage = Stage::Skip { delta: signed_offset(p) };
                            },
                            None => {
                                self.fail(GgufError::SizeOverflow);
                            },
                        },
                        None => {
                            self.fail(GgufError::UnknownArrayType(elem));
                        },
                    }
                }
            },
            Stage::ItemLen { rest } => {
                let len = decode_u64(b.as_slice());
                self.pos = Ghost(self.pos@ + 8);
                self.stage = Stage::ItemBytes { rest, len };
            },
            Stage::ItemBytes { rest, len } => {
                self.pos = Ghost(self.pos@ + len as int);
                if rest == 0 {
                    self.next_entry();
                } else {
                    self.stage = Stage::ItemLen { rest: rest - 1 };
                }
            },
            _ => {
                assert(false);
            },
        }
    }

    /// The result, once no more requests are pending: for every file content
    /// `f` for which the reader now holds, it is `outcome(f)`.
    pub fn finish(self) -> (res: Result<GgufHeader, GgufError>)
        requires
            self.pending() is Finished,
        ensures
            forall|f: Seq<u8>| #[trigger] self.outcome(f) == result_view(res),
            match self.failure() {
                Some(e) => res == Err::<GgufHeader, GgufError>(e),
                None => res is Ok,
            },
    {
        match self.stage {
            Stage::Failed { error } => Err(error),
            _ => Ok(GgufHeader { version: self.version, entries: self.entries }),
        }
    }

    fn fail(&mut self, error: GgufError)
        ensures
            forall|f: Seq<u8>| #[trigger] final(self).outcome(f) == Err::<HeaderView, Fault>(error@),
            final(self).pending() == Request::Finished,
            final(self).failure() == Some(error),
            final(self).work() == (0nat, 0nat),
    {
        self.stage = Stage::Failed { error };
    }
}

} // verus!
