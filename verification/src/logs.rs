//! Server log lines: their level and the bounded log buffer.
use vstd::prelude::*;
use crate::text::{chars_of, has_prefix, is_space, skip_space, starts_with, trim_start};

verus! {

/// Most log entries kept.
pub const MAX_LOGS: usize = 10000;

/// One server log line.
pub struct LogEntry {
    pub ts: i64,
    pub level: String,
    pub line: String,
}

/// The level of a llama.cpp log line, from the start of the line without
/// leading whitespace: `E`, `[E]` or `ERROR` is an error; then `W`, `[W]` or
/// `WARN` a warning; then `D`, `[D]` or `DEBUG` debug output; anything else info.
pub open spec fn line_level(line: Seq<char>) -> Seq<char> {
    let t = trim_start(line);
    if starts_with(t, "E"@) || starts_with(t, "[E]"@) || starts_with(t, "ERROR"@) {
        "error"@
    } else if starts_with(t, "W"@) || starts_with(t, "[W]"@) || starts_with(t, "WARN"@) {
        "warn"@
    } else if starts_with(t, "D"@) || starts_with(t, "[D]"@) || starts_with(t, "DEBUG"@) {
        "debug"@
    } else {
        "info"@
    }
}

fn starts(v: &Vec<char>, lo: usize, p: &str) -> (b: bool)
    requires
        lo <= v@.len(),
    ensures
        b == starts_with(v@.subrange(lo as int, v@.len() as int), p@),
{
    let pat = chars_of(p);
    has_prefix(v, lo, v.len(), &pat)
}

/// The level of a log line (see `line_level`).
pub fn parse_level(line: &str) -> (level: &'static str)
    ensures
        level@ == line_level(line@),
{
    let v = chars_of(line);
    let a = skip_space(&v, 0, v.len());
    assert(v@.subrange(0, v@.len() as int) =~= v@);
    if starts(&v, a, "E") || starts(&v, a, "[E]") || starts(&v, a, "ERROR") {
        "error"
    } else if starts(&v, a, "W") || starts(&v, a, "[W]") || starts(&v, a, "WARN") {
        "warn"
    } else if starts(&v, a, "D") || starts(&v, a, "[D]") || starts(&v, a, "DEBUG") {
        "debug"
    } else {
        "info"
    }
}

/// A log entry for `line` received at time `ts`, with its level.
pub fn log_entry(ts: i64, line: String) -> (e: LogEntry)
    ensures
        e.ts == ts,
        e.line == line,
        e.level@ == line_level(line@),
{
    let level = String::from_str(parse_level(line.as_str()));
    LogEntry { ts, level, line }
}

/// The buffer after storing `entry`: when full, the oldest entry gives way.
pub open spec fn stored(logs: Seq<LogEntry>, entry: LogEntry) -> Seq<LogEntry> {
    (if logs.len() >= MAX_LOGS { logs.drop_first() } else { logs }).push(entry)
}

/// Stores `entry` at the end of the log buffer; when the buffer holds
/// `MAX_LOGS` entries or more, the oldest one is dropped first.
pub fn push_log(logs: &mut Vec<LogEntry>, entry: LogEntry)
    ensures
        final(logs)@ == stored(old(logs)@, entry),
{
    if logs.len() >= MAX_LOGS {
        logs.remove(0);
        assert(logs@ =~= old(logs)@.drop_first());
    }
    logs.push(entry);
}

/// The log buffer never grows past `MAX_LOGS`, and its newest entry is the
/// one stored last, after the entries kept before it in their order.
pub proof fn log_buffer_bounded(logs: Seq<LogEntry>, entry: LogEntry)
    requires
        logs.len() <= MAX_LOGS,
    ensures
        stored(logs, entry).len() <= MAX_LOGS,
        stored(logs, entry).last() == entry,
        stored(logs, entry).drop_last() == if logs.len() == MAX_LOGS { logs.drop_first() } else { logs },
{
    assert(stored(logs, entry).drop_last() =~= if logs.len() == MAX_LOGS { logs.drop_first() } else { logs });
}

/// The buffer after storing `entries` one after the other.
pub open spec fn stored_all(logs: Seq<LogEntry>, entries: Seq<LogEntry>) -> Seq<LogEntry>
    decreases entries.len(),
{
    if entries.len() == 0 {
        logs
    } else {
        stored(stored_all(logs, entries.drop_last()), entries.last())
    }
}

/// Over a run of log lines, the buffer holds the most recent of all the
/// entries, the earlier ones followed by the new ones in arrival order: the
/// last `MAX_LOGS` of them once there are more, all of them before.
pub proof fn log_buffer_keeps_latest(logs: Seq<LogEntry>, entries: Seq<LogEntry>)
    requires
        logs.len() <= MAX_LOGS,
    ensures
        stored_all(logs, entries) == (logs + entries).skip(
            if logs.len() + entries.len() > MAX_LOGS { logs.len() + entries.len() - MAX_LOGS } else { 0 },
        ),
        stored_all(logs, entries).len() <= MAX_LOGS,
    decreases entries.len(),
{
    if entries.len() > 0 {
        let rest = entries.drop_last();
        let e = entries.last();
        log_buffer_keeps_latest(logs, rest);
        let all = logs + entries;
        let before = logs + rest;
        assert(before =~= all.drop_last());
        let n = all.len() as int;
        let k0: int = if n - 1 > MAX_LOGS { n - 1 - MAX_LOGS } else { 0 };
        let prev = stored_all(logs, rest);
        assert(prev == before.skip(k0));
        if n - 1 >= MAX_LOGS {
            assert(prev.len() == MAX_LOGS);
            assert(prev.drop_first().push(e) =~= all.skip(k0 + 1));
        } else {
            assert(prev =~= before);
            assert(prev.push(e) =~= all.skip(0));
        }
    }
}

proof fn lemma_trim_leading_spaces(ws: Seq<char>, rest: Seq<char>)
    requires
        forall|i: int| 0 <= i < ws.len() ==> is_space(#[trigger] ws[i]),
        rest.len() == 0 || !is_space(rest[0]),
    ensures
        trim_start(ws + rest) == rest,
    decreases ws.len(),
{
    if ws.len() == 0 {
        assert(ws + rest =~= rest);
    } else {
        assert((ws + rest)[0] == ws[0]);
        assert((ws + rest).drop_first() =~= ws.drop_first() + rest);
        assert forall|i: int| 0 <= i < ws.drop_first().len() implies is_space(#[trigger] ws.drop_first()[i]) by {
            assert(ws.drop_first()[i] == ws[i + 1]);
        }
        lemma_trim_leading_spaces(ws.drop_first(), rest);
    }
}

proof fn lemma_starts_with_chars(t: Seq<char>, p: Seq<char>)
    ensures
        starts_with(t, p) <==> (p.len() <= t.len() && forall|i: int| 0 <= i < p.len() ==> #[trigger] t[i] == p[i]),
{
    if p.len() <= t.len() && forall|i: int| 0 <= i < p.len() ==> #[trigger] t[i] == p[i] {
        assert(t.take(p.len() as int) =~= p);
    }
    if starts_with(t, p) {
        assert forall|i: int| 0 <= i < p.len() implies #[trigger] t[i] == p[i] by {
            assert(t.take(p.len() as int)[i] == t[i]);
        }
    }
}

/// The level of a log line is read from its first characters after any
/// leading whitespace: `E` or `[E]` is an error; otherwise `W` or `[W]` a
/// warning; otherwise `D` or `[D]` debug output; anything else (an empty
/// line too) is info.  (`ERROR`, `WARN` and `DEBUG` start with those letters.)
pub proof fn log_level_markers(ws: Seq<char>, rest: Seq<char>)
    requires
        forall|i: int| 0 <= i < ws.len() ==> is_space(#[trigger] ws[i]),
        rest.len() == 0 || !is_space(rest[0]),
    ensures
        ({
            let e = (rest.len() >= 1 && rest[0] == 'E')
                || (rest.len() >= 3 && rest[0] == '[' && rest[1] == 'E' && rest[2] == ']');
            let w = (rest.len() >= 1 && rest[0] == 'W')
                || (rest.len() >= 3 && rest[0] == '[' && rest[1] == 'W' && rest[2] == ']');
            let d = (rest.len() >= 1 && rest[0] == 'D')
                || (rest.len() >= 3 && rest[0] == '[' && rest[1] == 'D' && rest[2] == ']');
            &&& e ==> line_level(ws + rest) == "error"@
            &&& !e && w ==> line_level(ws + rest) == "warn"@
            &&& !e && !w && d ==> line_level(ws + rest) == "debug"@
            &&& !e && !w && !d ==> line_level(ws + rest) == "info"@
        }),
{
    lemma_trim_leading_spaces(ws, rest);
    reveal_strlit("E");
    reveal_strlit("[E]");
    reveal_strlit("ERROR");
    reveal_strlit("W");
    reveal_strlit("[W]");
    reveal_strlit("WARN");
    reveal_strlit("D");
    reveal_strlit("[D]");
    reveal_strlit("DEBUG");
    lemma_starts_with_chars(rest, "E"@);
    lemma_starts_with_chars(rest, "[E]"@);
    lemma_starts_with_chars(rest, "ERROR"@);
    lemma_starts_with_chars(rest, "W"@);
    lemma_starts_with_chars(rest, "[W]"@);
    lemma_starts_with_chars(rest, "WARN"@);
    lemma_starts_with_chars(rest, "D"@);
    lemma_starts_with_chars(rest, "[D]"@);
    lemma_starts_with_chars(rest, "DEBUG"@);
    assert(("E"@)[0] == 'E');
    assert(("ERROR"@)[0] == 'E');
    assert(("[E]"@)[0] == '[' && ("[E]"@)[1] == 'E' && ("[E]"@)[2] == ']');
    assert(("W"@)[0] == 'W');
    assert(("WARN"@)[0] == 'W');
    assert(("[W]"@)[0] == '[' && ("[W]"@)[1] == 'W' && ("[W]"@)[2] == ']');
    assert(("D"@)[0] == 'D');
    assert(("DEBUG"@)[0] == 'D');
    assert(("[D]"@)[0] == '[' && ("[D]"@)[1] == 'D' && ("[D]"@)[2] == ']');
}

} // verus!
