//! Paging through the messages of a session file from its end: the cursor,
//! the chunks read backwards, the lines cut out of them, and the page that
//! results.
//!
//! The caller reads the chunk that `next_read` names and hands it to
//! `take_chunk`; then it asks `next_line` for lines, reads each as a message
//! (see `message_from_line`) and hands the result to `line_read`, until
//! `next_line` has no more; it starts over with `next_read` until that names
//! nothing, and `finish_page` gives the page.
use vstd::prelude::*;

use crate::error::{AppError, AppResult};
use crate::session_parse::CodexHistoryMessage;
use crate::text::{
    chars_of, decimal, decimal_string, is_ascii_digit, trim, trim_chars, trim_end, trim_start,
};

verus! {

/// Bytes read at a time, from the end of the file backwards.
pub const MESSAGE_READ_CHUNK_BYTES: u64 = 65536;

/// Bytes read at most for one page.
pub const MESSAGE_MAX_SCAN_BYTES: u64 = 67108864;

/// The longest unfinished line carried from one chunk to the next; a longer
/// one is dropped.
pub const MESSAGE_MAX_CARRY_BYTES: usize = 2097152;

/// A page of messages, oldest first, with the cursor of the older ones.
#[derive(Debug)]
pub struct CodexHistoryMessagesPage {
    pub messages: Vec<CodexHistoryMessage>,
    pub older_cursor: Option<String>,
    pub has_more: bool,
}

// ---------------------------------------------------------------------------
// The cursor
// ---------------------------------------------------------------------------

/// The value of a decimal number written with digits only.
pub open spec fn digits_value(s: Seq<char>) -> int
    decreases s.len(),
{
    if s.len() == 0 {
        0
    } else {
        digits_value(s.drop_last()) * 10 + (s.last() as int - '0' as int)
    }
}

pub open spec fn all_digits(s: Seq<char>) -> bool {
    forall|i: int| 0 <= i < s.len() ==> is_ascii_digit(#[trigger] s[i])
}

/// A byte offset as text: digits, with an optional leading `+`, that fit
/// in 64 bits.
pub open spec fn offset_value(s: Seq<char>) -> Option<u64> {
    let d = if s.len() > 0 && s[0] == '+' {
        s.drop_first()
    } else {
        s
    };
    if d.len() > 0 && all_digits(d) && digits_value(d) <= u64::MAX {
        Some(digits_value(d) as u64)
    } else {
        None
    }
}

/// Reads a byte offset (see `offset_value`).
pub fn parse_offset(s: &[char]) -> (r: Option<u64>)
    ensures
        r == offset_value(s@),
{
    let start: usize = if s.len() > 0 && s[0] == '+' { 1 } else { 0 };
    let ghost d = if s@.len() > 0 && s@[0] == '+' { s@.drop_first() } else { s@ };
    assert(d =~= s@.skip(start as int));
    if start >= s.len() {
        return None;
    }
    let mut value: u64 = 0;
    let mut i: usize = start;
    while i < s.len()
        invariant
            start <= i <= s@.len(),
            d =~= s@.skip(start as int),
            d == (if s@.len() > 0 && s@[0] == '+' {
                s@.drop_first()
            } else {
                s@
            }),
            d.len() > 0,
            all_digits(s@.subrange(start as int, i as int)),
            value as int == digits_value(s@.subrange(start as int, i as int)),
        decreases s@.len() - i,
    {
        let c = s[i];
        if !('0' <= c && c <= '9') {
            assert(!is_ascii_digit(d[i - start]));
            assert(!all_digits(d));
            return None;
        }
        let digit: u64 = ((c as u32) - ('0' as u32)) as u64;
        assert(s@.subrange(start as int, i + 1).drop_last() =~= s@.subrange(start as int, i as int));
        if value > (u64::MAX - digit) / 10 {
            proof {
                if all_digits(d) {
                    assert(s@.subrange(start as int, i + 1) =~= d.take(i + 1 - start));
                    assert(digits_value(s@.subrange(start as int, i + 1)) > u64::MAX) by (nonlinear_arith)
                        requires
                            digits_value(s@.subrange(start as int, i + 1)) == value * 10 + digit,
                            value > (u64::MAX - digit) / 10,
                            digit <= 9,
                    ;
                    lemma_digits_value_grows(s@.subrange(start as int, i + 1), d);
                }
            }
            return None;
        }
        value = value * 10 + digit;
        i = i + 1;
    }
    assert(s@.subrange(start as int, s@.len() as int) =~= d);
    Some(value)
}

proof fn lemma_digits_value_nonneg(s: Seq<char>)
    requires
        all_digits(s),
    ensures
        digits_value(s) >= 0,
    decreases s.len(),
{
    if s.len() > 0 {
        lemma_digits_value_nonneg(s.drop_last());
    }
}

/// A number only grows as digits are added.
proof fn lemma_digits_value_grows(p: Seq<char>, d: Seq<char>)
    requires
        p.len() <= d.len(),
        p =~= d.take(p.len() as int),
        all_digits(d),
    ensures
        digits_value(p) <= digits_value(d),
    decreases d.len() - p.len(),
{
    if p.len() < d.len() {
        let q = d.take(p.len() as int + 1);
        assert(q.drop_last() =~= p);
        assert(all_digits(p)) by {
            assert forall|i: int| 0 <= i < p.len() implies is_ascii_digit(#[trigger] p[i]) by {
                assert(p[i] == d[i]);
            }
        }
        lemma_digits_value_nonneg(p);
        assert(q.last() == d[p.len() as int]);
        assert(is_ascii_digit(q.last()));
        assert(digits_value(q) >= digits_value(p));
        assert(q =~= d.take(q.len() as int));
        lemma_digits_value_grows(q, d);
    } else {
        assert(p =~= d);
    }
}

/// Where a page starts: the offset the cursor gives (at most the file's
/// length), or the end of the file without a cursor.
pub open spec fn cursor_position(cursor: Option<Seq<char>>, file_len: u64) -> Option<u64> {
    match cursor {
        Some(raw) => if trim(raw).len() > 0 {
            match offset_value(trim(raw)) {
                Some(v) => Some(if v < file_len { v } else { file_len }),
                None => None,
            }
        } else {
            Some(file_len)
        },
        None => Some(file_len),
    }
}

/// The position a page starts from (see `cursor_position`); a cursor that
/// is not an offset is refused.
pub fn start_position(cursor: Option<&str>, file_len: u64) -> (r: AppResult<u64>)
    ensures
        match cursor_position(
            match cursor {
                Some(c) => Some(c@),
                None => None,
            },
            file_len,
        ) {
            Some(p) => r == Ok::<u64, AppError>(p),
            None => r matches Err(e) && e.code@ == "VALIDATION_ERROR"@ && e.message@
                == "cursor must be a valid byte offset"@ && e.detail_map() == map![
                "cursor"@ => cursor->Some_0@,
            ],
        },
{
    match cursor {
        Some(raw) => {
            let t = trim_chars(raw);
            if t.len() == 0 {
                return Ok(file_len);
            }
            match parse_offset(t.as_slice()) {
                Some(v) => Ok(if v < file_len { v } else { file_len }),
                None => Err(
                    AppError::validation("cursor must be a valid byte offset").with_detail("cursor", raw),
                ),
            }
        },
        None => Ok(file_len),
    }
}

// ---------------------------------------------------------------------------
// The scan
// ---------------------------------------------------------------------------

/// Where a scan stands: between chunks; cutting lines out of a chunk; with
/// a line handed out; with the file's first line handed out; or stopped
/// with a full page.
#[derive(Debug, Clone, Copy, PartialEq, Eq, Structural)]
pub enum ScanPhase {
    BetweenChunks,
    CuttingLines,
    LineHandedOut,
    FirstLineHandedOut,
    PageFull,
}

/// A scan of a session file from `position` backwards. `combined` is the
/// chunk being cut followed by the unfinished line carried from the chunk
/// after it; lines are cut from its end, down to `segment_end`. Messages
/// are recorded newest first, with their byte offsets.
#[derive(Debug)]
pub struct MessagePageScan {
    pub limit: usize,
    /// Where the page starts: every message of the page lies before it.
    pub start: u64,
    pub position: u64,
    pub carry: Vec<u8>,
    pub scanned: u64,
    pub messages: Vec<(u64, CodexHistoryMessage)>,
    pub earliest: u64,
    pub combined: Vec<u8>,
    pub chunk_start: u64,
    pub segment_end: usize,
    pub pending_offset: u64,
    pub phase: ScanPhase,
}

/// Whether every recorded offset is above `bound`.
pub open spec fn all_above(m: Seq<(u64, CodexHistoryMessage)>, bound: int) -> bool {
    forall|i: int| 0 <= i < m.len() ==> (#[trigger] m[i]).0 > bound
}

/// Whether every recorded offset is below `bound`.
pub open spec fn all_below(m: Seq<(u64, CodexHistoryMessage)>, bound: int) -> bool {
    forall|i: int| 0 <= i < m.len() ==> (#[trigger] m[i]).0 < bound
}

/// Whether the recorded offsets strictly decrease.
pub open spec fn newest_first(m: Seq<(u64, CodexHistoryMessage)>) -> bool {
    forall|i: int, j: int| 0 <= i < j < m.len() ==> (#[trigger] m[i]).0 > (#[trigger] m[j]).0
}

/// The last line break before `end`.
pub open spec fn last_newline(c: Seq<u8>, end: int) -> Option<int>
    decreases end,
{
    if end <= 0 {
        None
    } else if c[end - 1] == 10 {
        Some(end - 1)
    } else {
        last_newline(c, end - 1)
    }
}

/// Cutting lines from the end of `c[..end]`: the next non-empty line (its
/// start and end) and where cutting goes on; empty lines are passed over.
pub open spec fn scan_down(c: Seq<u8>, end: int) -> (Option<(int, int)>, int)
    decreases end,
{
    match last_newline(c, end) {
        None => (None, end),
        Some(idx) => if end > idx + 1 {
            (Some((idx + 1, end)), idx)
        } else if 0 <= idx < end {
            scan_down(c, idx)
        } else {
            (None, end)
        },
    }
}

proof fn lemma_last_newline(c: Seq<u8>, end: int)
    ensures
        last_newline(c, end) matches Some(idx) ==> 0 <= idx < end && c[idx] == 10,
        last_newline(c, end) is None ==> forall|k: int| 0 <= k < end ==> c[k] != 10,
    decreases end,
{
    if end > 0 && c[end - 1] != 10 {
        lemma_last_newline(c, end - 1);
    }
}

proof fn lemma_scan_down(c: Seq<u8>, end: int)
    requires
        0 <= end,
    ensures
        0 <= scan_down(c, end).1 <= end,
        scan_down(c, end).0 matches Some((a, b)) ==> 0 < a < b <= end && scan_down(c, end).1 == a - 1,
    decreases end,
{
    lemma_last_newline(c, end);
    if let Some(idx) = last_newline(c, end) {
        if end <= idx + 1 {
            lemma_scan_down(c, idx);
        }
    }
}

/// The chunk to read next: up to a chunk's worth of bytes before the
/// position, while the start of the file is not reached, the page is not
/// full and the scan budget is not spent.
pub open spec fn next_read_of(s: MessagePageScan) -> Option<(u64, u64)> {
    if s.phase == ScanPhase::BetweenChunks && s.position > 0 && s.messages@.len() < s.limit
        && s.scanned < MESSAGE_MAX_SCAN_BYTES {
        let n = if s.position < MESSAGE_READ_CHUNK_BYTES {
            s.position
        } else {
            MESSAGE_READ_CHUNK_BYTES
        };
        Some(((s.position - n) as u64, n))
    } else {
        None
    }
}

/// Whether the scan keeps its shape: cutting stays within the buffer, no
/// more bytes were scanned than lie between the position and the start,
/// messages are newest first and come before what is still to be cut, and
/// the page is not over full (and full when it says so).
pub open spec fn scan_wf(s: MessagePageScan) -> bool {
    &&& s.segment_end <= s.combined@.len()
    &&& s.chunk_start + s.combined@.len() <= s.start
    &&& s.position + s.carry@.len() <= s.start
    &&& all_below(s.messages@, s.start as int)
    &&& newest_first(s.messages@)
    &&& s.messages@.len() <= s.limit
    &&& s.messages@.len() > 0 ==> s.earliest == s.messages@.last().0
    &&& match s.phase {
        ScanPhase::BetweenChunks => s.scanned + s.position <= s.start && (s.position > 0
            ==> all_above(s.messages@, s.position + s.carry@.len())),
        ScanPhase::CuttingLines => s.scanned + s.chunk_start <= s.start && s.messages@.len() < s.limit
            && all_above(s.messages@, s.chunk_start + s.segment_end),
        ScanPhase::LineHandedOut => s.scanned + s.chunk_start <= s.start && s.messages@.len() < s.limit
            && s.pending_offset == s.chunk_start + s.segment_end + 1 && s.segment_end + 1
            < s.combined@.len() && all_above(s.messages@, s.pending_offset as int),
        ScanPhase::FirstLineHandedOut => s.scanned + s.chunk_start <= s.start && s.messages@.len()
            < s.limit && s.chunk_start == 0 && s.segment_end > 0 && all_above(s.messages@, 0),
        ScanPhase::PageFull => s.messages@.len() >= s.limit,
    }
}

fn copy_bytes(v: &Vec<u8>, from: usize, to: usize) -> (r: Vec<u8>)
    requires
        from <= to <= v@.len(),
    ensures
        r@ == v@.subrange(from as int, to as int),
{
    let mut out: Vec<u8> = Vec::new();
    let mut i: usize = from;
    while i < to
        invariant
            from <= i <= to <= v@.len(),
            out@ == v@.subrange(from as int, i as int),
        decreases to - i,
    {
        out.push(v[i]);
        assert(out@ =~= v@.subrange(from as int, i + 1));
        i = i + 1;
    }
    out
}

impl MessagePageScan {
    /// A scan that starts at `position` (see `start_position`) for at most
    /// `limit` messages.
    pub fn new(position: u64, limit: usize) -> (s: Self)
        ensures
            scan_wf(s),
            s.limit == limit,
            s.start == position,
            s.position == position,
            s.carry@.len() == 0,
            s.scanned == 0,
            s.messages@.len() == 0,
            s.earliest == position,
            s.phase == ScanPhase::BetweenChunks,
    {
        MessagePageScan {
            limit,
            start: position,
            position,
            carry: Vec::new(),
            scanned: 0,
            messages: Vec::new(),
            earliest: position,
            combined: Vec::new(),
            chunk_start: 0,
            segment_end: 0,
            pending_offset: 0,
            phase: ScanPhase::BetweenChunks,
        }
    }

    /// The start and length of the chunk to read next, if any (see
    /// `next_read_of`).
    pub fn next_read(&self) -> (r: Option<(u64, u64)>)
        ensures
            r == next_read_of(*self),
    {
        if self.phase == ScanPhase::BetweenChunks && self.position > 0 && self.messages.len() < self.limit
            && self.scanned < MESSAGE_MAX_SCAN_BYTES {
            let n: u64 = if self.position < MESSAGE_READ_CHUNK_BYTES {
                self.position
            } else {
                MESSAGE_READ_CHUNK_BYTES
            };
            Some((self.position - n, n))
        } else {
            None
        }
    }

    /// Takes the chunk that `next_read` named: the carried line is put
    /// after it and lines are cut from the end.
    pub fn take_chunk(&mut self, chunk: Vec<u8>)
        requires
            scan_wf(*old(self)),
            next_read_of(*old(self)) matches Some((start, n)) && chunk@.len() == n,
        ensures
            scan_wf(*final(self)),
            final(self).chunk_start == next_read_of(*old(self))->Some_0.0,
            final(self).scanned == old(self).scanned + chunk@.len(),
            final(self).combined@ == chunk@ + old(self).carry@,
            final(self).segment_end == final(self).combined@.len(),
            final(self).phase == ScanPhase::CuttingLines,
            final(self).position == old(self).position,
            final(self).carry == old(self).carry,
            final(self).messages == old(self).messages,
            final(self).earliest == old(self).earliest,
            final(self).limit == old(self).limit,
            final(self).start == old(self).start,
    {
        let n = chunk.len();
        let mut combined = chunk;
        let mut i: usize = 0;
        let ghost head = combined@;
        while i < self.carry.len()
            invariant
                i <= self.carry@.len(),
                combined@ == head + self.carry@.take(i as int),
                head.len() == n,
                n <= MESSAGE_READ_CHUNK_BYTES,
            decreases self.carry@.len() - i,
        {
            combined.push(self.carry[i]);
            assert(combined@ =~= head + self.carry@.take(i + 1));
            i = i + 1;
        }
        assert(self.carry@.take(self.carry@.len() as int) =~= self.carry@);
        self.chunk_start = self.position - n as u64;
        self.scanned = self.scanned + n as u64;
        self.segment_end = combined.len();
        self.combined = combined;
        self.phase = ScanPhase::CuttingLines;
    }

    /// The next line to read (its offset in the file and its bytes), if
    /// the chunk has more; when it has none, the unfinished line at its
    /// start is carried to the next chunk (dropped when too long), or at the
    /// start of the file handed out as the file's first line.
    pub fn next_line(&mut self) -> (r: Option<(u64, Vec<u8>)>)
        requires
            scan_wf(*old(self)),
            old(self).phase == ScanPhase::CuttingLines,
        ensures
            scan_wf(*final(self)),
            final(self).limit == old(self).limit,
            final(self).start == old(self).start,
            final(self).messages == old(self).messages,
            final(self).earliest == old(self).earliest,
            final(self).scanned == old(self).scanned,
            final(self).combined == old(self).combined,
            final(self).chunk_start == old(self).chunk_start,
            ({
                let (cut, end) = scan_down(old(self).combined@, old(self).segment_end as int);
                match cut {
                    Some((a, b)) => r matches Some((off, line)) && off == old(self).chunk_start + a
                        && line@ == old(self).combined@.subrange(a, b) && final(self).segment_end
                        == end && final(self).phase == ScanPhase::LineHandedOut && final(self).position
                        == old(self).position && final(self).carry == old(self).carry,
                    None => if old(self).chunk_start == 0 && end > 0 {
                        r matches Some((off, line)) && off == 0 && line@ == old(self).combined@.subrange(0, end) && final(self).segment_end == end && final(self).phase == ScanPhase::FirstLineHandedOut && final(self).position == old(self).position && final(self).carry == old(self).carry
                    } else {
                        r is None && final(self).segment_end == end && final(self).phase
                            == ScanPhase::BetweenChunks && final(self).position == old(self).chunk_start && final(self).carry@ == (if old(self).chunk_start > 0 && end
                            <= MESSAGE_MAX_CARRY_BYTES {
                            old(self).combined@.subrange(0, end)
                        } else {
                            Seq::empty()
                        })
                    },
                }
            }),
    {
        let ghost c = self.combined@;
        let ghost start_end = self.segment_end as int;
        proof {
            lemma_scan_down(c, start_end);
        }
        loop
            invariant
                scan_wf(*self),
                self.phase == ScanPhase::CuttingLines,
                self.combined@ == c,
                self.combined == old(self).combined,
                self.limit == old(self).limit,
                self.start == old(self).start,
                self.messages == old(self).messages,
                self.earliest == old(self).earliest,
                self.scanned == old(self).scanned,
                self.chunk_start == old(self).chunk_start,
                self.position == old(self).position,
                self.carry == old(self).carry,
                scan_down(c, start_end) == scan_down(c, self.segment_end as int),
                self.segment_end <= old(self).segment_end,
                start_end == old(self).segment_end,
                c == old(self).combined@,
            decreases self.segment_end,
        {
            proof {
                lemma_last_newline(c, self.segment_end as int);
                lemma_scan_down(c, self.segment_end as int);
            }
            let mut k: usize = self.segment_end;
            while k > 0 && self.combined[k - 1] != 10
                invariant
                    k <= self.segment_end <= self.combined@.len(),
                    self.combined@ == c,
                    last_newline(c, self.segment_end as int) == last_newline(c, k as int),
                decreases k,
            {
                k = k - 1;
            }
            if k == 0 {
                let end = self.segment_end;
                proof {
                    assert(last_newline(c, end as int) is None);
                    assert(scan_down(c, end as int) == (None::<(int, int)>, end as int));
                }
                if self.chunk_start == 0 {
                    if end > 0 {
                        self.phase = ScanPhase::FirstLineHandedOut;
                        let line = copy_bytes(&self.combined, 0, end);
                        return Some((0, line));
                    }
                    self.carry = Vec::new();
                } else if end <= MESSAGE_MAX_CARRY_BYTES {
                    self.carry = copy_bytes(&self.combined, 0, end);
                } else {
                    self.carry = Vec::new();
                }
                self.position = self.chunk_start;
                self.phase = ScanPhase::BetweenChunks;
                return None;
            }
            let idx = k - 1;
            let line_start = k;
            let end = self.segment_end;
            proof {
                assert(last_newline(c, k as int) == Some(idx as int));
                assert(last_newline(c, end as int) == Some(idx as int));
            }
            self.segment_end = idx;
            if end > line_start {
                proof {
                    assert(scan_down(c, end as int) == (Some((line_start as int, end as int)), idx as int));
                }
                let line = copy_bytes(&self.combined, line_start, end);
                self.pending_offset = self.chunk_start + line_start as u64;
                self.phase = ScanPhase::LineHandedOut;
                return Some((self.pending_offset, line));
            }
            proof {
                assert(scan_down(c, end as int) == scan_down(c, idx as int));
            }
        }
    }

    /// Records what the line handed out was read as: a message is recorded
    /// with the line's offset (the page is full once it has `limit` of
    /// them). After the file's first line, the scan is back between chunks
    /// at the start of the file.
    pub fn line_read(&mut self, message: Option<CodexHistoryMessage>)
        requires
            scan_wf(*old(self)),
            old(self).phase == ScanPhase::LineHandedOut || old(self).phase
                == ScanPhase::FirstLineHandedOut,
        ensures
            scan_wf(*final(self)),
            final(self).limit == old(self).limit,
            final(self).start == old(self).start,
            final(self).scanned == old(self).scanned,
            final(self).combined == old(self).combined,
            final(self).chunk_start == old(self).chunk_start,
            final(self).segment_end == old(self).segment_end,
            old(self).phase == ScanPhase::LineHandedOut ==> ({
                let off = old(self).pending_offset;
                &&& final(self).position == old(self).position
                &&& final(self).carry == old(self).carry
                &&& match message {
                    Some(m) => final(self).messages@ == old(self).messages@.push((off, m))
                        && final(self).earliest == off && final(self).phase == (if final(self).messages@.len() >= old(self).limit {
                        ScanPhase::PageFull
                    } else {
                        ScanPhase::CuttingLines
                    }),
                    None => final(self).messages == old(self).messages && final(self).earliest == old(self).earliest && final(self).phase == ScanPhase::CuttingLines,
                }
            }),
            old(self).phase == ScanPhase::FirstLineHandedOut ==> ({
                &&& final(self).position == old(self).chunk_start
                &&& final(self).carry@.len() == 0
                &&& final(self).phase == ScanPhase::BetweenChunks
                &&& match message {
                    Some(m) => final(self).messages@ == old(self).messages@.push((0u64, m))
                        && final(self).earliest == 0,
                    None => final(self).messages == old(self).messages && final(self).earliest == old(self).earliest,
                }
            }),
    {
        if self.phase == ScanPhase::LineHandedOut {
            match message {
                Some(m) => {
                    let off = self.pending_offset;
                    self.earliest = off;
                    self.messages.push((off, m));
                    if self.messages.len() >= self.limit {
                        self.phase = ScanPhase::PageFull;
                    } else {
                        self.phase = ScanPhase::CuttingLines;
                    }
                },
                None => {
                    self.phase = ScanPhase::CuttingLines;
                },
            }
        } else {
            match message {
                Some(m) => {
                    self.earliest = 0;
                    self.messages.push((0, m));
                },
                None => {},
            }
            self.carry = Vec::new();
            self.position = self.chunk_start;
            self.phase = ScanPhase::BetweenChunks;
        }
    }
}

/// Whether the page must offer older messages: the start of the file was
/// not reached.
pub open spec fn page_has_more(s: MessagePageScan) -> bool {
    !(s.position == 0 || s.earliest == 0)
}

/// The cursor of the older messages: the earliest message's offset (or
/// the position without messages), when there are more and it is not zero.
pub open spec fn page_cursor(s: MessagePageScan) -> Option<Seq<char>> {
    if page_has_more(s) {
        let off: u64 = if s.messages@.len() == 0 {
            s.position
        } else {
            s.earliest
        };
        if off > 0 {
            Some(decimal(off as nat))
        } else {
            None
        }
    } else {
        None
    }
}

/// The scan has ended: no chunk is left to read and no line is being cut.
pub open spec fn scan_finished(s: MessagePageScan) -> bool {
    next_read_of(s) is None && (s.phase == ScanPhase::BetweenChunks || s.phase == ScanPhase::PageFull)
}

/// The older cursor of a finished page (of a limit of at least one) names
/// an offset above zero and strictly below the page's start, so the page it
/// opens is never the same page again.
pub proof fn law_older_cursor_below_start(s: MessagePageScan)
    requires
        scan_wf(s),
        scan_finished(s),
        s.limit >= 1,
    ensures
        page_cursor(s) matches Some(c) ==> exists|off: u64|
            0 < off < s.start && c == #[trigger] decimal(off as nat),
{
    if page_has_more(s) {
        if s.messages@.len() == 0 {
            assert(s.phase == ScanPhase::BetweenChunks);
            assert(s.position > 0);
            assert(s.scanned >= MESSAGE_MAX_SCAN_BYTES);
            assert(s.position < s.start);
            if s.position > 0 {
                assert(page_cursor(s) == Some(decimal(s.position as nat)));
            }
        } else {
            let last = s.messages@.len() - 1;
            assert(s.messages@[last].0 < s.start);
            if s.earliest > 0 {
                assert(page_cursor(s) == Some(decimal(s.earliest as nat)));
            }
        }
    }
}

/// The page a finished scan gives: its messages oldest first, and whether
/// and where older ones follow.
pub fn finish_page(scan: MessagePageScan) -> (p: CodexHistoryMessagesPage)
    ensures
        p.has_more == page_has_more(scan),
        match p.older_cursor {
            Some(c) => page_cursor(scan) == Some(c@),
            None => page_cursor(scan) is None,
        },
        p.messages@.len() == scan.messages@.len(),
        scan_wf(scan) ==> p.messages@.len() <= scan.limit,
        scan_wf(scan) && scan_finished(scan) && scan.limit >= 1 ==> (p.older_cursor matches Some(c)
            ==> exists|off: u64| 0 < off < scan.start && c@ == #[trigger] decimal(off as nat)),
        forall|i: int|
            0 <= i < p.messages@.len() ==> #[trigger] p.messages@[i] == scan.messages@[scan.messages@.len()
                - 1 - i].1,
{
    proof {
        if scan_wf(scan) && scan_finished(scan) && scan.limit >= 1 {
            law_older_cursor_below_start(scan);
        }
    }
    let reached_start = scan.position == 0 || scan.earliest == 0;
    let has_more = !reached_start;
    let older_cursor = if has_more {
        let off: u64 = if scan.messages.len() == 0 {
            scan.position
        } else {
            scan.earliest
        };
        if off > 0 {
            Some(decimal_string(off))
        } else {
            None
        }
    } else {
        None
    };
    let MessagePageScan { messages, .. } = scan;
    let ghost all = messages@;
    let mut rest = messages;
    let mut out: Vec<CodexHistoryMessage> = Vec::new();
    while rest.len() > 0
        invariant
            rest@ == all.take(rest@.len() as int),
            out@.len() + rest@.len() == all.len(),
            forall|i: int| 0 <= i < out@.len() ==> #[trigger] out@[i] == all[all.len() - 1 - i].1,
        decreases rest@.len(),
    {
        let (_, m) = rest.pop().unwrap();
        assert(rest@ =~= all.take(rest@.len() as int));
        out.push(m);
    }
    CodexHistoryMessagesPage { messages: out, older_cursor, has_more }
}

/// A page holds no more messages than its limit, and only messages that
/// start before the page's own start, newest first, none before the
/// earliest one; so the page that its older cursor opens (which starts at
/// that earliest message) holds only older messages, and no message is on
/// both.
pub proof fn law_page_holds_only_older_messages(s: MessagePageScan)
    requires
        scan_wf(s),
    ensures
        s.messages@.len() <= s.limit,
        forall|i: int| 0 <= i < s.messages@.len() ==> (#[trigger] s.messages@[i]).0 < s.start,
        forall|i: int, j: int|
            0 <= i < j < s.messages@.len() ==> (#[trigger] s.messages@[i]).0 > (#[trigger] s.messages@[j]).0,
        forall|i: int| 0 <= i < s.messages@.len() ==> (#[trigger] s.messages@[i]).0 >= s.earliest,
{
    assert forall|i: int| 0 <= i < s.messages@.len() implies (#[trigger] s.messages@[i]).0 >= s.earliest by {
        let n = s.messages@.len() - 1;
        if i < n {
            assert(s.messages@[i].0 > s.messages@[n].0);
        }
    }
}

/// The decimal text of a number is all digits, and reads back as the number.
proof fn lemma_decimal_digits(n: nat)
    ensures
        decimal(n).len() > 0,
        all_digits(decimal(n)),
        digits_value(decimal(n)) == n,
    decreases n,
{
    if n < 10 {
        let c = ((48 + n) as u8) as char;
        assert(c as int == 48 + n);
        assert(decimal(n).drop_last() =~= Seq::<char>::empty());
        assert(decimal(n)[0] == c);
        assert(is_ascii_digit(c));
        assert(decimal(n).last() == c);
        assert(digits_value(decimal(n)) == digits_value(decimal(n).drop_last()) * 10 + (c as int - '0' as int));
    } else {
        lemma_decimal_digits(n / 10);
        let c = ((48 + n % 10) as u8) as char;
        assert(c as int == 48 + n % 10);
        assert(decimal(n).drop_last() =~= decimal(n / 10));
        assert(decimal(n).last() == c);
        assert(is_ascii_digit(c));
        assert(digits_value(decimal(n)) == digits_value(decimal(n / 10)) * 10 + (c as int - '0' as int));
        assert((n / 10) * 10 + n % 10 == n) by (nonlinear_arith);
        assert(all_digits(decimal(n))) by {
            assert forall|i: int| 0 <= i < decimal(n).len() implies is_ascii_digit(#[trigger] decimal(n)[i]) by {
                if i < decimal(n).len() - 1 {
                    assert(decimal(n)[i] == decimal(n / 10)[i]);
                }
            }
        }
    }
}

/// The older cursor a page hands out, given back as the cursor, starts the
/// next page at that offset: the earliest message of the page before.
pub proof fn law_cursor_round_trip(offset: u64, file_len: u64)
    requires
        offset <= file_len,
    ensures
        cursor_position(Some(decimal(offset as nat)), file_len) == Some(offset),
{
    let d = decimal(offset as nat);
    lemma_decimal_digits(offset as nat);
    assert(is_ascii_digit(d[0]));
    assert(is_ascii_digit(d.last()));
    assert(trim_start(d) == d);
    assert(trim_end(d) == d);
    assert(offset_value(d) == Some(offset));
}

} // verus!
