//! Launch at login on Windows: the command line written under the `Run`
//! registry key, how registry strings are encoded and read back, and the
//! Task Manager approval state.
//!
//! The registry itself is read and written by the caller; these functions
//! decide what to write and what the values read mean.
use vstd::prelude::*;

use crate::error::{lemma_detail_keys_distinct, AppError, AppResult};
use crate::text::{
    chars_of, decimal, decimal_string, is_ws, is_ws_char, lower, lower_chars, lower_char_exec,
    push_char, string_from, trim, trim_chars, trim_end, trim_slice, trim_start, utf16_len, contains,
    contains_chars,
};

verus! {

pub const REG_SZ: u32 = 1;

pub const REG_EXPAND_SZ: u32 = 2;

pub const REG_BINARY: u32 = 3;

pub const MAX_RUN_COMMAND_UTF16_UNITS: usize = 260;

pub const MAX_REGISTRY_VALUE_BYTES: u32 = 65536;

pub const RUN_KEY: &'static str = "SOFTWARE\\Microsoft\\Windows\\CurrentVersion\\Run";

pub const STARTUP_APPROVED_RUN_KEY: &'static str =
    "SOFTWARE\\Microsoft\\Windows\\CurrentVersion\\Explorer\\StartupApproved\\Run";

pub const AUTOSTART_ARGS: [&'static str; 1] = ["--autostart"];

/// The `StartupApproved` value that Task Manager writes for an enabled entry.
pub const TASK_MANAGER_ENABLED_VALUE: [u8; 12] = [
    0x02u8,
    0x00u8,
    0x00u8,
    0x00u8,
    0x00u8,
    0x00u8,
    0x00u8,
    0x00u8,
    0x00u8,
    0x00u8,
    0x00u8,
    0x00u8,
];

/// A registry value: its type and raw bytes.
pub struct RegistryValueSnapshot {
    pub value_type: u32,
    pub bytes: Vec<u8>,
}

// ---------------------------------------------------------------------------
// Command lines
// ---------------------------------------------------------------------------

pub open spec fn backslashes(n: nat) -> Seq<char> {
    Seq::new(n, |i: int| '\\')
}

/// The quoting state after the first `k` characters: the text emitted so
/// far and the number of backslashes not yet emitted.
pub open spec fn quote_arg_state(s: Seq<char>, k: int) -> (Seq<char>, nat)
    decreases k,
{
    if k <= 0 {
        (Seq::empty(), 0)
    } else {
        let (out, pending) = quote_arg_state(s, k - 1);
        let c = s[k - 1];
        if c == '\\' {
            (out, pending + 1)
        } else if c == '"' {
            (out + backslashes(2 * pending + 1) + seq!['"'], 0)
        } else {
            (out + backslashes(pending) + seq![c], 0)
        }
    }
}

/// A command-line argument quoted for Windows: in quotes, each quote
/// escaped with a backslash, and backslashes doubled where they precede a
/// quote (including the closing one).
pub open spec fn quoted_arg(s: Seq<char>) -> Seq<char> {
    let (out, pending) = quote_arg_state(s, s.len() as int);
    seq!['"'] + out + backslashes(2 * pending) + seq!['"']
}

fn push_backslashes(out: &mut Vec<char>, n: usize)
    ensures
        final(out)@ == old(out)@ + backslashes(n as nat),
{
    let ghost start = out@;
    let mut i: usize = 0;
    while i < n
        invariant
            i <= n,
            out@ == start + backslashes(i as nat),
        decreases n - i,
    {
        out.push('\\');
        assert(start + backslashes((i + 1) as nat) =~= (start + backslashes(i as nat)).push('\\'));
        i = i + 1;
    }
}

pub fn quote_windows_command_arg(value: &str) -> (r: String)
    ensures
        r@ == quoted_arg(value@),
{
    let chars = chars_of(value);
    let mut out: Vec<char> = Vec::new();
    let mut pending: usize = 0;
    let mut i: usize = 0;
    while i < chars.len()
        invariant
            i <= chars@.len(),
            chars@ == value@,
            pending <= i,
            (out@, pending as nat) == quote_arg_state(chars@, i as int),
        decreases chars@.len() - i,
    {
        let c = chars[i];
        if c == '\\' {
            pending = pending + 1;
        } else if c == '"' {
            push_backslashes(&mut out, pending);
            push_backslashes(&mut out, pending);
            out.push('\\');
            out.push('"');
            assert(backslashes(pending as nat) + backslashes(pending as nat) + seq!['\\']
                =~= backslashes(2 * pending as nat + 1));
            pending = 0;
        } else {
            push_backslashes(&mut out, pending);
            out.push(c);
            pending = 0;
        }
        i = i + 1;
    }
    let mut quoted: Vec<char> = Vec::new();
    quoted.push('"');
    crate::text::extend_chars(&mut quoted, out.as_slice());
    push_backslashes(&mut quoted, pending);
    push_backslashes(&mut quoted, pending);
    quoted.push('"');
    assert(backslashes(pending as nat) + backslashes(pending as nat) =~= backslashes(2 * pending as nat));
    assert(quoted@ =~= quoted_arg(value@));
    string_from(quoted.as_slice())
}

/// How a Windows program splits its command line into arguments (the
/// rules of `CommandLineToArgvW` and the Microsoft C runtime), reading `s`
/// with quoting on or off, the argument so far, the backslashes not yet
/// placed, whether an argument has begun, and the arguments before it.
/// Backslashes count only before a quote: `2n` of them and a quote give `n`
/// backslashes and open or close quoting, `2n + 1` give `n` backslashes and
/// a literal quote. Inside quotes, two quotes give a literal quote. Outside
/// quotes, spaces and tabs end an argument.
pub open spec fn argv_scan(
    s: Seq<char>,
    in_quotes: bool,
    cur: Seq<char>,
    pending: nat,
    started: bool,
    acc: Seq<Seq<char>>,
) -> Seq<Seq<char>>
    decreases s.len(),
{
    if s.len() == 0 {
        if started {
            acc.push(cur + backslashes(pending))
        } else {
            acc
        }
    } else {
        let c = s[0];
        let t = s.drop_first();
        if c == '\\' {
            argv_scan(t, in_quotes, cur, pending + 1, true, acc)
        } else if c == '"' {
            if pending % 2 == 1 {
                argv_scan(t, in_quotes, cur + backslashes(pending / 2) + seq!['"'], 0, true, acc)
            } else if in_quotes && t.len() > 0 && t[0] == '"' {
                argv_scan(t.drop_first(), in_quotes, cur + backslashes(pending / 2) + seq!['"'], 0, true, acc)
            } else {
                argv_scan(t, !in_quotes, cur + backslashes(pending / 2), 0, true, acc)
            }
        } else if !in_quotes && (c == ' ' || c == '\t') {
            argv_scan(
                t,
                false,
                Seq::empty(),
                0,
                false,
                if started {
                    acc.push(cur + backslashes(pending))
                } else {
                    acc
                },
            )
        } else {
            argv_scan(t, in_quotes, cur + backslashes(pending) + seq![c], 0, true, acc)
        }
    }
}

/// The arguments a Windows program reads from a command line.
pub open spec fn windows_argv(s: Seq<char>) -> Seq<Seq<char>> {
    argv_scan(s, false, Seq::empty(), 0, false, Seq::empty())
}

/// Backslashes only add to those not yet placed.
proof fn lemma_scan_backslashes(
    m: nat,
    t: Seq<char>,
    in_quotes: bool,
    cur: Seq<char>,
    pending: nat,
    acc: Seq<Seq<char>>,
)
    ensures
        argv_scan(backslashes(m) + t, in_quotes, cur, pending, true, acc) == argv_scan(
            t,
            in_quotes,
            cur,
            pending + m,
            true,
            acc,
        ),
    decreases m,
{
    if m > 0 {
        let s = backslashes(m) + t;
        assert(s[0] == '\\');
        assert(s.drop_first() =~= backslashes((m - 1) as nat) + t);
        lemma_scan_backslashes((m - 1) as nat, t, in_quotes, cur, pending + 1, acc);
    } else {
        assert(backslashes(0) + t =~= t);
    }
}

/// Inside quotes, the text quoting emits for the first `k` characters reads
/// back as those characters, save the trailing backslashes still held back.
proof fn lemma_scan_quoted_prefix(
    v: Seq<char>,
    k: int,
    t: Seq<char>,
    cur: Seq<char>,
    acc: Seq<Seq<char>>,
)
    requires
        0 <= k <= v.len(),
    ensures
        quote_arg_state(v, k).1 <= k,
        v.take(k) == v.take(k - quote_arg_state(v, k).1) + backslashes(quote_arg_state(v, k).1),
        argv_scan(quote_arg_state(v, k).0 + t, true, cur, 0, true, acc) == argv_scan(
            t,
            true,
            cur + v.take(k - quote_arg_state(v, k).1),
            0,
            true,
            acc,
        ),
    decreases k,
{
    if k == 0 {
        assert(quote_arg_state(v, 0).0 + t =~= t);
        assert(v.take(0) =~= Seq::<char>::empty());
        assert(cur + Seq::<char>::empty() =~= cur);
        assert(Seq::<char>::empty() + backslashes(0) =~= Seq::<char>::empty());
    } else {
        let (out, p) = quote_arg_state(v, k - 1);
        let c = v[k - 1];
        let d = v.take(k - 1 - p);
        assert(v.take(k) =~= v.take(k - 1).push(c));
        if c == '\\' {
            assert(quote_arg_state(v, k) == (out, p + 1));
            lemma_scan_quoted_prefix(v, k - 1, t, cur, acc);
            assert(backslashes(p + 1) =~= backslashes(p).push('\\'));
            assert(v.take(k) =~= d + backslashes(p + 1));
            assert(k - (p + 1) == k - 1 - p);
        } else if c == '"' {
            let x = backslashes(2 * p + 1) + seq!['"'];
            assert(quote_arg_state(v, k) == (out + x, 0nat));
            lemma_scan_quoted_prefix(v, k - 1, x + t, cur, acc);
            let y = seq!['"'] + t;
            assert(out + x + t == out + (x + t));
            assert(x + t == backslashes(2 * p + 1) + y);
            lemma_scan_backslashes(2 * p + 1, y, true, cur + d, 0, acc);
            assert(y[0] == '"');
            assert(y.drop_first() == t);
            assert((2 * p + 1) as nat % 2 == 1);
            assert(((2 * p + 1) as nat) / 2 == p);
            assert(argv_scan(y, true, cur + d, (0 + (2 * p + 1)) as nat, true, acc) == argv_scan(
                t,
                true,
                cur + d + backslashes(p) + seq!['"'],
                0,
                true,
                acc,
            ));
            assert(cur + d + backslashes(p) + seq!['"'] == cur + v.take(k));
            assert(v.take(k) == v.take(k) + backslashes(0));
        } else {
            let x = backslashes(p) + seq![c];
            assert(quote_arg_state(v, k) == (out + x, 0nat));
            lemma_scan_quoted_prefix(v, k - 1, x + t, cur, acc);
            let y = seq![c] + t;
            assert(out + x + t == out + (x + t));
            assert(x + t == backslashes(p) + y);
            lemma_scan_backslashes(p, y, true, cur + d, 0, acc);
            assert(y[0] == c);
            assert(y.drop_first() == t);
            assert(argv_scan(y, true, cur + d, (0 + p) as nat, true, acc) == argv_scan(
                t,
                true,
                cur + d + backslashes(p) + seq![c],
                0,
                true,
                acc,
            ));
            assert(cur + d + backslashes(p) + seq![c] == cur + v.take(k));
            assert(v.take(k) == v.take(k) + backslashes(0));
        }
    }
}

/// A quoted argument starts and ends with a double quote, and reads back,
/// by the Windows rules, as exactly the one argument it was made from.
pub proof fn law_quoted_arg_reads_back(v: Seq<char>)
    ensures
        quoted_arg(v)[0] == '"',
        quoted_arg(v).last() == '"',
        windows_argv(quoted_arg(v)) == seq![v],
{
    lemma_quoted_ends(v);
    let n = v.len() as int;
    let (out, p) = quote_arg_state(v, n);
    let tail = backslashes(2 * p) + seq!['"'];
    let q = quoted_arg(v);
    let e = Seq::<char>::empty();
    let none = Seq::<Seq<char>>::empty();
    assert(q == seq!['"'] + (out + tail));
    assert(q[0] == '"');
    assert(q.drop_first() == out + tail);
    assert(e + backslashes(0) == e);
    assert(windows_argv(q) == argv_scan(out + tail, true, e, 0, true, none));
    lemma_scan_quoted_prefix(v, n, tail, e, none);
    let d = v.take(n - p);
    assert(e + d == d);
    lemma_scan_backslashes(2 * p, seq!['"'], true, d, 0, none);
    let z = seq!['"'];
    assert(z[0] == '"');
    assert(z.drop_first() == e);
    assert(((2 * p) as nat) % 2 == 0);
    assert(((2 * p) as nat) / 2 == p);
    assert(argv_scan(z, true, d, (0 + 2 * p) as nat, true, none) == argv_scan(
        e,
        false,
        d + backslashes(p),
        0,
        true,
        none,
    ));
    assert(argv_scan(e, false, d + backslashes(p), 0, true, none) == none.push(
        d + backslashes(p) + backslashes(0),
    ));
    assert(v.take(n) == v);
    assert(d + backslashes(p) + backslashes(0) == v);
    assert(none.push(v) == seq![v]);
}

/// The executable path and each argument, quoted, separated by spaces.
pub open spec fn run_command_line(app_path: Seq<char>, args: Seq<Seq<char>>) -> Seq<char>
    decreases args.len(),
{
    if args.len() == 0 {
        quoted_arg(app_path)
    } else {
        run_command_line(app_path, args.drop_last()) + seq![' '] + quoted_arg(args.last())
    }
}

pub open spec fn str_views(v: Seq<&str>) -> Seq<Seq<char>> {
    v.map_values(|s: &str| s@)
}

pub fn build_registry_run_command_line(app_path: &str, args: &[&str]) -> (r: String)
    ensures
        r@ == run_command_line(app_path@, str_views(args@)),
{
    let first = quote_windows_command_arg(app_path);
    let mut out = chars_of(first.as_str());
    let ghost views = str_views(args@);
    let mut i: usize = 0;
    while i < args.len()
        invariant
            i <= args@.len(),
            views == str_views(args@),
            out@ == run_command_line(app_path@, views.take(i as int)),
        decreases args@.len() - i,
    {
        out.push(' ');
        let q = quote_windows_command_arg(args[i]);
        crate::text::extend_str(&mut out, q.as_str());
        assert(views.take(i + 1).drop_last() =~= views.take(i as int));
        i = i + 1;
    }
    assert(views.take(args@.len() as int) =~= views);
    string_from(out.as_slice())
}

/// Index of the closing quote of a quoted executable path that starts at
/// `i`; a backslash keeps the next character from closing it.
pub open spec fn closing_quote(s: Seq<char>, i: int, escaped: bool) -> Option<int>
    decreases s.len() - i,
{
    if i < 0 || i >= s.len() {
        None
    } else if escaped {
        closing_quote(s, i + 1, false)
    } else if s[i] == '\\' {
        closing_quote(s, i + 1, true)
    } else if s[i] == '"' {
        Some(i)
    } else {
        closing_quote(s, i + 1, false)
    }
}

/// `.exe` (ignoring ASCII case) ends at `i + 4`, followed by whitespace or
/// the end of the text.
pub open spec fn exe_ends_at(t: Seq<char>, i: int) -> bool {
    &&& 0 <= i && i + 4 <= t.len()
    &&& lower(t.subrange(i, i + 4)) == ".exe"@
    &&& (i + 4 == t.len() || is_ws(t[i + 4]))
}

/// The first position at or after `from` where `.exe` ends a word.
pub open spec fn first_exe_end(t: Seq<char>, from: int) -> Option<int>
    decreases t.len() - from,
{
    if from < 0 || from + 4 > t.len() {
        None
    } else if exe_ends_at(t, from) {
        Some(from)
    } else {
        first_exe_end(t, from + 1)
    }
}

/// Index of the first whitespace character of `t`, or its length.
pub open spec fn first_ws(t: Seq<char>, from: int) -> int
    decreases t.len() - from,
{
    if from < 0 || from >= t.len() {
        t.len() as int
    } else if is_ws(t[from]) {
        from
    } else {
        first_ws(t, from + 1)
    }
}

/// The executable that a `Run` command line starts: the quoted path when
/// it starts with a quote; else the text up to the first `.exe` that ends
/// a word; else the first word.
pub open spec fn command_executable(command_line: Seq<char>) -> Option<Seq<char>> {
    let t = trim(command_line);
    if t.len() == 0 {
        None
    } else if t[0] == '"' {
        match closing_quote(t, 1, false) {
            Some(j) => Some(t.subrange(1, j)),
            None => None,
        }
    } else {
        match first_exe_end(t, 0) {
            Some(i) => Some(trim(t.take(i + 4))),
            None => Some(t.take(first_ws(t, 0))),
        }
    }
}

/// Whether `s` holds a double quote.
pub open spec fn has_quote(s: Seq<char>) -> bool {
    exists|i: int| 0 <= i < s.len() && s[i] == '"'
}

/// Without quotes, quoting emits the text itself, holding back only the
/// trailing backslashes.
proof fn lemma_quote_state_plain(s: Seq<char>, k: int)
    requires
        0 <= k <= s.len(),
        !has_quote(s),
    ensures
        quote_arg_state(s, k).0 + backslashes(quote_arg_state(s, k).1) == s.take(k),
        k > 0 && s[k - 1] != '\\' ==> quote_arg_state(s, k).1 == 0,
    decreases k,
{
    if k > 0 {
        lemma_quote_state_plain(s, k - 1);
        let (out, pending) = quote_arg_state(s, k - 1);
        let c = s[k - 1];
        assert(c != '"');
        assert(s.take(k) =~= s.take(k - 1).push(c));
        if c == '\\' {
            assert(backslashes(pending + 1) =~= backslashes(pending).push('\\'));
            assert(out + backslashes(pending + 1) =~= (out + backslashes(pending)).push('\\'));
        } else {
            assert(backslashes(0) =~= Seq::<char>::empty());
            assert(out + backslashes(pending) + seq![c] + backslashes(0) =~= (out + backslashes(pending)).push(c));
        }
    } else {
        assert(backslashes(0) =~= Seq::<char>::empty());
        assert(s.take(0) =~= Seq::<char>::empty());
    }
}

/// A path without quotes that does not end with a backslash is quoted by
/// just putting it in quotes.
proof fn lemma_quoted_plain(p: Seq<char>)
    requires
        !has_quote(p),
        p.len() == 0 || p.last() != '\\',
    ensures
        quoted_arg(p) == seq!['"'] + p + seq!['"'],
{
    lemma_quote_state_plain(p, p.len() as int);
    assert(p.take(p.len() as int) =~= p);
    assert(backslashes(0) =~= Seq::<char>::empty());
    assert(quote_arg_state(p, p.len() as int).0 =~= p);
}

/// A quoted argument ends with a quote.
proof fn lemma_quoted_ends(s: Seq<char>)
    ensures
        quoted_arg(s).len() >= 2,
        quoted_arg(s)[0] == '"',
        quoted_arg(s).last() == '"',
{
}

/// A run command line starts with the quoted path and ends with a quote.
proof fn lemma_run_line_prefix(p: Seq<char>, args: Seq<Seq<char>>)
    ensures
        run_command_line(p, args).len() >= quoted_arg(p).len(),
        run_command_line(p, args).take(quoted_arg(p).len() as int) == quoted_arg(p),
        run_command_line(p, args).last() == '"',
    decreases args.len(),
{
    lemma_quoted_ends(p);
    if args.len() > 0 {
        lemma_run_line_prefix(p, args.drop_last());
        lemma_quoted_ends(args.last());
        let prev = run_command_line(p, args.drop_last());
        assert((prev + seq![' '] + quoted_arg(args.last())).take(quoted_arg(p).len() as int) =~= prev.take(
            quoted_arg(p).len() as int,
        ));
    } else {
        assert(quoted_arg(p).take(quoted_arg(p).len() as int) =~= quoted_arg(p));
    }
}

/// Scanning a quoted path that holds no quote and does not end with a
/// backslash finds its closing quote right after it.
proof fn lemma_closing_after_path(t: Seq<char>, p: Seq<char>, i: int, escaped: bool)
    requires
        t.len() >= p.len() + 2,
        forall|k: int| 0 <= k < p.len() ==> t[k + 1] == #[trigger] p[k],
        t[p.len() as int + 1] == '"',
        !has_quote(p),
        p.len() == 0 || p.last() != '\\',
        1 <= i <= p.len() + 1,
        escaped ==> i <= p.len(),
    ensures
        closing_quote(t, i, escaped) == Some(p.len() as int + 1),
    decreases p.len() + 1 - i,
{
    if i <= p.len() {
        assert(t[i] == p[i - 1]);
        assert(t[i] != '"');
        if !escaped && t[i] == '\\' {
            assert(i != p.len());
        }
        lemma_closing_after_path(t, p, i + 1, !escaped && t[i] == '\\');
    }
}

/// Reading the executable back from a `Run` command line built for a path
/// gives the path, when the path holds no double quote and does not end
/// with a backslash.
pub proof fn law_built_command_line_names_its_executable(p: Seq<char>, args: Seq<Seq<char>>)
    requires
        !has_quote(p),
        p.len() == 0 || p.last() != '\\',
    ensures
        command_executable(run_command_line(p, args)) == Some(p),
{
    let line = run_command_line(p, args);
    lemma_quoted_plain(p);
    lemma_run_line_prefix(p, args);
    let q = quoted_arg(p);
    assert(forall|k: int| 0 <= k < q.len() ==> line[k] == #[trigger] q[k]) by {
        assert forall|k: int| 0 <= k < q.len() implies line[k] == #[trigger] q[k] by {
            assert(line.take(q.len() as int)[k] == line[k]);
        }
    }
    lemma_quoted_ends(p);
    assert(q[0] == '"');
    assert(line[0] == q[0]);
    assert(!is_ws(line[0]));
    assert(!is_ws(line.last()));
    assert(trim_start(line) == line);
    assert(trim_end(line) == line);
    assert(trim(line) == line);
    assert forall|k: int| 0 <= k < p.len() implies line[k + 1] == #[trigger] p[k] by {
        assert(q[k + 1] == p[k]);
    }
    assert(q[p.len() as int + 1] == '"');
    lemma_closing_after_path(line, p, 1, false);
    assert(line.subrange(1, p.len() as int + 1) =~= p);
}

pub fn extract_windows_command_executable(command_line: &str) -> (r: Option<String>)
    ensures
        match command_executable(command_line@) {
            Some(e) => r matches Some(s) && s@ == e,
            None => r is None,
        },
{
    let t = trim_chars(command_line);
    if t.len() == 0 {
        return None;
    }
    if t[0] == '"' {
        let mut escaped = false;
        let mut i: usize = 1;
        while i < t.len()
            invariant
                1 <= i <= t@.len(),
                t@ == trim(command_line@),
                t@[0] == '"',
                closing_quote(t@, 1, false) == closing_quote(t@, i as int, escaped),
            decreases t@.len() - i,
        {
            let c = t[i];
            if escaped {
                escaped = false;
            } else if c == '\\' {
                escaped = true;
            } else if c == '"' {
                let exe = crate::text::slice_chars(t.as_slice(), 1, i);
                return Some(string_from(exe.as_slice()));
            }
            i = i + 1;
        }
        return None;
    }
    let lowered = lower_chars(t.as_slice());
    let mut i: usize = 0;
    while t.len() >= 4 && i <= t.len() - 4
        invariant
            t@ == trim(command_line@),
            t@.len() > 0,
            t@[0] != '"',
            lowered@ == lower(t@),
            i <= t@.len(),
            first_exe_end(t@, 0) == first_exe_end(t@, i as int),
        decreases t@.len() + 4 - i,
    {
        if lowered[i] == '.' && lowered[i + 1] == 'e' && lowered[i + 2] == 'x' && lowered[i + 3] == 'e'
            && (i + 4 == t.len() || is_ws_char(t[i + 4])) {
            proof {
                reveal_strlit(".exe");
                assert(lower(t@.subrange(i as int, i + 4)) =~= ".exe"@);
            }
            let head = crate::text::slice_chars(t.as_slice(), 0, i + 4);
            let exe = trim_slice(head.as_slice());
            assert(head@ =~= t@.take(i + 4));
            return Some(string_from(exe.as_slice()));
        }
        proof {
            reveal_strlit(".exe");
            if exe_ends_at(t@, i as int) {
                assert(lower(t@.subrange(i as int, i + 4))[0] == lowered@[i as int]);
                assert(lower(t@.subrange(i as int, i + 4))[1] == lowered@[i + 1]);
                assert(lower(t@.subrange(i as int, i + 4))[2] == lowered@[i + 2]);
                assert(lower(t@.subrange(i as int, i + 4))[3] == lowered@[i + 3]);
            }
        }
        i = i + 1;
    }
    let mut j: usize = 0;
    while j < t.len() && !is_ws_char(t[j])
        invariant
            j <= t@.len(),
            first_ws(t@, 0) == first_ws(t@, j as int),
        decreases t@.len() - j,
    {
        j = j + 1;
    }
    let word = crate::text::slice_chars(t.as_slice(), 0, j);
    assert(word@ =~= t@.take(first_ws(t@, 0)));
    Some(string_from(word.as_slice()))
}

// ---------------------------------------------------------------------------
// Development builds
// ---------------------------------------------------------------------------

/// The text with every `/` turned into `\`.
pub open spec fn backslashed(s: Seq<char>) -> Seq<char> {
    Seq::new(s.len(), |i: int| if s[i] == '/' { '\\' } else { s[i] })
}

/// The Unicode lower-case form of a text, as `str::to_lowercase` computes it.
pub uninterp spec fn unicode_lowercase(s: Seq<char>) -> Seq<char>;

/// Calls `str::to_lowercase`; its result is named `unicode_lowercase`.
#[verifier::external_body]
fn to_lowercase(s: &str) -> (r: String)
    ensures
        r@ == unicode_lowercase(s@),
{
    s.to_lowercase()
}

/// A path inside the `target\debug` or `target\release` directory of the
/// Tauri project (`src-tauri`), ignoring case and separator style.
pub open spec fn is_development_path(path: Seq<char>) -> bool {
    let n = unicode_lowercase(backslashed(path));
    contains(n, "\\src-tauri\\target\\debug\\"@) || contains(n, "\\src-tauri\\target\\release\\"@)
}

pub fn is_development_executable(path: &str) -> (r: bool)
    ensures
        r == is_development_path(path@),
{
    let chars = chars_of(path);
    let mut swapped: Vec<char> = Vec::new();
    let mut i: usize = 0;
    while i < chars.len()
        invariant
            i <= chars@.len(),
            chars@ == path@,
            swapped@ == backslashed(chars@).take(i as int),
        decreases chars@.len() - i,
    {
        let c = chars[i];
        swapped.push(if c == '/' { '\\' } else { c });
        assert(backslashed(chars@).take(i + 1) =~= backslashed(chars@).take(i as int).push(
            backslashed(chars@)[i as int],
        ));
        i = i + 1;
    }
    assert(backslashed(chars@).take(chars@.len() as int) =~= backslashed(chars@));
    let text = string_from(swapped.as_slice());
    let normalized = to_lowercase(text.as_str());
    let n = chars_of(normalized.as_str());
    let debug = chars_of("\\src-tauri\\target\\debug\\");
    let release = chars_of("\\src-tauri\\target\\release\\");
    contains_chars(n.as_slice(), debug.as_slice()) || contains_chars(n.as_slice(), release.as_slice())
}

// ---------------------------------------------------------------------------
// Limits
// ---------------------------------------------------------------------------

fn utf16_units_count(s: &str) -> (n: usize)
    requires
        2 * s@.len() <= usize::MAX,
    ensures
        n == utf16_len(s@),
{
    let chars = chars_of(s);
    let mut n: usize = 0;
    let mut i: usize = 0;
    while i < chars.len()
        invariant
            i <= chars@.len(),
            chars@ == s@,
            2 * chars@.len() <= usize::MAX,
            n == utf16_len(chars@.take(i as int)),
            n <= 2 * i,
        decreases chars@.len() - i,
    {
        proof {
            assert(chars@.take(i + 1).drop_last() =~= chars@.take(i as int));
        }
        if (chars[i] as u32) < 0x10000 {
            n = n + 1;
        } else {
            n = n + 2;
        }
        i = i + 1;
    }
    assert(chars@.take(chars@.len() as int) =~= chars@);
    n
}

/// Refuses a `Run` command line longer than 260 UTF-16 units.
pub fn validate_registry_run_command_line(command_line: &str) -> (r: AppResult<()>)
    requires
        2 * command_line@.len() <= usize::MAX,
    ensures
        r is Ok <==> utf16_len(command_line@) <= 260,
        r matches Err(e) ==> e.code@ == "AUTOSTART_COMMAND_TOO_LONG"@ && e.has_detail(
            "utf16Units"@,
            decimal(utf16_len(command_line@)),
        ) && e.has_detail("limit"@, "260"@),
{
    let units = utf16_units_count(command_line);
    if units > MAX_RUN_COMMAND_UTF16_UNITS {
        let n = decimal_string(units as u64);
        proof {
            reveal_strlit("utf16Units");
            reveal_strlit("limit");
            assert("utf16Units"@.len() != "limit"@.len());
        }
        return Err(
            AppError::new("AUTOSTART_COMMAND_TOO_LONG", "开机启动命令长度超过 Windows 限制").with_detail(
                "utf16Units",
                n.as_str(),
            ).with_detail("limit", "260"),
        );
    }
    Ok(())
}

/// Refuses a registry value of more than 64 KiB before it is read.
pub fn validate_registry_value_size(bytes_len: u32) -> (r: AppResult<()>)
    ensures
        r is Ok <==> bytes_len <= 65536,
        r matches Err(e) ==> e.code@ == "AUTOSTART_REGISTRY_VALUE_TOO_LARGE"@ && e.has_detail(
            "bytes"@,
            decimal(bytes_len as nat),
        ) && e.has_detail("limit"@, "65536"@),
{
    if bytes_len > MAX_REGISTRY_VALUE_BYTES {
        let n = decimal_string(bytes_len as u64);
        proof {
            reveal_strlit("bytes");
            reveal_strlit("limit");
            assert("bytes"@[0] != "limit"@[0]);
        }
        return Err(
            AppError::new("AUTOSTART_REGISTRY_VALUE_TOO_LARGE", "开机启动注册表值异常过大").with_detail(
                "bytes",
                n.as_str(),
            ).with_detail("limit", "65536"),
        );
    }
    Ok(())
}

// ---------------------------------------------------------------------------
// Registry strings
// ---------------------------------------------------------------------------

/// The UTF-16 code units of one character.
pub open spec fn char_units(c: char) -> Seq<u16> {
    let u = c as u32;
    if u < 0x10000 {
        seq![u as u16]
    } else {
        let v = (u - 0x10000) as int;
        seq![(0xD800 + v / 1024) as u16, (0xDC00 + v % 1024) as u16]
    }
}

/// UTF-16 encoding.
pub open spec fn utf16_encode(s: Seq<char>) -> Seq<u16>
    decreases s.len(),
{
    if s.len() == 0 {
        Seq::empty()
    } else {
        char_units(s[0]) + utf16_encode(s.drop_first())
    }
}

/// UTF-16 decoding; none when a surrogate is unpaired.
pub open spec fn utf16_decode(units: Seq<u16>) -> Option<Seq<char>>
    decreases units.len(),
{
    if units.len() == 0 {
        Some(Seq::empty())
    } else {
        let u = units[0];
        if u < 0xD800 || u > 0xDFFF {
            match utf16_decode(units.drop_first()) {
                Some(rest) => Some(seq![u as char] + rest),
                None => None,
            }
        } else if u <= 0xDBFF && units.len() >= 2 && 0xDC00 <= units[1] && units[1] <= 0xDFFF {
            let c = (0x10000 + (u - 0xD800) * 1024 + (units[1] - 0xDC00)) as char;
            match utf16_decode(units.skip(2)) {
                Some(rest) => Some(seq![c] + rest),
                None => None,
            }
        } else {
            None
        }
    }
}

/// Little-endian bytes of code units.
pub open spec fn le_bytes(units: Seq<u16>) -> Seq<u8>
    decreases units.len(),
{
    if units.len() == 0 {
        Seq::empty()
    } else {
        le_bytes(units.drop_last()) + seq![(units.last() % 256) as u8, (units.last() / 256) as u8]
    }
}

/// Code units read little-endian from bytes (an odd last byte is ignored).
pub open spec fn le_units(bytes: Seq<u8>) -> Seq<u16> {
    Seq::new(bytes.len() / 2, |i: int| (bytes[2 * i] + 256 * bytes[2 * i + 1]) as u16)
}

/// The units without their trailing zero units.
pub open spec fn strip_nul(units: Seq<u16>) -> Seq<u16>
    decreases units.len(),
{
    if units.len() > 0 && units.last() == 0 {
        strip_nul(units.drop_last())
    } else {
        units
    }
}

/// The text a string registry value holds, trimmed; none for another type,
/// an odd byte count, invalid UTF-16, or blank text.
pub open spec fn registry_text(value_type: u32, bytes: Seq<u8>) -> Option<Seq<char>> {
    if value_type != 1 && value_type != 2 {
        None
    } else if bytes.len() % 2 != 0 {
        None
    } else {
        match utf16_decode(strip_nul(le_units(bytes))) {
            Some(s) => if trim(s).len() == 0 {
                None
            } else {
                Some(trim(s))
            },
            None => None,
        }
    }
}

/// The bytes of a `REG_SZ` value holding `s`: UTF-16LE with a terminating
/// NUL.
pub open spec fn string_value_bytes(s: Seq<char>) -> Seq<u8> {
    le_bytes(utf16_encode(s).push(0))
}

fn push_unit(bytes: &mut Vec<u8>, u: u16)
    ensures
        final(bytes)@ == old(bytes)@ + seq![(u % 256) as u8, (u / 256) as u8],
{
    bytes.push((u % 256) as u8);
    bytes.push((u / 256) as u8);
}

proof fn lemma_le_bytes_push(units: Seq<u16>, u: u16)
    ensures
        le_bytes(units.push(u)) == le_bytes(units) + seq![(u % 256) as u8, (u / 256) as u8],
{
    assert(units.push(u).drop_last() =~= units);
}

proof fn lemma_encode_push(s: Seq<char>, c: char)
    ensures
        utf16_encode(s.push(c)) == utf16_encode(s) + char_units(c),
    decreases s.len(),
{
    if s.len() == 0 {
        assert(s.push(c).drop_first() =~= Seq::<char>::empty());
        assert(utf16_encode(s.push(c).drop_first()) == Seq::<u16>::empty());
        assert(utf16_encode(s.push(c)) == char_units(c) + Seq::<u16>::empty());
        assert(utf16_encode(s.push(c)) =~= char_units(c));
        assert(utf16_encode(s) == Seq::<u16>::empty());
    } else {
        lemma_encode_push(s.drop_first(), c);
        assert(s.push(c).drop_first() =~= s.drop_first().push(c));
        assert(utf16_encode(s.push(c)) =~= utf16_encode(s) + char_units(c));
    }
}

/// The snapshot of a `REG_SZ` value that holds `value`.
pub fn registry_string_value_snapshot(value: &str) -> (r: RegistryValueSnapshot)
    ensures
        r.value_type == REG_SZ,
        r.bytes@ == string_value_bytes(value@),
{
    let chars = chars_of(value);
    let mut bytes: Vec<u8> = Vec::new();
    let ghost mut units: Seq<u16> = Seq::empty();
    let mut i: usize = 0;
    while i < chars.len()
        invariant
            i <= chars@.len(),
            chars@ == value@,
            units == utf16_encode(chars@.take(i as int)),
            bytes@ == le_bytes(units),
        decreases chars@.len() - i,
    {
        let c = chars[i];
        let code = c as u32;
        proof {
            lemma_encode_push(chars@.take(i as int), c);
            assert(chars@.take(i + 1) =~= chars@.take(i as int).push(c));
        }
        if code < 0x10000 {
            let u = code as u16;
            proof {
                lemma_le_bytes_push(units, u);
                units = units.push(u);
            }
            push_unit(&mut bytes, u);
            assert(units =~= utf16_encode(chars@.take(i as int)) + char_units(c));
        } else {
            let v = code - 0x10000;
            let hi = (0xD800 + v / 1024) as u16;
            let lo = (0xDC00 + v % 1024) as u16;
            proof {
                lemma_le_bytes_push(units, hi);
                lemma_le_bytes_push(units.push(hi), lo);
                units = units.push(hi).push(lo);
            }
            push_unit(&mut bytes, hi);
            push_unit(&mut bytes, lo);
            assert(units =~= utf16_encode(chars@.take(i as int)) + char_units(c));
        }
        i = i + 1;
    }
    proof {
        lemma_le_bytes_push(units, 0);
        assert(chars@.take(chars@.len() as int) =~= chars@);
    }
    push_unit(&mut bytes, 0);
    RegistryValueSnapshot { value_type: REG_SZ, bytes }
}

/// Calls `char::from_u32`, which gives the character of a Unicode scalar
/// value (below 0x110000 and not a surrogate) and nothing otherwise.
#[verifier::external_body]
fn char_from_u32(u: u32) -> (r: Option<char>)
    ensures
        r == (if u <= 0x10FFFF && !(0xD800 <= u && u <= 0xDFFF) {
            Some(u as char)
        } else {
            None
        }),
{
    char::from_u32(u)
}

/// Decodes UTF-16 code units; none when a surrogate is unpaired.
fn string_from_utf16(units: &[u16]) -> (r: Option<String>)
    ensures
        match utf16_decode(units@) {
            Some(s) => r matches Some(t) && t@ == s,
            None => r is None,
        },
{
    let mut out: Vec<char> = Vec::new();
    let mut i: usize = 0;
    proof {
        assert(units@.skip(0) =~= units@);
        assert(out@ + Seq::<char>::empty() =~= out@);
    }
    while i < units.len()
        invariant
            i <= units@.len(),
            utf16_decode(units@) == match utf16_decode(units@.skip(i as int)) {
                Some(rest) => Some(out@ + rest),
                None => None::<Seq<char>>,
            },
        decreases units@.len() - i,
    {
        let ghost tail = units@.skip(i as int);
        let u = units[i];
        assert(tail[0] == u);
        if u < 0xD800 || u > 0xDFFF {
            let c = match char_from_u32(u as u32) {
                Some(c) => c,
                None => {
                    return None;
                },
            };
            proof {
                assert(tail.drop_first() =~= units@.skip(i + 1));
                assert(c == u as char);
                match utf16_decode(units@.skip(i + 1)) {
                    Some(rest) => {
                        assert(out@.push(c) + rest =~= out@ + (seq![u as char] + rest));
                    },
                    None => {},
                }
            }
            out.push(c);
            i = i + 1;
        } else if u <= 0xDBFF && i + 1 < units.len() && 0xDC00 <= units[i + 1] && units[i + 1] <= 0xDFFF {
            let lo = units[i + 1];
            assert(tail[1] == lo);
            let code: u32 = 0x10000 + (u as u32 - 0xD800) * 1024 + (lo as u32 - 0xDC00);
            let c = match char_from_u32(code) {
                Some(c) => c,
                None => {
                    return None;
                },
            };
            proof {
                assert(tail.skip(2) =~= units@.skip(i + 2));
                let cc = (0x10000 + (u - 0xD800) * 1024 + (lo - 0xDC00)) as char;
                assert(c == cc);
                match utf16_decode(units@.skip(i + 2)) {
                    Some(rest) => {
                        assert(out@.push(c) + rest =~= out@ + (seq![cc] + rest));
                    },
                    None => {},
                }
            }
            out.push(c);
            i = i + 2;
        } else {
            return None;
        }
    }
    proof {
        assert(units@.skip(i as int) =~= Seq::<u16>::empty());
        assert(out@ + Seq::<char>::empty() =~= out@);
    }
    Some(string_from(out.as_slice()))
}

proof fn lemma_strip_nul_take(units: Seq<u16>, n: int)
    requires
        0 <= n <= units.len(),
        forall|k: int| n <= k < units.len() ==> units[k] == 0,
        n == 0 || units[n - 1] != 0,
    ensures
        strip_nul(units) == units.take(n),
    decreases units.len(),
{
    if units.len() > n {
        assert(units.drop_last().take(n) =~= units.take(n));
        lemma_strip_nul_take(units.drop_last(), n);
    } else {
        assert(units.take(n) =~= units);
    }
}

pub fn decode_registry_string_value(value: &RegistryValueSnapshot) -> (r: Option<String>)
    ensures
        match registry_text(value.value_type, value.bytes@) {
            Some(t) => r matches Some(s) && s@ == t,
            None => r is None,
        },
{
    if value.value_type != REG_SZ && value.value_type != REG_EXPAND_SZ {
        return None;
    }
    if value.bytes.len() % 2 != 0 {
        return None;
    }
    let ghost all = le_units(value.bytes@);
    let mut wide: Vec<u16> = Vec::new();
    let mut i: usize = 0;
    let len = value.bytes.len();
    let n = len / 2;
    assert(2 * n <= len);
    while i < n
        invariant
            i <= n,
            len == value.bytes@.len(),
            2 * n <= len,
            n == value.bytes@.len() / 2,
            all == le_units(value.bytes@),
            wide@ == all.take(i as int),
        decreases n - i,
    {
        let j: usize = i + i;
        let lo = value.bytes[j] as u16;
        let hi = value.bytes[j + 1] as u16;
        wide.push(lo + hi * 256);
        assert(all.take(i + 1) =~= all.take(i as int).push(all[i as int]));
        i = i + 1;
    }
    assert(all.take(n as int) =~= all);
    let mut end: usize = wide.len();
    while end > 0 && wide[end - 1] == 0
        invariant
            end <= wide@.len(),
            wide@ == all,
            forall|k: int| end <= k < wide@.len() ==> wide@[k] == 0,
        decreases end,
    {
        end = end - 1;
    }
    proof {
        lemma_strip_nul_take(all, end as int);
    }
    let mut units: Vec<u16> = Vec::new();
    let mut k: usize = 0;
    while k < end
        invariant
            k <= end <= wide@.len(),
            units@ == wide@.take(k as int),
        decreases end - k,
    {
        units.push(wide[k]);
        assert(wide@.take(k + 1) =~= wide@.take(k as int).push(wide@[k as int]));
        k = k + 1;
    }
    let text = match string_from_utf16(units.as_slice()) {
        Some(t) => t,
        None => {
            return None;
        },
    };
    let trimmed = trim_chars(text.as_str());
    if trimmed.len() == 0 {
        return None;
    }
    Some(string_from(trimmed.as_slice()))
}

// ---------------------------------------------------------------------------
// Task Manager approval
// ---------------------------------------------------------------------------

/// An approval value counts as enabled when it is binary, at least eight
/// bytes long, and its last eight bytes are zero.
pub open spec fn approval_enabled(value_type: u32, bytes: Seq<u8>) -> bool {
    &&& value_type == 3
    &&& bytes.len() >= 8
    &&& forall|k: int| bytes.len() - 8 <= k < bytes.len() ==> bytes[k] == 0
}

pub fn startup_approved_value_is_enabled(value: &RegistryValueSnapshot) -> (r: bool)
    ensures
        r == approval_enabled(value.value_type, value.bytes@),
{
    if value.value_type != REG_BINARY || value.bytes.len() < 8 {
        return false;
    }
    let n = value.bytes.len();
    let mut k: usize = n - 8;
    while k < n
        invariant
            n == value.bytes@.len() >= 8,
            n - 8 <= k <= n,
            forall|m: int| n - 8 <= m < k ==> value.bytes@[m] == 0,
        decreases n - k,
    {
        if value.bytes[k] != 0 {
            return false;
        }
        k = k + 1;
    }
    true
}

// ---------------------------------------------------------------------------
// Entry point
// ---------------------------------------------------------------------------

/// What launch-at-login synchronisation has to do, for the trimmed name.
pub enum AutostartSync {
    Enable(String),
    Disable(String),
}

/// Checks the application name and chooses the direction of the
/// synchronisation. A blank name is refused.
pub fn sync_launch_at_login(app_name: &str, should_enable: bool) -> (r: AppResult<AutostartSync>)
    ensures
        trim(app_name@).len() == 0 <==> r is Err,
        r matches Err(e) ==> e.code@ == "AUTOSTART_APP_NAME_INVALID"@,
        r matches Ok(AutostartSync::Enable(n)) ==> should_enable && n@ == trim(app_name@),
        r matches Ok(AutostartSync::Disable(n)) ==> !should_enable && n@ == trim(app_name@),
{
    let name = trim_chars(app_name);
    if name.len() == 0 {
        return Err(AppError::new("AUTOSTART_APP_NAME_INVALID", "开机启动应用名称无效"));
    }
    let name = string_from(name.as_slice());
    if should_enable {
        Ok(AutostartSync::Enable(name))
    } else {
        Ok(AutostartSync::Disable(name))
    }
}

// ---------------------------------------------------------------------------
// Reading back what was written
// ---------------------------------------------------------------------------

proof fn lemma_le_units_of_bytes(units: Seq<u16>)
    ensures
        le_bytes(units).len() == 2 * units.len(),
        le_units(le_bytes(units)) == units,
    decreases units.len(),
{
    if units.len() > 0 {
        let init = units.drop_last();
        let u = units.last();
        lemma_le_units_of_bytes(init);
        let b = le_bytes(units);
        assert(b == le_bytes(init) + seq![(u % 256) as u8, (u / 256) as u8]);
        assert(((u % 256) as u8) + 256 * ((u / 256) as u8) == u) by (nonlinear_arith);
        assert forall|i: int| 0 <= i < units.len() implies #[trigger] le_units(b)[i] == units[i] by {
            if i < init.len() {
                assert(b[2 * i] == le_bytes(init)[2 * i]);
                assert(b[2 * i + 1] == le_bytes(init)[2 * i + 1]);
                assert(le_units(le_bytes(init))[i] == init[i]);
            } else {
                assert(i == init.len());
                assert(b[2 * i] == (u % 256) as u8);
                assert(b[2 * i + 1] == (u / 256) as u8);
            }
        }
        assert(le_units(b) =~= units);
    } else {
        assert(le_units(le_bytes(units)) =~= units);
    }
}

proof fn lemma_char_units_decode(c: char, rest: Seq<u16>)
    ensures
        utf16_decode(char_units(c) + rest) == match utf16_decode(rest) {
            Some(r) => Some(seq![c] + r),
            None => None::<Seq<char>>,
        },
{
    let u = c as u32;
    let units = char_units(c) + rest;
    if u < 0x10000 {
        assert(units.drop_first() =~= rest);
        assert(units[0] == u as u16);
        assert((units[0] as char) == c);
    } else {
        let v = (u - 0x10000) as int;
        assert(0 <= v < 0x100000);
        let hi = 0xD800 + v / 1024;
        let lo = 0xDC00 + v % 1024;
        assert(0 <= v / 1024 < 1024) by (nonlinear_arith)
            requires
                0 <= v < 0x100000,
        ;
        assert(0 <= v % 1024 < 1024) by (nonlinear_arith)
            requires
                0 <= v,
        ;
        assert(v == (v / 1024) * 1024 + v % 1024) by (nonlinear_arith);
        assert(units[0] == hi as u16);
        assert(units[1] == lo as u16);
        assert(units.skip(2) =~= rest);
        assert(0x10000 + (hi - 0xD800) * 1024 + (lo - 0xDC00) == u);
    }
}

proof fn lemma_decode_encode(s: Seq<char>)
    ensures
        utf16_decode(utf16_encode(s)) == Some(s),
    decreases s.len(),
{
    if s.len() > 0 {
        lemma_decode_encode(s.drop_first());
        lemma_char_units_decode(s[0], utf16_encode(s.drop_first()));
        assert(seq![s[0]] + s.drop_first() =~= s);
    } else {
        assert(utf16_encode(s) =~= Seq::<u16>::empty());
    }
}

proof fn lemma_strip_nul_encoded(s: Seq<char>)
    requires
        s.len() == 0 || (s.last() as u32) != 0,
    ensures
        strip_nul(utf16_encode(s).push(0)) == utf16_encode(s),
{
    let e = utf16_encode(s);
    assert(e.push(0).drop_last() =~= e);
    assert(e.push(0).last() == 0);
    assert(strip_nul(e.push(0)) == strip_nul(e));
    if s.len() > 0 {
        lemma_encode_push(s.drop_last(), s.last());
        assert(s.drop_last().push(s.last()) =~= s);
        let c = s.last();
        assert(e.last() == char_units(c).last());
        if (c as u32) < 0x10000 {
            assert(char_units(c) == seq![(c as u32) as u16]);
            assert(((c as u32) as u16) as u32 == c as u32);
            assert(e.last() != 0);
        } else {
            let v = ((c as u32) - 0x10000) as int;
            assert(0 <= v % 1024 < 1024) by (nonlinear_arith)
                requires
                    0 <= v,
            ;
            assert(e.last() != 0);
        }
        assert(strip_nul(e) == e);
    } else {
        assert(e =~= Seq::<u16>::empty());
        assert(strip_nul(e) == e);
    }
}

/// Reading back a string value gives what was written, trimmed: the
/// registry text of the bytes written for `s` is the trimmed `s`, or none
/// when that is blank. (A trailing NUL character would be read as the
/// terminator, so `s` must not end with one.)
pub proof fn law_registry_string_round_trip(s: Seq<char>)
    requires
        s.len() == 0 || (s.last() as u32) != 0,
    ensures
        registry_text(REG_SZ, string_value_bytes(s)) == (if trim(s).len() == 0 {
            None
        } else {
            Some(trim(s))
        }),
        registry_text(REG_EXPAND_SZ, string_value_bytes(s)) == registry_text(
            REG_SZ,
            string_value_bytes(s),
        ),
{
    let units = utf16_encode(s).push(0);
    lemma_le_units_of_bytes(units);
    lemma_strip_nul_encoded(s);
    lemma_decode_encode(s);
    assert(string_value_bytes(s).len() % 2 == 0);
}

// ---------------------------------------------------------------------------
// Which executable to register
// ---------------------------------------------------------------------------

pub open spec fn drop_trailing_separators(p: Seq<char>) -> Seq<char>
    decreases p.len(),
{
    if p.len() > 0 && crate::text::is_path_separator(p.last()) {
        drop_trailing_separators(p.drop_last())
    } else {
        p
    }
}

/// Index just after the last separator among the first `k` characters.
pub open spec fn after_last_separator(p: Seq<char>, k: int) -> int
    decreases k,
{
    if k <= 0 {
        0
    } else if crate::text::is_path_separator(p[k - 1]) {
        k
    } else {
        after_last_separator(p, k - 1)
    }
}

/// The file name of a Windows path: its last component, trailing
/// separators ignored; none when that component is empty, `.`, `..`, or a
/// bare drive such as `C:`.
pub open spec fn path_file_name(p: Seq<char>) -> Option<Seq<char>> {
    let q = drop_trailing_separators(p);
    let name = q.skip(after_last_separator(q, q.len() as int));
    if name.len() == 0 || name == "."@ || name == ".."@ || (name.len() == 2 && name[1] == ':'
        && after_last_separator(q, q.len() as int) == 0) {
        None
    } else {
        Some(name)
    }
}

pub(crate) fn file_name_of(p: &[char]) -> (r: Option<Vec<char>>)
    ensures
        match path_file_name(p@) {
            Some(n) => r matches Some(v) && v@ == n,
            None => r is None,
        },
{
    let mut end: usize = p.len();
    assert(p@.take(end as int) =~= p@);
    while end > 0 && (p[end - 1] == '\\' || p[end - 1] == '/')
        invariant
            end <= p@.len(),
            drop_trailing_separators(p@) == drop_trailing_separators(p@.take(end as int)),
        decreases end,
    {
        assert(p@.take(end as int).drop_last() =~= p@.take(end - 1));
        end = end - 1;
    }
    assert(drop_trailing_separators(p@.take(end as int)) == p@.take(end as int));
    let ghost q = p@.take(end as int);
    let mut start: usize = end;
    while start > 0 && !(p[start - 1] == '\\' || p[start - 1] == '/')
        invariant
            start <= end <= p@.len(),
            q == p@.take(end as int),
            after_last_separator(q, q.len() as int) == after_last_separator(q, start as int),
        decreases start,
    {
        start = start - 1;
    }
    let name = crate::text::slice_chars(p, start, end);
    assert(name@ =~= q.skip(start as int));
    proof {
        reveal_strlit(".");
        reveal_strlit("..");
    }
    let n = name.len();
    if n == 0 || (n == 1 && name[0] == '.') || (n == 2 && name[0] == '.' && name[1] == '.') || (n == 2
        && name[1] == ':' && start == 0) {
        assert(n == 1 && name[0] == '.' ==> name@ =~= "."@);
        assert(n == 2 && name[0] == '.' && name[1] == '.' ==> name@ =~= ".."@);
        return None;
    }
    assert(name@ != "."@);
    assert(name@ != ".."@);
    Some(name)
}

/// A development build keeps an installed release registration: the
/// current executable is a development build, the registered one is not,
/// both have the same file name (ignoring ASCII case), and the registered
/// one exists (`existing_is_file`, found out by the caller).
pub open spec fn keeps_existing_release(
    current_exe: Seq<char>,
    existing_command_line: Option<Seq<char>>,
    existing_is_file: bool,
) -> bool {
    &&& is_development_path(current_exe)
    &&& existing_command_line matches Some(cl)
    &&& command_executable(cl) matches Some(existing)
    &&& path_file_name(current_exe) matches Some(a)
    &&& path_file_name(existing) matches Some(b)
    &&& crate::text::eq_ignore_case(a, b)
    &&& !is_development_path(existing)
    &&& existing_is_file
}

pub open spec fn opt_str(o: Option<&str>) -> Option<Seq<char>> {
    match o {
        Some(s) => Some(s@),
        None => None,
    }
}

pub fn should_keep_existing_release_command(
    current_exe: &str,
    existing_command_line: Option<&str>,
    existing_is_file: bool,
) -> (r: bool)
    ensures
        r == keeps_existing_release(current_exe@, opt_str(existing_command_line), existing_is_file),
{
    if !is_development_executable(current_exe) {
        return false;
    }
    let existing = match existing_command_line {
        Some(cl) => match extract_windows_command_executable(cl) {
            Some(e) => e,
            None => {
                return false;
            },
        },
        None => {
            return false;
        },
    };
    let current_chars = chars_of(current_exe);
    let existing_chars = chars_of(existing.as_str());
    let names_match = match (file_name_of(current_chars.as_slice()), file_name_of(existing_chars.as_slice())) {
        (Some(a), Some(b)) => crate::text::chars_eq_ignore_case(a.as_slice(), b.as_slice()),
        _ => false,
    };
    names_match && !is_development_executable(existing.as_str()) && existing_is_file
}

/// The executable to register: the existing release one when a
/// development build should keep it, else the current one.
pub fn resolve_registration_executable(
    current_exe: &str,
    existing_command_line: Option<&str>,
    existing_is_file: bool,
) -> (r: String)
    ensures
        keeps_existing_release(current_exe@, opt_str(existing_command_line), existing_is_file)
            ==> Some(r@) == command_executable(opt_str(existing_command_line)->Some_0),
        !keeps_existing_release(current_exe@, opt_str(existing_command_line), existing_is_file)
            ==> r@ == current_exe@,
{
    if should_keep_existing_release_command(current_exe, existing_command_line, existing_is_file) {
        match existing_command_line {
            Some(cl) => match extract_windows_command_executable(cl) {
                Some(e) => {
                    return e;
                },
                None => {},
            },
            None => {},
        }
    }
    current_exe.to_owned()
}

// ---------------------------------------------------------------------------
// Enabling and disabling
// ---------------------------------------------------------------------------

/// What enabling launch at login writes and expects to read back.
pub struct EnablePlan {
    pub command_line: String,
    pub expected_run_value: RegistryValueSnapshot,
    pub expected_approval_value: RegistryValueSnapshot,
    /// The `Run` value has to be written.
    pub write_run: bool,
    /// The Task Manager approval has to be set to enabled.
    pub repair_approval: bool,
}

pub open spec fn run_matches(run_before: Option<RegistryValueSnapshot>, command_line: Seq<char>) -> bool {
    run_before matches Some(v) && v.value_type == 1 && registry_text(v.value_type, v.bytes@) == Some(
        command_line,
    )
}

pub open spec fn approval_needs_repair(approval_before: Option<RegistryValueSnapshot>) -> bool {
    approval_before matches Some(v) && !approval_enabled(v.value_type, v.bytes@)
}

pub open spec fn autostart_command(exe: Seq<char>) -> Seq<char> {
    run_command_line(exe, seq!["--autostart"@])
}

/// Works out what enabling launch at login for `registration_executable`
/// has to do, given the `Run` and `StartupApproved` values read before.
/// When neither `write_run` nor `repair_approval` is set the registration
/// is already in place.
pub fn plan_enable_registration(
    registration_executable: &str,
    run_before: &Option<RegistryValueSnapshot>,
    approval_before: &Option<RegistryValueSnapshot>,
) -> (r: AppResult<EnablePlan>)
    requires
        2 * autostart_command(registration_executable@).len() <= usize::MAX,
    ensures
        r is Ok <==> utf16_len(autostart_command(registration_executable@)) <= 260,
        r matches Err(e) ==> e.code@ == "AUTOSTART_COMMAND_TOO_LONG"@,
        r matches Ok(p) ==> {
            &&& p.command_line@ == autostart_command(registration_executable@)
            &&& p.expected_run_value.value_type == REG_SZ
            &&& p.expected_run_value.bytes@ == string_value_bytes(p.command_line@)
            &&& p.expected_approval_value.value_type == REG_BINARY
            &&& p.expected_approval_value.bytes@ == TASK_MANAGER_ENABLED_VALUE@
            &&& p.write_run == !run_matches(*run_before, p.command_line@)
            &&& p.repair_approval == approval_needs_repair(*approval_before)
        },
{
    let args: [&str; 1] = AUTOSTART_ARGS;
    let command_line = build_registry_run_command_line(registration_executable, &args);
    assert(str_views(args@) =~= seq!["--autostart"@]);
    match validate_registry_run_command_line(command_line.as_str()) {
        Ok(()) => {},
        Err(e) => {
            return Err(e);
        },
    }
    let expected_run_value = registry_string_value_snapshot(command_line.as_str());
    let approval_bytes: [u8; 12] = TASK_MANAGER_ENABLED_VALUE;
    let mut bytes: Vec<u8> = Vec::new();
    let mut i: usize = 0;
    while i < 12
        invariant
            i <= 12,
            approval_bytes@ == TASK_MANAGER_ENABLED_VALUE@,
            bytes@ == approval_bytes@.take(i as int),
        decreases 12 - i,
    {
        bytes.push(approval_bytes[i]);
        assert(approval_bytes@.take(i + 1) =~= approval_bytes@.take(i as int).push(approval_bytes@[i as int]));
        i = i + 1;
    }
    assert(approval_bytes@.take(12) =~= approval_bytes@);
    let expected_approval_value = RegistryValueSnapshot { value_type: REG_BINARY, bytes };
    let run_ok = match run_before {
        Some(v) => v.value_type == REG_SZ && match decode_registry_string_value(v) {
            Some(text) => text.eq(&command_line),
            None => false,
        },
        None => false,
    };
    let repair = match approval_before {
        Some(v) => !startup_approved_value_is_enabled(v),
        None => false,
    };
    Ok(
        EnablePlan {
            command_line,
            expected_run_value,
            expected_approval_value,
            write_run: !run_ok,
            repair_approval: repair,
        },
    )
}

pub open spec fn snapshot_eq(a: RegistryValueSnapshot, b: RegistryValueSnapshot) -> bool {
    a.value_type == b.value_type && a.bytes@ == b.bytes@
}

fn snapshots_equal(a: &RegistryValueSnapshot, b: &RegistryValueSnapshot) -> (r: bool)
    ensures
        r == snapshot_eq(*a, *b),
{
    if a.value_type != b.value_type || a.bytes.len() != b.bytes.len() {
        return false;
    }
    let mut i: usize = 0;
    while i < a.bytes.len()
        invariant
            i <= a.bytes@.len() == b.bytes@.len(),
            forall|k: int| 0 <= k < i ==> a.bytes@[k] == b.bytes@[k],
        decreases a.bytes@.len() - i,
    {
        if a.bytes[i] != b.bytes[i] {
            return false;
        }
        i = i + 1;
    }
    assert(a.bytes@ =~= b.bytes@);
    true
}

/// Checks the values read back after enabling: the `Run` value must be a
/// `REG_SZ` holding `expected_command`, and, when `verify_approval` is set,
/// an approval value that is present must read as enabled.
pub fn check_enabled_registration(
    run_value: &Option<RegistryValueSnapshot>,
    expected_command: &str,
    verify_approval: bool,
    approval: &Option<RegistryValueSnapshot>,
) -> (r: AppResult<()>)
    ensures
        r is Ok <==> {
            &&& run_value matches Some(v)
            &&& v.value_type == 1
            &&& registry_text(v.value_type, v.bytes@) == Some(expected_command@)
            &&& (verify_approval && approval is Some) ==> approval_enabled(
                approval->Some_0.value_type,
                approval->Some_0.bytes@,
            )
        },
        r matches Err(e) ==> (e.code@ == "AUTOSTART_VERIFY_FAILED"@ || e.code@
            == "AUTOSTART_APPROVAL_VERIFY_FAILED"@),
{
    let v = match run_value {
        Some(v) => v,
        None => {
            return Err(AppError::new("AUTOSTART_VERIFY_FAILED", "开机启动注册项写入后不存在"));
        },
    };
    let type_text = decimal_string(v.value_type as u64);
    let actual = match decode_registry_string_value(v) {
        Some(a) => a,
        None => {
            return Err(
                AppError::new("AUTOSTART_VERIFY_FAILED", "开机启动注册项格式无效").with_detail(
                    "registryType",
                    type_text.as_str(),
                ),
            );
        },
    };
    let expected = chars_of(expected_command);
    let actual_chars = chars_of(actual.as_str());
    if v.value_type != REG_SZ || !crate::text::chars_eq(actual_chars.as_slice(), expected.as_slice()) {
        return Err(
            AppError::new("AUTOSTART_VERIFY_FAILED", "开机启动注册项写入后与预期不一致").with_detail(
                "registryType",
                type_text.as_str(),
            ),
        );
    }
    if verify_approval {
        if let Some(a) = approval {
            if !startup_approved_value_is_enabled(a) {
                let t = decimal_string(a.value_type as u64);
                return Err(
                    AppError::new(
                        "AUTOSTART_APPROVAL_VERIFY_FAILED",
                        "开机启动仍被 Windows 启动项管理禁用",
                    ).with_detail("registryType", t.as_str()),
                );
            }
        }
    }
    Ok(())
}

/// After disabling, the `Run` value must be gone.
pub fn check_disabled_registration(run_value: &Option<RegistryValueSnapshot>) -> (r: AppResult<()>)
    ensures
        r is Ok <==> run_value is None,
        r matches Err(e) ==> e.code@ == "AUTOSTART_VERIFY_FAILED"@,
{
    if run_value.is_some() {
        return Err(AppError::new("AUTOSTART_VERIFY_FAILED", "关闭开机启动后注册项仍然存在"));
    }
    Ok(())
}

/// A rollback may only restore a value that still is what this process
/// wrote; otherwise it is skipped with a reason.
pub fn rollback_guard_unchanged(
    current: &Option<RegistryValueSnapshot>,
    expected_current: &RegistryValueSnapshot,
) -> (r: Result<(), String>)
    ensures
        r is Ok <==> (*current matches Some(c) && snapshot_eq(c, *expected_current)),
{
    match current {
        Some(c) => {
            if snapshots_equal(c, expected_current) {
                return Ok(());
            }
        },
        None => {},
    }
    Err("current value changed concurrently; rollback skipped".to_owned())
}

/// A deleted value may only be restored while it is still absent.
pub fn rollback_guard_absent(current: &Option<RegistryValueSnapshot>) -> (r: Result<(), String>)
    ensures
        r is Ok <==> current is None,
{
    if current.is_some() {
        return Err("current value was recreated concurrently; rollback skipped".to_owned());
    }
    Ok(())
}

/// Records a failed rollback on the error that caused it.
pub fn attach_rollback_result(original_error: AppError, rollback_result: Result<(), String>) -> (r:
    AppError)
    ensures
        r.code == original_error.code,
        r.message == original_error.message,
        rollback_result is Ok ==> r.detail_map() == original_error.detail_map(),
        rollback_result matches Err(f) ==> r.detail_map() == original_error.detail_map().insert(
            "rollbackFailure"@,
            f@,
        ).insert("stateConsistency"@, "unknown"@),
{
    match rollback_result {
        Ok(()) => original_error,
        Err(failure) => original_error.with_detail("rollbackFailure", failure.as_str()).with_detail(
            "stateConsistency",
            "unknown",
        ),
    }
}

/// The rollback failures of the `Run` and `StartupApproved` values, each
/// labelled, joined with `"; "`; none when both rollbacks succeeded.
pub open spec fn registry_rollback_failures(run_failure: Option<Seq<char>>, approval_failure: Option<Seq<char>>) -> Option<
    Seq<char>,
> {
    match (run_failure, approval_failure) {
        (Some(a), Some(b)) => Some("Run: "@ + a + "; "@ + "StartupApproved: "@ + b),
        (Some(a), None) => Some("Run: "@ + a),
        (None, Some(b)) => Some("StartupApproved: "@ + b),
        (None, None) => None,
    }
}

/// Records the failures of rolling back the registry values on the error
/// that caused the rollback.
pub fn registry_rollback_error(
    original_error: AppError,
    run_failure: Option<String>,
    approval_failure: Option<String>,
) -> (r: AppError)
    ensures
        r.code == original_error.code,
        r.message == original_error.message,
        match registry_rollback_failures(opt_string(run_failure), opt_string(approval_failure)) {
            Some(f) => r.detail_map() == original_error.detail_map().insert("rollbackFailure"@, f).insert(
                "stateConsistency"@,
                "unknown"@,
            ),
            None => r.detail_map() == original_error.detail_map(),
        },
{
    let mut text: Vec<char> = Vec::new();
    let mut any = false;
    if let Some(f) = &run_failure {
        crate::text::extend_str(&mut text, "Run: ");
        crate::text::extend_str(&mut text, f.as_str());
        any = true;
    }
    if let Some(f) = &approval_failure {
        if any {
            crate::text::extend_str(&mut text, "; ");
        }
        crate::text::extend_str(&mut text, "StartupApproved: ");
        crate::text::extend_str(&mut text, f.as_str());
        any = true;
    }
    if !any {
        return original_error;
    }
    let joined = string_from(text.as_slice());
    assert(joined@ =~= registry_rollback_failures(opt_string(run_failure), opt_string(approval_failure))->Some_0);
    original_error.with_detail("rollbackFailure", joined.as_str()).with_detail("stateConsistency", "unknown")
}

pub open spec fn opt_string(o: Option<String>) -> Option<Seq<char>> {
    match o {
        Some(s) => Some(s@),
        None => None,
    }
}

} // verus!
