//! The meta file that the isolation tool writes after a run: one `key:value`
//! per line. A key is looked up on the first line whose text before its first
//! `:` is exactly that key; its value is the rest of that line, without
//! surrounding whitespace.
use crate::errors::SandboxToolError;
use crate::isolate::SandboxToolIsolate;
use crate::sandbox::{SandboxExecutionResult, SandboxExecutionStatus};
use crate::text::{
    all_digits, bounded_value, digit_value, digits_value, is_digit, parse_bounded, trim, trim_bounds,
};
use vstd::prelude::*;
use vstd::string::*;

verus! {

/// Largest number of whole seconds that a time may hold.
pub const MAX_SECONDS: u64 = 1_000_000_000_000;

pub open spec fn starts_line(c: Seq<char>, p: int) -> bool {
    p == 0 || c[p - 1] == '\n'
}

pub open spec fn key_at(c: Seq<char>, p: int, key: Seq<char>) -> bool {
    p + key.len() <= c.len() && c.subrange(p, p + key.len()) == key
}

/// The first line start at or after `p` whose line begins with `key`
/// followed by `:`.
pub open spec fn key_line_from(c: Seq<char>, key: Seq<char>, p: int) -> Option<int>
    decreases c.len() - p,
{
    if p < 0 || p >= c.len() {
        None
    } else if starts_line(c, p) && key_at(c, p, key + ":"@) {
        Some(p)
    } else {
        key_line_from(c, key, p + 1)
    }
}

/// The first index in `[p, end)` that holds `ch`, else `end`.
pub open spec fn index_from(c: Seq<char>, ch: char, p: int, end: int) -> int
    decreases end - p,
{
    if p >= end {
        end
    } else if c[p] == ch {
        p
    } else {
        index_from(c, ch, p + 1, end)
    }
}

/// The value of `key` in the meta text `c`: the rest of the first line whose
/// key is exactly `key`, trimmed.
pub open spec fn meta_field(c: Seq<char>, key: Seq<char>) -> Option<Seq<char>> {
    match key_line_from(c, key, 0) {
        None => None,
        Some(p) => {
            let v = p + key.len() + 1;
            Some(trim(c.subrange(v, index_from(c, '\n', v, c.len() as int))))
        },
    }
}

pub open spec fn digit_at(s: Seq<char>, i: int) -> nat {
    if 0 <= i < s.len() {
        digit_value(s[i])
    } else {
        0
    }
}

/// Decimal seconds, `[+]digits[.digits]` with at least one digit, in whole
/// milliseconds; digits past the third after the point are dropped.
pub open spec fn seconds_ms(s: Seq<char>) -> Option<nat> {
    let t = if s.len() > 0 && s[0] == '+' {
        s.drop_first()
    } else {
        s
    };
    let dot = index_from(t, '.', 0, t.len() as int);
    let ip = t.subrange(0, dot);
    let fp = if dot < t.len() {
        t.subrange(dot + 1, t.len() as int)
    } else {
        Seq::empty()
    };
    if ip.len() + fp.len() > 0 && all_digits(ip) && all_digits(fp) && digits_value(ip)
        <= MAX_SECONDS {
        Some(digits_value(ip) * 1000 + digit_at(fp, 0) * 100 + digit_at(fp, 1) * 10 + digit_at(
            fp,
            2,
        ))
    } else {
        None
    }
}

/// What a run's meta file says, with the defaults of absent or unreadable
/// values: no time, no memory, not killed, status `OK`.
pub ghost struct MetaView {
    pub time_ms: nat,
    pub cg_mem_kb: nat,
    pub max_rss_kb: nat,
    pub cg_oom_killed: nat,
    pub status: Seq<char>,
}

pub open spec fn number_field(c: Seq<char>, key: Seq<char>) -> nat {
    match meta_field(c, key) {
        Some(v) => match bounded_value(v, u32::MAX as nat) {
            Some(x) => x,
            None => 0,
        },
        None => 0,
    }
}

pub open spec fn meta_of(c: Seq<char>) -> MetaView {
    MetaView {
        time_ms: match meta_field(c, "time"@) {
            Some(v) => match seconds_ms(v) {
                Some(x) => x,
                None => 0,
            },
            None => 0,
        },
        cg_mem_kb: number_field(c, "cg-mem"@),
        max_rss_kb: number_field(c, "max-rss"@),
        cg_oom_killed: number_field(c, "cg-oom-killed"@),
        status: match meta_field(c, "status"@) {
            Some(v) => v,
            None => "OK"@,
        },
    }
}

pub struct MetaInfo {
    pub time_ms: u64,
    pub cg_mem_kb: u64,
    pub max_rss_kb: u64,
    pub cg_oom_killed: u64,
    pub status: String,
}

impl View for MetaInfo {
    type V = MetaView;

    open spec fn view(&self) -> MetaView {
        MetaView {
            time_ms: self.time_ms as nat,
            cg_mem_kb: self.cg_mem_kb as nat,
            max_rss_kb: self.max_rss_kb as nat,
            cg_oom_killed: self.cg_oom_killed as nat,
            status: self.status@,
        }
    }
}

/// The status of a run, in the order the checks are made; `None` when the
/// tool reports a failure of its own.
pub open spec fn run_status(m: MetaView, exit_success: bool) -> Option<SandboxExecutionStatus> {
    if m.cg_oom_killed == 1 {
        Some(SandboxExecutionStatus::MemoryLimitExceeded)
    } else if m.status == "RE"@ || m.status == "SG"@ {
        Some(SandboxExecutionStatus::RuntimeError)
    } else if m.status == "TO"@ {
        Some(SandboxExecutionStatus::TimeLimitExceeded)
    } else if m.status == "XX"@ {
        None
    } else if !exit_success {
        Some(SandboxExecutionStatus::RuntimeError)
    } else {
        Some(SandboxExecutionStatus::Success)
    }
}

fn chars_of(s: &str) -> (r: Vec<char>)
    ensures
        r@ == s@,
{
    let n = s.unicode_len();
    let mut v: Vec<char> = Vec::new();
    let mut i: usize = 0;
    while i < n
        invariant
            n == s@.len(),
            i <= n,
            v@ == s@.subrange(0, i as int),
        decreases n - i,
    {
        v.push(s.get_char(i));
        i = i + 1;
        assert(v@ =~= s@.subrange(0, i as int));
    }
    assert(s@.subrange(0, n as int) =~= s@);
    v
}

fn index_from_exec(c: &Vec<char>, ch: char, p: usize, end: usize) -> (r: usize)
    requires
        p <= end <= c@.len(),
    ensures
        r as int == index_from(c@, ch, p as int, end as int),
        p <= r <= end,
{
    let mut i: usize = p;
    while i < end
        invariant
            p <= i <= end <= c@.len(),
            index_from(c@, ch, p as int, end as int) == index_from(c@, ch, i as int, end as int),
        decreases end - i,
    {
        if c[i] == ch {
            return i;
        }
        i = i + 1;
    }
    i
}

fn key_at_exec(c: &Vec<char>, p: usize, key: &Vec<char>) -> (r: bool)
    requires
        p <= c@.len(),
    ensures
        r == key_at(c@, p as int, key@),
{
    if key.len() > c.len() - p {
        return false;
    }
    let mut j: usize = 0;
    while j < key.len()
        invariant
            p + key@.len() <= c@.len(),
            c@.len() <= usize::MAX,
            j <= key@.len(),
            c@.subrange(p as int, p + j) == key@.subrange(0, j as int),
        decreases key@.len() - j,
    {
        if c[p + j] != key[j] {
            assert(c@.subrange(p as int, p + key@.len())[j as int] != key@[j as int]);
            return false;
        }
        j = j + 1;
        assert(c@.subrange(p as int, p + j) =~= key@.subrange(0, j as int));
    }
    assert(key@.subrange(0, key@.len() as int) =~= key@);
    true
}

/// The value of `key` in the meta text `content`.
pub fn meta_value(content: &str, key: &str) -> (r: Option<String>)
    ensures
        r is Some == meta_field(content@, key@) is Some,
        r is Some ==> r.unwrap()@ == meta_field(content@, key@).unwrap(),
{
    let c = chars_of(content);
    let k0 = chars_of(key);
    let klen = k0.len();
    let mut k = k0;
    k.push(':');
    proof {
        reveal_strlit(":");
        assert(k@ =~= key@ + ":"@);
    }
    let n = c.len();
    let mut p: usize = 0;
    while p < n && !((p == 0 || c[p - 1] == '\n') && key_at_exec(&c, p, &k))
        invariant
            n == c@.len(),
            c@ == content@,
            k@ == key@ + ":"@,
            p <= n,
            key_line_from(c@, key@, 0) == key_line_from(c@, key@, p as int),
        decreases n - p,
    {
        p = p + 1;
    }
    if p >= n {
        return None;
    }
    let v = p + klen + 1;
    let e = index_from_exec(&c, '\n', v, n);
    let (a, b) = trim_bounds(content, v, e);
    Some(String::from_str(content.substring_char(a, b)))
}

fn all_digits_exec(c: &Vec<char>, a: usize, b: usize) -> (r: bool)
    requires
        a <= b <= c@.len(),
    ensures
        r == all_digits(c@.subrange(a as int, b as int)),
{
    let mut i: usize = a;
    while i < b
        invariant
            a <= i <= b <= c@.len(),
            forall|k: int| a <= k < i ==> is_digit(#[trigger] c@[k]),
        decreases b - i,
    {
        if !('0' <= c[i] && c[i] <= '9') {
            assert(c@.subrange(a as int, b as int)[i - a] == c@[i as int]);
            return false;
        }
        i = i + 1;
    }
    assert forall|k: int| 0 <= k < b - a implies is_digit(
        #[trigger] c@.subrange(a as int, b as int)[k],
    ) by {
        assert(c@.subrange(a as int, b as int)[k] == c@[a + k]);
    }
    true
}

fn digit_at_exec(c: &Vec<char>, a: usize, i: usize) -> (r: u64)
    requires
        a <= c@.len(),
        i < 3,
        all_digits(c@.subrange(a as int, c@.len() as int)),
    ensures
        r == digit_at(c@.subrange(a as int, c@.len() as int), i as int),
        r < 10,
{
    if i < c.len() - a {
        assert(c@.subrange(a as int, c@.len() as int)[i as int] == c@[a + i]);
        (c[a + i] as u64) - ('0' as u64)
    } else {
        0
    }
}

/// Reads decimal seconds as whole milliseconds.
pub fn parse_seconds_ms(s: &str) -> (r: Option<u64>)
    ensures
        r is Some == seconds_ms(s@) is Some,
        r is Some ==> r.unwrap() == seconds_ms(s@).unwrap(),
{
    let c = chars_of(s);
    let n = c.len();
    let start: usize = if n > 0 && c[0] == '+' {
        1
    } else {
        0
    };
    let ghost t = s@.subrange(start as int, n as int);
    assert(start == 1 ==> t =~= s@.drop_first());
    assert(start == 0 ==> t =~= s@);
    let dot = index_from_exec(&c, '.', start, n);
    proof {
        lemma_index_shift(c@, t, '.', start as int, start as int, n as int);
    }
    let fstart: usize = if dot < n {
        dot + 1
    } else {
        n
    };
    let ghost ip = t.subrange(0, dot - start);
    let ghost fp = if dot < n {
        t.subrange(dot - start + 1, t.len() as int)
    } else {
        Seq::<char>::empty()
    };
    assert(ip =~= s@.subrange(start as int, dot as int));
    assert(fp =~= s@.subrange(fstart as int, n as int));
    if dot - start + (n - fstart) == 0 {
        return None;
    }
    let whole = match parse_digits_range(s, start, dot, MAX_SECONDS) {
        Some(w) => w,
        None => {
            return None;
        },
    };
    if !all_digits_exec(&c, fstart, n) {
        return None;
    }
    let d0 = digit_at_exec(&c, fstart, 0);
    let d1 = digit_at_exec(&c, fstart, 1);
    let d2 = digit_at_exec(&c, fstart, 2);
    Some(whole * 1000 + d0 * 100 + d1 * 10 + d2)
}

proof fn lemma_index_shift(c: Seq<char>, t: Seq<char>, ch: char, start: int, a: int, b: int)
    requires
        0 <= start <= a <= b <= c.len(),
        t == c.subrange(start, c.len() as int),
    ensures
        index_from(c, ch, a, b) - start == index_from(t, ch, a - start, b - start),
    decreases b - a,
{
    if a < b {
        assert(t[a - start] == c[a]);
        lemma_index_shift(c, t, ch, start, a + 1, b);
    }
}

/// The digits of `s` in `[start, end)` as a number no greater than `max`.
fn parse_digits_range(s: &str, start: usize, end: usize, max: u64) -> (r: Option<u64>)
    requires
        start <= end <= s@.len(),
    ensures
        ({
            let d = s@.subrange(start as int, end as int);
            r == (if all_digits(d) && digits_value(d) <= max {
                Some(digits_value(d) as u64)
            } else {
                None
            })
        }),
{
    if start == end {
        assert(s@.subrange(start as int, end as int) =~= Seq::<char>::empty());
        return Some(0);
    }
    parse_bounded_range(s, start, end, max)
}

fn parse_bounded_range(s: &str, start: usize, end: usize, max: u64) -> (r: Option<u64>)
    requires
        start < end <= s@.len(),
    ensures
        ({
            let d = s@.subrange(start as int, end as int);
            r == (if all_digits(d) && digits_value(d) <= max {
                Some(digits_value(d) as u64)
            } else {
                None
            })
        }),
{
    let sub = s.substring_char(start, end);
    let ghost d = s@.subrange(start as int, end as int);
    assert(sub@ == d);
    if sub.get_char(0) == '+' {
        assert(!all_digits(d)) by {
            assert(d[0] == '+');
        }
        return None;
    }
    let r = parse_bounded(sub, max);
    proof {
        assert(!(d.len() > 0 && d[0] == '+'));
    }
    r
}

/// Reads every value that a run's accounting needs from the meta text.
pub fn parse_meta_file(content: &str) -> (r: MetaInfo)
    ensures
        r@ == meta_of(content@),
{
    let time_ms = match meta_value(content, "time") {
        Some(v) => match parse_seconds_ms(v.as_str()) {
            Some(x) => x,
            None => 0,
        },
        None => 0,
    };
    MetaInfo {
        time_ms,
        cg_mem_kb: number_value(content, "cg-mem"),
        max_rss_kb: number_value(content, "max-rss"),
        cg_oom_killed: number_value(content, "cg-oom-killed"),
        status: match meta_value(content, "status") {
            Some(v) => v,
            None => String::from_str("OK"),
        },
    }
}

fn number_value(content: &str, key: &str) -> (r: u64)
    ensures
        r == number_field(content@, key@),
{
    match meta_value(content, key) {
        Some(v) => match parse_bounded(v.as_str(), 4294967295u64) {
            Some(x) => x,
            None => 0,
        },
        None => 0,
    }
}

fn text_is(s: &String, lit: &str) -> (r: bool)
    ensures
        r == (s@ == lit@),
{
    *s == String::from_str(lit)
}

impl SandboxToolIsolate {
    /// The outcome of a run from the tool's meta text, whether the tool
    /// exited successfully, and what the program printed. Memory comes from
    /// the cgroup figure in the cgroup variant, from the peak resident size
    /// otherwise. A failure that the tool reports of itself is an error.
    pub fn execution_result(
        &self,
        meta_content: &str,
        exit_success: bool,
        stdout: String,
        stderr: String,
    ) -> (r: Result<SandboxExecutionResult, SandboxToolError>)
        ensures
            ({
                let m = meta_of(meta_content@);
                match run_status(m, exit_success) {
                    None => r is Err,
                    Some(st) => r is Ok && r.unwrap().status == st && r.unwrap().stdout == stdout
                        && r.unwrap().stderr == stderr && r.unwrap().time_ms == m.time_ms
                        && r.unwrap().memory_kb == (if self@.cgroup {
                        m.cg_mem_kb
                    } else {
                        m.max_rss_kb
                    }),
                }
            }),
    {
        let m = parse_meta_file(meta_content);
        let status = if m.cg_oom_killed == 1 {
            SandboxExecutionStatus::MemoryLimitExceeded
        } else if text_is(&m.status, "RE") || text_is(&m.status, "SG") {
            SandboxExecutionStatus::RuntimeError
        } else if text_is(&m.status, "TO") {
            SandboxExecutionStatus::TimeLimitExceeded
        } else if text_is(&m.status, "XX") {
            return Err(SandboxToolError::UnknownError(String::from_str("Internal error")));
        } else if !exit_success {
            SandboxExecutionStatus::RuntimeError
        } else {
            SandboxExecutionStatus::Success
        };
        let memory_kb = if self.is_cgroup() {
            m.cg_mem_kb
        } else {
            m.max_rss_kb
        };
        Ok(SandboxExecutionResult { status, stdout, stderr, time_ms: m.time_ms, memory_kb })
    }
}

} // verus!
