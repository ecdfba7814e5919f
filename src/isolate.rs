//! The adapter for the `isolate` tool: box-id allocation, the command lines of
//! its init, cleanup and run commands, and the reading of its meta file.
use crate::errors::SandboxToolError;
use crate::sandbox::{SandboxAdditionalDirectoryOptions, SandboxExecutionOptions};
use crate::text::{
    decimal, decimal_string, digit_char, joined, push_str, push_string, strings, trim, trim_bounds,
};
use vstd::prelude::*;
use vstd::string::*;

verus! {

pub const PROGRAM_NAME: &'static str = "isolate";

pub const STDIN_FILE_NAME: &'static str = "stdin.txt";

pub const META_FILE_NAME: &'static str = "meta.txt";

/// Process cap of every run.
pub const MAX_PROCESSES: u64 = 128;

/// Wall-clock cap of every run, in seconds.
pub const WALL_TIME_LIMIT_S: u64 = 100;

/// The tool's handle on one box: its id and its working directory.
#[derive(Debug, Clone)]
pub struct IsolateInner {
    box_id: i32,
    path: String,
}

impl IsolateInner {
    pub closed spec fn box_id_spec(&self) -> i32 {
        self.box_id
    }

    pub closed spec fn path_spec(&self) -> Seq<char> {
        self.path@
    }

    pub fn new(box_id: i32, path: String) -> (r: Self)
        ensures
            r.box_id_spec() == box_id,
            r.path_spec() == path@,
    {
        IsolateInner { box_id, path }
    }

    pub fn get_box_id(&self) -> (r: i32)
        ensures
            r == self.box_id_spec(),
    {
        self.box_id
    }

    pub fn get_path(&self) -> (r: &String)
        ensures
            r@ == self.path_spec(),
    {
        &self.path
    }

    /// The host path of `file_name` in the box's working directory.
    pub fn file_path(&self, file_name: &str) -> (r: String)
        ensures
            r@ == self.path_spec() + "/"@ + file_name@,
    {
        joined(self.path.as_str(), "/").concat(file_name)
    }
}

/// State of the box-id allocator: the next fresh id and the released ids,
/// the last released on top.
pub ghost struct ToolModel {
    pub next: int,
    pub free: Seq<i32>,
    pub cgroup: bool,
}

impl ToolModel {
    /// Every released id was handed out before and is released once.
    pub open spec fn wf(self) -> bool {
        &&& 0 <= self.next <= i32::MAX
        &&& self.free.no_duplicates()
        &&& forall|i: int| 0 <= i < self.free.len() ==> 0 <= #[trigger] self.free[i] < self.next
    }

    /// Whether a claim succeeds: a released id is at hand or a fresh one is left.
    pub open spec fn claim_ok(self) -> bool {
        self.free.len() > 0 || self.next < i32::MAX
    }

    /// The id a successful claim hands out: the last released one, else a fresh one.
    pub open spec fn claim_id(self) -> i32 {
        if self.free.len() > 0 {
            self.free.last()
        } else {
            self.next as i32
        }
    }

    pub open spec fn claim_next(self) -> ToolModel {
        if self.free.len() > 0 {
            ToolModel { free: self.free.drop_last(), ..self }
        } else if self.next < i32::MAX {
            ToolModel { next: self.next + 1, ..self }
        } else {
            self
        }
    }

    /// A release takes back an id that was handed out and is not free yet;
    /// any other id is ignored.
    pub open spec fn release_next(self, id: i32) -> ToolModel {
        if 0 <= id < self.next && !self.free.contains(id) {
            ToolModel { free: self.free.push(id), ..self }
        } else {
            self
        }
    }
}

/// A build claims an id; destroying that box releases it. The free list then
/// holds exactly one id more than right after the build, and the next build
/// is handed that same id.
pub proof fn lemma_build_destroy_reuses_id(t: ToolModel)
    requires
        t.wf(),
        t.claim_ok(),
    ensures
        t.claim_next().wf(),
        t.claim_next().release_next(t.claim_id()).free.len() == t.claim_next().free.len() + 1,
        t.claim_next().release_next(t.claim_id()).wf(),
        t.claim_next().release_next(t.claim_id()).claim_ok(),
        t.claim_next().release_next(t.claim_id()).claim_id() == t.claim_id(),
{
    let t1 = t.claim_next();
    let id = t.claim_id();
    if t.free.len() > 0 {
        assert(t.free =~= t1.free.push(id));
        assert(!t1.free.contains(id)) by {
            if t1.free.contains(id) {
                let k = choose|k: int| 0 <= k < t1.free.len() && t1.free[k] == id;
                assert(t.free[k] == t.free[t.free.len() - 1]);
            }
        }
        assert(t.free.contains(id));
        assert(0 <= id < t.next) by {
            assert(t.free[t.free.len() - 1] == id);
        }
    } else {
        assert(!t1.free.contains(id));
    }
    let t2 = t1.release_next(id);
    assert(t2.free.last() == id);
    assert(t2.free.no_duplicates()) by {
        assert forall|i: int, j: int|
            0 <= i < t2.free.len() && 0 <= j < t2.free.len() && i != j implies t2.free[i]
            != t2.free[j] by {
            if i == t2.free.len() - 1 {
                assert(t1.free.contains(t2.free[j]) || j == i);
            } else if j == t2.free.len() - 1 {
                assert(t1.free.contains(t2.free[i]));
            }
        }
    }
}

/// The two build variants of the tool: plain, or with cgroup accounting.
pub struct SandboxToolIsolate {
    box_id_counter: i32,
    box_id_pool: Vec<i32>,
    cgroup: bool,
}

impl View for SandboxToolIsolate {
    type V = ToolModel;

    closed spec fn view(&self) -> ToolModel {
        ToolModel { next: self.box_id_counter as int, free: self.box_id_pool@, cgroup: self.cgroup }
    }
}

/// The tool variant that a build names: `isolate-cg` selects cgroup
/// accounting, `nsjail` is reserved and not available, anything else selects
/// the plain variant.
pub open spec fn tool_kind(sandbox_type: Seq<char>) -> Option<bool> {
    if sandbox_type == "isolate-cg"@ {
        Some(true)
    } else if sandbox_type == "nsjail"@ {
        None
    } else {
        Some(false)
    }
}

pub fn build_tool(sandbox_type: &str) -> (r: Result<SandboxToolIsolate, SandboxToolError>)
    ensures
        tool_kind(sandbox_type@) is None ==> r is Err,
        tool_kind(sandbox_type@) is Some ==> r is Ok && r.unwrap()@ == (ToolModel {
            next: 0,
            free: Seq::empty(),
            cgroup: tool_kind(sandbox_type@).unwrap(),
        }) && r.unwrap()@.wf(),
{
    let t = String::from_str(sandbox_type);
    if t == String::from_str("isolate-cg") {
        Ok(SandboxToolIsolate::new_cgroup())
    } else if t == String::from_str("nsjail") {
        Err(SandboxToolError::UnknownError(String::from_str("the nsjail tool is not available")))
    } else {
        Ok(SandboxToolIsolate::new())
    }
}

pub open spec fn box_id_flag(box_id: i32) -> Seq<char> {
    "--box-id="@ + decimal(box_id as nat)
}

pub open spec fn cg_flags(cgroup: bool) -> Seq<Seq<char>> {
    if cgroup {
        seq!["--cg"@]
    } else {
        Seq::empty()
    }
}

/// Arguments of the init command of box `box_id`.
pub open spec fn init_args(cgroup: bool, box_id: i32) -> Seq<Seq<char>> {
    cg_flags(cgroup) + seq![box_id_flag(box_id), "--init"@]
}

/// Arguments of the cleanup command of box `box_id`.
pub open spec fn cleanup_args(cgroup: bool, box_id: i32) -> Seq<Seq<char>> {
    cg_flags(cgroup) + seq![box_id_flag(box_id), "--cleanup"@]
}

/// Three digits of a remainder of milliseconds, trailing zeros removed.
pub open spec fn millis_text(r: nat) -> Seq<char> {
    let d = seq![digit_char(r / 100), digit_char((r / 10) % 10), digit_char(r % 10)];
    if r % 100 == 0 {
        d.subrange(0, 1)
    } else if r % 10 == 0 {
        d.subrange(0, 2)
    } else {
        d
    }
}

/// A time in milliseconds written as decimal seconds, as `2`, `0.5` or `1.25`.
pub open spec fn seconds_text(ms: nat) -> Seq<char> {
    if ms % 1000 == 0 {
        decimal(ms / 1000)
    } else {
        decimal(ms / 1000) + "."@ + millis_text(ms % 1000)
    }
}

pub open spec fn memory_flags(cgroup: bool, kb: u64) -> Seq<Seq<char>> {
    if cgroup {
        seq!["--cg"@, "--cg-mem="@ + decimal(kb as nat)]
    } else {
        seq!["--mem="@ + decimal(kb as nat)]
    }
}

pub open spec fn dir_flag(d: SandboxAdditionalDirectoryOptions) -> Seq<char> {
    "--dir="@ + d.mount_point@ + "="@ + d.directory_path@
}

pub open spec fn dir_flags(o: Option<Vec<SandboxAdditionalDirectoryOptions>>) -> Seq<Seq<char>> {
    match o {
        Some(v) => v@.map_values(|d: SandboxAdditionalDirectoryOptions| dir_flag(d)),
        None => Seq::empty(),
    }
}

/// Arguments of the run command: limits, mounts, box, accounting files, and
/// the program with its arguments.
pub open spec fn run_args(
    cgroup: bool,
    box_id: i32,
    path: Seq<char>,
    o: SandboxExecutionOptions,
) -> Seq<Seq<char>> {
    memory_flags(cgroup, o.memory_limit_kb) + dir_flags(o.additional_directory_options) + seq![
        box_id_flag(box_id),
        "--processes="@ + decimal(MAX_PROCESSES as nat),
        "--time="@ + seconds_text(o.time_limit_ms as nat),
        "--wall-time="@ + decimal(WALL_TIME_LIMIT_S as nat),
        "--stdin="@ + STDIN_FILE_NAME@,
        "--meta="@ + path + "/"@ + META_FILE_NAME@,
        "--run"@,
        "--"@,
        o.binary_path@,
    ] + strings(o.args@)
}

fn millis_string(r: u64) -> (s: String)
    requires
        r < 1000,
    ensures
        s@ == millis_text(r as nat),
{
    let a = decimal_string(r / 100);
    let b = decimal_string((r / 10) % 10);
    let c = decimal_string(r % 10);
    let ghost d = seq![
        digit_char((r / 100) as nat),
        digit_char(((r / 10) % 10) as nat),
        digit_char((r % 10) as nat),
    ];
    proof {
        reveal_with_fuel(decimal, 1);
    }
    if r % 100 == 0 {
        assert(a@ =~= d.subrange(0, 1));
        a
    } else if r % 10 == 0 {
        let s = a.concat(b.as_str());
        assert(s@ =~= d.subrange(0, 2));
        s
    } else {
        let s = a.concat(b.as_str()).concat(c.as_str());
        assert(s@ =~= d);
        s
    }
}

/// Writes a time in milliseconds as decimal seconds.
pub fn seconds_string(ms: u64) -> (r: String)
    ensures
        r@ == seconds_text(ms as nat),
{
    let whole = decimal_string(ms / 1000);
    if ms % 1000 == 0 {
        whole
    } else {
        let f = millis_string(ms % 1000);
        whole.concat(".").concat(f.as_str())
    }
}

impl SandboxToolIsolate {
    /// The plain variant, with no box id handed out yet.
    pub fn new() -> (r: Self)
        ensures
            r@ == (ToolModel { next: 0, free: Seq::empty(), cgroup: false }),
            r@.wf(),
    {
        SandboxToolIsolate { box_id_counter: 0, box_id_pool: Vec::new(), cgroup: false }
    }

    /// The cgroup variant, with no box id handed out yet.
    pub fn new_cgroup() -> (r: Self)
        ensures
            r@ == (ToolModel { next: 0, free: Seq::empty(), cgroup: true }),
            r@.wf(),
    {
        SandboxToolIsolate { box_id_counter: 0, box_id_pool: Vec::new(), cgroup: true }
    }

    pub fn is_cgroup(&self) -> (r: bool)
        ensures
            r == self@.cgroup,
    {
        self.cgroup
    }

    /// Hands out the last released id, else the next fresh one; fails only
    /// when no id is free and the fresh ids are used up.
    pub fn claim_box_id(&mut self) -> (r: Result<i32, SandboxToolError>)
        requires
            old(self)@.wf(),
        ensures
            final(self)@.wf(),
            final(self)@ == old(self)@.claim_next(),
            r is Ok <==> old(self)@.claim_ok(),
            r is Ok ==> r.unwrap() == old(self)@.claim_id() && 0 <= r.unwrap(),
    {
        match self.box_id_pool.pop() {
            Some(box_id) => {
                proof {
                    let f = old(self)@.free;
                    assert forall|i: int| 0 <= i < self.box_id_pool@.len() implies 0
                        <= #[trigger] self.box_id_pool@[i] < self.box_id_counter by {
                        assert(self.box_id_pool@[i] == f[i]);
                    }
                    assert(self.box_id_pool@.no_duplicates()) by {
                        assert forall|i: int, j: int|
                            0 <= i < self.box_id_pool@.len() && 0 <= j
                                < self.box_id_pool@.len() && i != j implies self.box_id_pool@[i]
                            != self.box_id_pool@[j] by {
                            assert(self.box_id_pool@[i] == f[i] && self.box_id_pool@[j] == f[j]);
                        }
                    }
                }
                Ok(box_id)
            },
            None => {
                if self.box_id_counter == i32::MAX {
                    Err(SandboxToolError::UnknownError(String::from_str("box ids are exhausted")))
                } else {
                    let box_id = self.box_id_counter;
                    self.box_id_counter = self.box_id_counter + 1;
                    Ok(box_id)
                }
            },
        }
    }

    /// Takes back an id that was handed out and is not free already.
    pub fn release_box_id(&mut self, box_id: i32)
        requires
            old(self)@.wf(),
        ensures
            final(self)@.wf(),
            final(self)@ == old(self)@.release_next(box_id),
    {
        if box_id < 0 || box_id >= self.box_id_counter {
            return ;
        }
        let mut i: usize = 0;
        while i < self.box_id_pool.len()
            invariant
                self@ == old(self)@,
                old(self)@.wf(),
                0 <= box_id < self.box_id_counter,
                i <= self.box_id_pool@.len(),
                forall|k: int| 0 <= k < i ==> self.box_id_pool@[k] != box_id,
            decreases self.box_id_pool@.len() - i,
        {
            if self.box_id_pool[i] == box_id {
                assert(self@.free.contains(box_id));
                return ;
            }
            i = i + 1;
        }
        self.box_id_pool.push(box_id);
        proof {
            let f = old(self)@.free;
            let g = self.box_id_pool@;
            assert(g == f.push(box_id));
            assert(g.no_duplicates()) by {
                assert forall|a: int, b: int|
                    0 <= a < g.len() && 0 <= b < g.len() && a != b implies g[a] != g[b] by {
                    if a < f.len() && b < f.len() {
                        assert(g[a] == f[a] && g[b] == f[b]);
                    }
                }
            }
            assert forall|k: int| 0 <= k < g.len() implies 0 <= #[trigger] g[k]
                < self.box_id_counter by {
                if k < f.len() {
                    assert(g[k] == f[k]);
                }
            }
        }
    }

    pub fn get_box_id_pool_len(&self) -> (r: usize)
        ensures
            r == self@.free.len(),
    {
        self.box_id_pool.len()
    }

    fn cg_prefix(&self) -> (r: Vec<String>)
        ensures
            strings(r@) == cg_flags(self@.cgroup),
    {
        let mut v: Vec<String> = Vec::new();
        if self.cgroup {
            push_str(&mut v, "--cg");
        }
        assert(strings(v@) =~= cg_flags(self@.cgroup));
        v
    }

    fn box_id_arg(box_id: i32) -> (r: String)
        requires
            box_id >= 0,
        ensures
            r@ == box_id_flag(box_id),
    {
        String::from_str("--box-id=").concat(decimal_string(box_id as u64).as_str())
    }

    /// Arguments of the command that initialises box `box_id`.
    pub fn init_command_args(&self, box_id: i32) -> (r: Vec<String>)
        requires
            box_id >= 0,
        ensures
            strings(r@) == init_args(self@.cgroup, box_id),
    {
        let mut v = self.cg_prefix();
        push_string(&mut v, Self::box_id_arg(box_id));
        push_str(&mut v, "--init");
        assert(strings(v@) =~= init_args(self@.cgroup, box_id));
        v
    }

    /// Arguments of the command that cleans up box `box_id`.
    pub fn cleanup_command_args(&self, box_id: i32) -> (r: Vec<String>)
        requires
            box_id >= 0,
        ensures
            strings(r@) == cleanup_args(self@.cgroup, box_id),
    {
        let mut v = self.cg_prefix();
        push_string(&mut v, Self::box_id_arg(box_id));
        push_str(&mut v, "--cleanup");
        assert(strings(v@) =~= cleanup_args(self@.cgroup, box_id));
        v
    }

    /// Arguments of the command that runs `options` in the box of `inner`.
    pub fn run_command_args(&self, inner: &IsolateInner, options: &SandboxExecutionOptions) -> (r:
        Vec<String>)
        requires
            inner.box_id_spec() >= 0,
        ensures
            strings(r@) == run_args(self@.cgroup, inner.box_id_spec(), inner.path_spec(), *options),
    {
        let mut v: Vec<String> = Vec::new();
        let mem = decimal_string(options.memory_limit_kb);
        if self.cgroup {
            push_str(&mut v, "--cg");
            push_string(&mut v, joined("--cg-mem=", mem.as_str()));
        } else {
            push_string(&mut v, joined("--mem=", mem.as_str()));
        }
        assert(strings(v@) =~= memory_flags(self@.cgroup, options.memory_limit_kb));
        let ghost base = strings(v@);
        match &options.additional_directory_options {
            Some(dirs) => {
                let mut i: usize = 0;
                while i < dirs.len()
                    invariant
                        i <= dirs@.len(),
                        strings(v@) == base + dirs@.subrange(0, i as int).map_values(
                            |d: SandboxAdditionalDirectoryOptions| dir_flag(d),
                        ),
                    decreases dirs@.len() - i,
                {
                    let d = &dirs[i];
                    let flag = joined("--dir=", d.mount_point.as_str()).concat("=").concat(
                        d.directory_path.as_str(),
                    );
                    push_string(&mut v, flag);
                    i = i + 1;
                    assert(dirs@.subrange(0, i as int).map_values(
                        |d: SandboxAdditionalDirectoryOptions| dir_flag(d),
                    ) =~= dirs@.subrange(0, i - 1).map_values(
                        |d: SandboxAdditionalDirectoryOptions| dir_flag(d),
                    ).push(dir_flag(dirs@[i - 1])));
                }
                assert(dirs@.subrange(0, dirs@.len() as int) =~= dirs@);
            },
            None => {
                assert(base + dir_flags(options.additional_directory_options) =~= base);
            },
        }
        assert(strings(v@) == base + dir_flags(options.additional_directory_options));
        let ghost mid = strings(v@);
        push_string(&mut v, Self::box_id_arg(inner.get_box_id()));
        push_string(&mut v, joined("--processes=", decimal_string(MAX_PROCESSES).as_str()));
        push_string(&mut v, joined("--time=", seconds_string(options.time_limit_ms).as_str()));
        push_string(&mut v, joined("--wall-time=", decimal_string(WALL_TIME_LIMIT_S).as_str()));
        push_string(&mut v, joined("--stdin=", STDIN_FILE_NAME));
        push_string(
            &mut v,
            joined("--meta=", inner.get_path().as_str()).concat("/").concat(META_FILE_NAME),
        );
        push_str(&mut v, "--run");
        push_str(&mut v, "--");
        push_string(&mut v, options.binary_path.clone());
        let ghost fixed = strings(v@);
        let mut j: usize = 0;
        while j < options.args.len()
            invariant
                j <= options.args@.len(),
                strings(v@) == fixed + strings(options.args@.subrange(0, j as int)),
            decreases options.args@.len() - j,
        {
            push_string(&mut v, options.args[j].clone());
            j = j + 1;
            assert(strings(options.args@.subrange(0, j as int)) =~= strings(
                options.args@.subrange(0, j - 1),
            ).push(options.args@[j - 1]@));
        }
        assert(options.args@.subrange(0, options.args@.len() as int) =~= options.args@);
        assert(strings(v@) =~= run_args(
            self@.cgroup,
            inner.box_id_spec(),
            inner.path_spec(),
            *options,
        ));
        v
    }
}

/// The working directory of a box, from what its init command printed.
pub open spec fn box_path_of(init_stdout: Seq<char>) -> Seq<char> {
    trim(init_stdout) + "/box"@
}

pub fn box_path_from_init_output(init_stdout: &str) -> (r: String)
    ensures
        r@ == box_path_of(init_stdout@),
{
    let n = init_stdout.unicode_len();
    let (a, b) = trim_bounds(init_stdout, 0, n);
    assert(init_stdout@.subrange(0, n as int) =~= init_stdout@);
    String::from_str(init_stdout.substring_char(a, b)).concat("/box")
}

} // verus!
