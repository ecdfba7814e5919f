//! The sandbox pool: every sandbox by id with its status, the queue of idle
//! ids in the order they became idle, and the tool's box-id allocator.
//!
//! The pool is a single-owner state: a runtime that shares it between tasks
//! holds it behind one lock and performs the tool's commands and the file
//! I/O between calls. An id travels through the idle queue; an id whose
//! sandbox is gone or no longer idle is skipped when it comes up.
use crate::errors::{SandboxError, SandboxManagerError, SandboxToolError};
use crate::isolate::{SandboxToolIsolate, ToolModel};
use crate::sandbox::{Sandbox, SandboxStatus, byte_of_status};
use dashmap::DashMap;
use std::collections::VecDeque;
use vstd::prelude::*;

verus! {

#[verifier::external_type_specification]
#[verifier::external_body]
#[verifier::reject_recursive_types(K)]
#[verifier::reject_recursive_types(V)]
#[verifier::reject_recursive_types(S)]
pub struct ExDashMap<K, V, S>(DashMap<K, V, S>);

/// The map that holds the pool's sandboxes by id.
pub type SandboxTable = DashMap<u128, Sandbox>;

/// The entries of a sandbox map.
pub uninterp spec fn sandbox_table(m: SandboxTable) -> Map<u128, Sandbox>;

/// Relies on DashMap::new: an empty map.
#[verifier::external_body]
fn table_new() -> (r: SandboxTable)
    ensures
        sandbox_table(r).dom() == Set::<u128>::empty(),
{
    DashMap::new()
}

/// Relies on DashMap::insert: the entry for `id` becomes `sb`, the others stay.
#[verifier::external_body]
fn table_insert(m: &mut SandboxTable, id: u128, sb: Sandbox)
    ensures
        sandbox_table(*final(m)) == sandbox_table(*old(m)).insert(id, sb),
{
    m.insert(id, sb);
}

/// Relies on DashMap::remove: takes out the entry for `id` and hands back its value.
#[verifier::external_body]
fn table_remove(m: &mut SandboxTable, id: u128) -> (r: Option<Sandbox>)
    ensures
        sandbox_table(*final(m)) == sandbox_table(*old(m)).remove(id),
        sandbox_table(*old(m)).contains_key(id) ==> r == Some(sandbox_table(*old(m))[id]),
        !sandbox_table(*old(m)).contains_key(id) ==> r is None,
{
    m.remove(&id).map(|entry| entry.1)
}

/// Relies on DashMap::get: a copy of the value for `id`, if there is one.
#[verifier::external_body]
fn table_get(m: &SandboxTable, id: u128) -> (r: Option<Sandbox>)
    ensures
        sandbox_table(*m).contains_key(id) ==> r == Some(sandbox_table(*m)[id]),
        !sandbox_table(*m).contains_key(id) ==> r is None,
{
    m.get(&id).map(|entry| entry.value().clone())
}

/// Relies on DashMap::iter: each key once.
#[verifier::external_body]
fn table_ids(m: &SandboxTable) -> (r: Vec<u128>)
    ensures
        r@.no_duplicates(),
        r@.to_set() == sandbox_table(*m).dom(),
{
    m.iter().map(|entry| *entry.key()).collect()
}

/// Relies on DashMap::len: the number of entries.
#[verifier::external_body]
fn table_len(m: &SandboxTable) -> (r: usize)
    ensures
        r == sandbox_table(*m).dom().len(),
{
    m.len()
}

/// The ids whose sandbox has status `s`.
pub open spec fn ids_with(table: Map<u128, Sandbox>, s: SandboxStatus) -> Set<u128> {
    table.dom().filter(|id: u128| table[id].status_spec() == s)
}

pub open spec fn count_status(table: Map<u128, Sandbox>, s: SandboxStatus) -> nat {
    ids_with(table, s).len()
}

pub open spec fn with_status(sb: Sandbox, s: SandboxStatus) -> Sandbox {
    Sandbox { status: byte_of_status(s), ..sb }
}

/// The pool's invariant: each entry is keyed by its own id, the idle queue
/// holds each id at most once, and a sandbox in the pool is idle exactly when
/// its id waits in the queue. The queue may still hold ids of sandboxes that
/// have left the pool.
pub open spec fn pool_wf(table: Map<u128, Sandbox>, idle: Seq<u128>) -> bool {
    &&& table.dom().finite()
    &&& idle.no_duplicates()
    &&& forall|id: u128| #[trigger] table.contains_key(id) ==> table[id].id == id
    &&& forall|id: u128| #[trigger]
        table.contains_key(id) ==> (table[id].status_spec() == SandboxStatus::Idle
            <==> idle.contains(id))
}

/// How many new sandboxes a scale-up by `n` may create: at most what the cap
/// leaves room for.
pub open spec fn scale_up_count(max: nat, total: nat, n: nat) -> nat {
    if total >= max {
        0
    } else if n <= max - total {
        n
    } else {
        (max - total) as nat
    }
}


/// The first index at or after `k` in the idle queue whose sandbox is in the
/// pool and idle.
pub open spec fn first_claimable(table: Map<u128, Sandbox>, idle: Seq<u128>, k: int) -> Option<int>
    decreases idle.len() - k,
{
    if k < 0 || k >= idle.len() {
        None
    } else if table.contains_key(idle[k]) && table[idle[k]].status_spec() == SandboxStatus::Idle {
        Some(k)
    } else {
        first_claimable(table, idle, k + 1)
    }
}

proof fn lemma_first_claimable(table: Map<u128, Sandbox>, idle: Seq<u128>, k: int)
    requires
        0 <= k,
    ensures
        first_claimable(table, idle, k) matches Some(j) ==> k <= j < idle.len() && table.contains_key(idle[j])
            && table[idle[j]].status_spec() == SandboxStatus::Idle,
        forall|j: int|
            k <= j < idle.len() && (first_claimable(table, idle, k) is None
                || j < first_claimable(table, idle, k).unwrap()) ==> !(table.contains_key(
                #[trigger] idle[j],
            ) && table[idle[j]].status_spec() == SandboxStatus::Idle),
    decreases idle.len() - k,
{
    if k < idle.len() {
        lemma_first_claimable(table, idle, k + 1);
    }
}

proof fn lemma_filter_card(s: Seq<u128>, p: spec_fn(u128) -> bool)
    requires
        s.no_duplicates(),
    ensures
        s.filter(p).len() == s.to_set().filter(p).len(),
        s.to_set().finite(),
    decreases s.len(),
{
    if s.len() == 0 {
        assert(s.to_set() =~= Set::empty());
        assert(s.to_set().filter(p) =~= Set::empty());
        reveal(Seq::filter);
    } else {
        let t = s.drop_last();
        let x = s.last();
        assert(t.no_duplicates()) by {
            assert forall|i: int, j: int|
                0 <= i < t.len() && 0 <= j < t.len() && i != j implies t[i] != t[j] by {
                assert(t[i] == s[i] && t[j] == s[j]);
            }
        }
        lemma_filter_card(t, p);
        assert(s =~= t.push(x));
        t.lemma_filter_push(x, p);
        t.to_set().lemma_len_filter(p);
        assert(s.to_set() =~= t.to_set().insert(x));
        assert(!t.to_set().contains(x)) by {
            if t.contains(x) {
                let k = choose|k: int| 0 <= k < t.len() && t[k] == x;
                assert(s[k] == s[s.len() - 1]);
            }
        }
        if p(x) {
            assert(s.to_set().filter(p) =~= t.to_set().filter(p).insert(x));
        } else {
            assert(s.to_set().filter(p) =~= t.to_set().filter(p));
        }
    }
}


/// No more sandboxes are Running than the pool holds: with a pool of `P`
/// sandboxes, at most `P` executions hold one at a time.
pub proof fn lemma_running_within_pool(table: Map<u128, Sandbox>)
    requires
        table.dom().finite(),
    ensures
        count_status(table, SandboxStatus::Running) <= table.dom().len(),
{
    vstd::set_lib::lemma_len_subset(ids_with(table, SandboxStatus::Running), table.dom());
}

/// One janitor tick on a pool within its cap `max`: every sandbox in Error
/// leaves the pool, then new idle sandboxes are added, as many as a scale-up
/// by the number removed allows. Afterwards no sandbox is in Error and the
/// pool holds as many sandboxes as before.
pub proof fn lemma_janitor_restores(
    table: Map<u128, Sandbox>,
    fresh: Map<u128, Sandbox>,
    max: nat,
)
    requires
        table.dom().finite(),
        fresh.dom().finite(),
        table.dom().len() <= max,
        forall|id: u128| #[trigger] fresh.contains_key(id) ==> !table.contains_key(id),
        forall|id: u128| #[trigger]
            fresh.contains_key(id) ==> fresh[id].status_spec() == SandboxStatus::Idle,
        fresh.dom().len() == scale_up_count(
            max,
            (table.dom().len() - count_status(table, SandboxStatus::Error)) as nat,
            count_status(table, SandboxStatus::Error),
        ),
    ensures
        ({
            let after = table.remove_keys(ids_with(table, SandboxStatus::Error)).union_prefer_right(
                fresh,
            );
            &&& count_status(after, SandboxStatus::Error) == 0
            &&& after.dom().len() == table.dom().len()
        }),
{
    let errs = ids_with(table, SandboxStatus::Error);
    let kept = table.remove_keys(errs);
    let after = kept.union_prefer_right(fresh);
    vstd::set_lib::lemma_len_subset(errs, table.dom());
    assert(kept.dom() =~= table.dom().difference(errs));
    vstd::set_lib::lemma_set_difference_len(table.dom(), errs);
    assert(table.dom().intersect(errs) =~= errs);
    assert(kept.dom().len() == table.dom().len() - errs.len());
    assert(fresh.dom().len() == errs.len());
    assert(after.dom() =~= kept.dom() + fresh.dom());
    assert(kept.dom().disjoint(fresh.dom()));
    vstd::set_lib::lemma_set_disjoint_lens(kept.dom(), fresh.dom());
    assert(ids_with(after, SandboxStatus::Error) =~= Set::empty()) by {
        assert forall|id: u128| !ids_with(after, SandboxStatus::Error).contains(id) by {
            if after.contains_key(id) && !fresh.contains_key(id) {
                assert(kept.contains_key(id) && after[id] == table[id]);
            }
        }
    }
}

pub struct SandboxManager {
    tool: SandboxToolIsolate,
    sandboxes: SandboxTable,
    idle: VecDeque<u128>,
    max_prewarmed: usize,
}

impl SandboxManager {
    /// Holds of every pool: the allocator and the pool are well formed.
    pub open spec fn wf(&self) -> bool {
        &&& self.tool_model().wf()
        &&& pool_wf(self.table(), self.idle_ids())
    }

    /// The sandboxes by id.
    pub closed spec fn table(&self) -> Map<u128, Sandbox> {
        sandbox_table(self.sandboxes)
    }

    /// The idle queue, front first.
    pub closed spec fn idle_ids(&self) -> Seq<u128> {
        self.idle@
    }

    pub closed spec fn tool_model(&self) -> ToolModel {
        self.tool@
    }

    /// The cap on the number of sandboxes that scaling up may reach.
    pub closed spec fn max_prewarmed(&self) -> nat {
        self.max_prewarmed as nat
    }

    /// An empty pool over `tool`, whose scale-up stops at `max_prewarmed`.
    pub fn new(tool: SandboxToolIsolate, max_prewarmed: usize) -> (r: Self)
        requires
            tool@.wf(),
        ensures
            r.table() == Map::<u128, Sandbox>::empty(),
            r.idle_ids() == Seq::<u128>::empty(),
            r.tool_model() == tool@,
            r.max_prewarmed() == max_prewarmed,
            r.wf(),
    {
        let r = SandboxManager {
            tool,
            sandboxes: table_new(),
            idle: VecDeque::new(),
            max_prewarmed,
        };
        assert(r.table().dom() =~= Set::empty());
        r
    }

    pub fn tool(&self) -> (r: &SandboxToolIsolate)
        ensures
            r@ == self.tool_model(),
    {
        &self.tool
    }

    /// Claims a box id from the tool for a new sandbox.
    pub fn claim_box_id(&mut self) -> (r: Result<i32, SandboxToolError>)
        requires
            old(self).wf(),
        ensures
            final(self).wf(),
            final(self).tool_model() == old(self).tool_model().claim_next(),
            r is Ok <==> old(self).tool_model().claim_ok(),
            r is Ok ==> r.unwrap() == old(self).tool_model().claim_id() && 0 <= r.unwrap(),
            final(self).table() == old(self).table(),
            final(self).idle_ids() == old(self).idle_ids(),
            final(self).max_prewarmed() == old(self).max_prewarmed(),
    {
        self.tool.claim_box_id()
    }

    /// Returns the box id of a destroyed sandbox to the tool.
    pub fn release_box_id(&mut self, box_id: i32)
        requires
            old(self).wf(),
        ensures
            final(self).wf(),
            final(self).tool_model() == old(self).tool_model().release_next(box_id),
            final(self).table() == old(self).table(),
            final(self).idle_ids() == old(self).idle_ids(),
            final(self).max_prewarmed() == old(self).max_prewarmed(),
    {
        self.tool.release_box_id(box_id);
    }

    fn idle_contains(&self, id: u128) -> (r: bool)
        ensures
            r == self.idle_ids().contains(id),
    {
        let mut i: usize = 0;
        while i < self.idle.len()
            invariant
                i <= self.idle@.len(),
                forall|k: int| 0 <= k < i ==> self.idle@[k] != id,
            decreases self.idle@.len() - i,
        {
            if self.idle[i] == id {
                return true;
            }
            i = i + 1;
        }
        false
    }

    /// Adds a new sandbox to the pool as idle, its id last in the idle queue.
    /// An id that the pool already holds, or that still waits in the queue,
    /// is refused.
    pub fn register(&mut self, sb: Sandbox) -> (r: Result<(), SandboxError>)
        requires
            old(self).wf(),
        ensures
            final(self).wf(),
            ({
                let dup = old(self).table().contains_key(sb.id) || old(self).idle_ids().contains(sb.id);
                &&& dup ==> r == Err::<(), SandboxError>(SandboxError::DuplicateSandboxId(sb.id))
                    && final(self).table() == old(self).table()
                    && final(self).idle_ids() == old(self).idle_ids()
                &&& !dup ==> r is Ok && final(self).table() == old(self).table().insert(
                    sb.id,
                    with_status(sb, SandboxStatus::Idle),
                ) && final(self).idle_ids() == old(self).idle_ids().push(sb.id)
            }),
            final(self).tool_model() == old(self).tool_model(),
            final(self).max_prewarmed() == old(self).max_prewarmed(),
    {
        let id = sb.id;
        let known = match table_get(&self.sandboxes, id) {
            Some(_) => true,
            None => false,
        };
        if known || self.idle_contains(id) {
            return Err(SandboxError::DuplicateSandboxId(id));
        }
        let ghost given = sb;
        let mut sb = sb;
        sb.set_idle();
        assert(sb == with_status(given, SandboxStatus::Idle));
        table_insert(&mut self.sandboxes, id, sb);
        self.idle.push_back(id);
        proof {
            let t = self.table();
            let q = self.idle@;
            assert(q.no_duplicates()) by {
                assert forall|a: int, b: int|
                    0 <= a < q.len() && 0 <= b < q.len() && a != b implies q[a] != q[b] by {
                    if a < q.len() - 1 && b < q.len() - 1 {
                        assert(q[a] == old(self).idle_ids()[a] && q[b] == old(self).idle_ids()[b]);
                    } else if a == q.len() - 1 {
                        assert(old(self).idle_ids().contains(q[b]) || b == a);
                    } else {
                        assert(old(self).idle_ids().contains(q[a]));
                    }
                }
            }
            assert forall|x: u128| #[trigger] t.contains_key(x) implies (t[x].status_spec()
                == SandboxStatus::Idle <==> q.contains(x)) by {
                if x != id {
                    if old(self).idle_ids().contains(x) {
                        let k = choose|k: int| 0 <= k < old(self).idle_ids().len() && old(self).idle_ids()[k] == x;
                        assert(q[k] == x);
                    }
                    if q.contains(x) {
                        let k = choose|k: int| 0 <= k < q.len() && q[k] == x;
                        assert(old(self).idle_ids()[k] == x);
                    }
                } else {
                    assert(q[q.len() - 1] == id);
                }
            }
        }
        Ok(())
    }

    /// Takes ids from the front of the idle queue until one names an idle
    /// sandbox of the pool, which becomes Running. Ids of sandboxes that left
    /// the pool or are not idle are dropped. With no such id the queue ends
    /// empty and no sandbox is available.
    pub fn claim_idle(&mut self) -> (r: Result<u128, SandboxManagerError>)
        requires
            old(self).wf(),
        ensures
            final(self).wf(),
            ({
                let table = old(self).table();
                let idle = old(self).idle_ids();
                match first_claimable(table, idle, 0) {
                    Some(k) => r == Ok::<u128, SandboxManagerError>(idle[k])
                        && final(self).idle_ids() == idle.subrange(k + 1, idle.len() as int)
                        && final(self).table() == table.insert(
                        idle[k],
                        with_status(table[idle[k]], SandboxStatus::Running),
                    ),
                    None => r is Err && r->Err_0 is NoSandboxAvailable && final(self).idle_ids()
                        == Seq::<u128>::empty() && final(self).table() == table,
                }
            }),
            final(self).tool_model() == old(self).tool_model(),
            final(self).max_prewarmed() == old(self).max_prewarmed(),
    {
        proof {
            lemma_first_claimable(self.table(), self.idle@, 0);
        }
        let ghost table = self.table();
        let ghost idle0 = self.idle@;
        let ghost mut j: int = 0;
        loop
            invariant
                self.table() == table,
                self.tool_model() == old(self).tool_model(),
                self.max_prewarmed() == old(self).max_prewarmed(),
                table == old(self).table(),
                idle0 == old(self).idle_ids(),
                old(self).wf(),
                pool_wf(table, idle0),
                0 <= j <= idle0.len(),
                self.idle@ == idle0.subrange(j, idle0.len() as int),
                first_claimable(table, idle0, 0) == first_claimable(table, idle0, j),
            decreases self.idle@.len(),
        {
            proof {
                lemma_first_claimable(table, idle0, j);
            }
            match self.idle.pop_front() {
                None => {
                    proof {
                        lemma_first_claimable(table, idle0, 0);
                        assert forall|x: u128| #[trigger] table.contains_key(x) implies table[x].status_spec()
                            != SandboxStatus::Idle by {
                            if table[x].status_spec() == SandboxStatus::Idle {
                                assert(idle0.contains(x));
                                let k = choose|k: int| 0 <= k < idle0.len() && idle0[k] == x;
                                assert(table.contains_key(idle0[k]));
                            }
                        }
                        assert(self.idle@ =~= Seq::<u128>::empty());
                    }
                    return Err(SandboxManagerError::NoSandboxAvailable);
                },
                Some(id) => {
                    assert(id == idle0[j]);
                    let found = table_get(&self.sandboxes, id);
                    match found {
                        Some(mut sb) => {
                            if sb.status() == SandboxStatus::Idle {
                                let ghost before = sb;
                                sb.set_running();
                                assert(sb == with_status(before, SandboxStatus::Running));
                                table_insert(&mut self.sandboxes, id, sb);
                                proof {
                                    let q = self.idle@;
                                    let t = self.table();
                                    assert(q =~= idle0.subrange(j + 1, idle0.len() as int));
                                    assert(q.no_duplicates()) by {
                                        assert forall|a: int, b: int|
                                            0 <= a < q.len() && 0 <= b < q.len() && a != b implies q[a]
                                            != q[b] by {
                                            assert(q[a] == idle0[j + 1 + a] && q[b] == idle0[j + 1 + b]);
                                        }
                                    }
                                    assert forall|x: u128| #[trigger] t.contains_key(x) implies (
                                    t[x].status_spec() == SandboxStatus::Idle <==> q.contains(x)) by {
                                        if x == id {
                                            if q.contains(x) {
                                                let k = choose|k: int| 0 <= k < q.len() && q[k] == x;
                                                assert(idle0[j + 1 + k] == idle0[j]);
                                            }
                                        } else {
                                            if q.contains(x) {
                                                let k = choose|k: int| 0 <= k < q.len() && q[k] == x;
                                                assert(idle0[j + 1 + k] == x);
                                            }
                                            if table[x].status_spec() == SandboxStatus::Idle {
                                                assert(idle0.contains(x));
                                                let k = choose|k: int| 0 <= k < idle0.len() && idle0[k] == x;
                                                if k <= j {
                                                    assert(first_claimable(table, idle0, j) == Some(j));
                                                    if k < j {
                                                        lemma_first_claimable(table, idle0, 0);
                                                    }
                                                }
                                                assert(q[k - j - 1] == x);
                                            }
                                        }
                                    }
                                }
                                return Ok(id);
                            }
                        },
                        None => {},
                    }
                    proof {
                        j = j + 1;
                        assert(self.idle@ =~= idle0.subrange(j, idle0.len() as int));
                    }
                },
            }
        }
    }

    /// A Running sandbox that finished cleanly becomes Idle and its id goes
    /// to the back of the idle queue. Any other id changes nothing.
    pub fn return_to_idle(&mut self, id: u128)
        requires
            old(self).wf(),
        ensures
            final(self).wf(),
            ({
                let t = old(self).table();
                if t.contains_key(id) && t[id].status_spec() == SandboxStatus::Running {
                    final(self).table() == t.insert(id, with_status(t[id], SandboxStatus::Idle))
                        && final(self).idle_ids() == old(self).idle_ids().push(id)
                } else {
                    final(self).table() == t && final(self).idle_ids() == old(self).idle_ids()
                }
            }),
            final(self).tool_model() == old(self).tool_model(),
            final(self).max_prewarmed() == old(self).max_prewarmed(),
    {
        match table_get(&self.sandboxes, id) {
            Some(mut sb) => {
                if sb.status() == SandboxStatus::Running {
                    let ghost before = sb;
                    sb.set_idle();
                    assert(sb == with_status(before, SandboxStatus::Idle));
                    table_insert(&mut self.sandboxes, id, sb);
                    self.idle.push_back(id);
                    proof {
                        let t = self.table();
                        let q = self.idle@;
                        let q0 = old(self).idle_ids();
                        assert(!q0.contains(id));
                        assert(q.no_duplicates()) by {
                            assert forall|a: int, b: int|
                                0 <= a < q.len() && 0 <= b < q.len() && a != b implies q[a] != q[b] by {
                                if a < q.len() - 1 && b < q.len() - 1 {
                                    assert(q[a] == q0[a] && q[b] == q0[b]);
                                } else if a == q.len() - 1 {
                                    assert(q0.contains(q[b]) || b == a);
                                } else {
                                    assert(q0.contains(q[a]));
                                }
                            }
                        }
                        assert forall|x: u128| #[trigger] t.contains_key(x) implies (t[x].status_spec()
                            == SandboxStatus::Idle <==> q.contains(x)) by {
                            if x != id {
                                if q0.contains(x) {
                                    let k = choose|k: int| 0 <= k < q0.len() && q0[k] == x;
                                    assert(q[k] == x);
                                }
                                if q.contains(x) {
                                    let k = choose|k: int| 0 <= k < q.len() && q[k] == x;
                                    assert(q0[k] == x);
                                }
                            } else {
                                assert(q[q.len() - 1] == id);
                            }
                        }
                    }
                }
            },
            None => {},
        }
    }

    /// A Running sandbox that met a fault becomes Error; its id stays out of
    /// the idle queue. Any other id changes nothing.
    pub fn mark_error(&mut self, id: u128)
        requires
            old(self).wf(),
        ensures
            final(self).wf(),
            ({
                let t = old(self).table();
                if t.contains_key(id) && t[id].status_spec() == SandboxStatus::Running {
                    final(self).table() == t.insert(id, with_status(t[id], SandboxStatus::Error))
                } else {
                    final(self).table() == t
                }
            }),
            final(self).idle_ids() == old(self).idle_ids(),
            final(self).tool_model() == old(self).tool_model(),
            final(self).max_prewarmed() == old(self).max_prewarmed(),
    {
        match table_get(&self.sandboxes, id) {
            Some(mut sb) => {
                if sb.status() == SandboxStatus::Running {
                    let ghost before = sb;
                    sb.set_error();
                    assert(sb == with_status(before, SandboxStatus::Error));
                    table_insert(&mut self.sandboxes, id, sb);
                    assert(!self.idle@.contains(id));
                }
            },
            None => {},
        }
    }

    /// Takes a sandbox out of the pool, for the caller to destroy. An id still
    /// in the idle queue stays there and is skipped when it comes up.
    pub fn remove_sandbox(&mut self, id: u128) -> (r: Option<Sandbox>)
        requires
            old(self).wf(),
        ensures
            final(self).wf(),
            final(self).table() == old(self).table().remove(id),
            old(self).table().contains_key(id) ==> r == Some(old(self).table()[id]),
            !old(self).table().contains_key(id) ==> r is None,
            final(self).idle_ids() == old(self).idle_ids(),
            final(self).tool_model() == old(self).tool_model(),
            final(self).max_prewarmed() == old(self).max_prewarmed(),
    {
        table_remove(&mut self.sandboxes, id)
    }

    /// Takes every sandbox in Error out of the pool and hands them back, for
    /// the caller to destroy.
    pub fn retire_errored(&mut self) -> (r: Vec<Sandbox>)
        requires
            old(self).wf(),
        ensures
            final(self).wf(),
            final(self).table() == old(self).table().remove_keys(
                ids_with(old(self).table(), SandboxStatus::Error),
            ),
            r@.map_values(|sb: Sandbox| sb.id).to_set() == ids_with(
                old(self).table(),
                SandboxStatus::Error,
            ),
            forall|i: int| 0 <= i < r@.len() ==> old(self).table().contains_key(#[trigger] r@[i].id)
                && old(self).table()[r@[i].id] == r@[i],
            final(self).idle_ids() == old(self).idle_ids(),
            final(self).tool_model() == old(self).tool_model(),
            final(self).max_prewarmed() == old(self).max_prewarmed(),
    {
        let ids = table_ids(&self.sandboxes);
        let ghost t0 = self.table();
        let ghost errs = ids_with(t0, SandboxStatus::Error);
        let mut out: Vec<Sandbox> = Vec::new();
        let mut i: usize = 0;
        while i < ids.len()
            invariant
                old(self).wf(),
                t0 == old(self).table(),
                errs == ids_with(t0, SandboxStatus::Error),
                ids@.no_duplicates(),
                ids@.to_set() == t0.dom(),
                i <= ids@.len(),
                self.table() == t0.remove_keys(errs.intersect(ids@.subrange(0, i as int).to_set())),
                out@.map_values(|sb: Sandbox| sb.id).to_set() == errs.intersect(
                    ids@.subrange(0, i as int).to_set(),
                ),
                forall|k: int| 0 <= k < out@.len() ==> t0.contains_key(#[trigger] out@[k].id)
                    && t0[out@[k].id] == out@[k],
                self.idle_ids() == old(self).idle_ids(),
                self.tool_model() == old(self).tool_model(),
                self.max_prewarmed() == old(self).max_prewarmed(),
            decreases ids@.len() - i,
        {
            let id = ids[i];
            assert(ids@.contains(id));
            assert(t0.contains_key(id));
            let ghost done = ids@.subrange(0, i as int).to_set();
            assert(!done.contains(id)) by {
                if done.contains(id) {
                    let k = choose|k: int| 0 <= k < i && ids@.subrange(0, i as int)[k] == id;
                    assert(ids@[k] == ids@[i as int]);
                }
            }
            assert(ids@.subrange(0, i + 1).to_set() == done.insert(id)) by {
                assert(ids@.subrange(0, i + 1) =~= ids@.subrange(0, i as int).push(id));
                ids@.subrange(0, i as int).lemma_push_to_set_commute(id);
            }
            let ghost prev = out@;
            match table_get(&self.sandboxes, id) {
                Some(sb) => {
                    if sb.status() == SandboxStatus::Error {
                        let taken = table_remove(&mut self.sandboxes, id);
                        match taken {
                            Some(sb) => {
                                out.push(sb);
                            },
                            None => {},
                        }
                        proof {
                            assert(errs.contains(id));
                            assert(errs.intersect(done.insert(id)) =~= errs.intersect(done).insert(id));
                            assert(self.table() =~= t0.remove_keys(errs.intersect(done.insert(id))));
                            assert(out@.map_values(|sb: Sandbox| sb.id) =~= prev.map_values(
                                |sb: Sandbox| sb.id,
                            ).push(id));
                            prev.map_values(|sb: Sandbox| sb.id).lemma_push_to_set_commute(id);
                            assert(out@.map_values(|sb: Sandbox| sb.id).to_set() =~= errs.intersect(
                                done.insert(id),
                            ));
                        }
                    } else {
                        proof {
                            assert(!errs.contains(id));
                            assert(errs.intersect(done.insert(id)) =~= errs.intersect(done));
                        }
                    }
                },
                None => {
                    assert(false);
                },
            }
            i = i + 1;
        }
        proof {
            assert(ids@.subrange(0, ids@.len() as int) =~= ids@);
            assert(errs.intersect(ids@.to_set()) =~= errs);
            let t = self.table();
            let q = self.idle@;
            assert forall|x: u128| #[trigger] t.contains_key(x) implies (t[x].status_spec()
                == SandboxStatus::Idle <==> q.contains(x)) by {
                assert(t0.contains_key(x) && t[x] == t0[x]);
            }
            assert forall|x: u128| #[trigger] t.contains_key(x) implies t[x].id == x by {
                assert(t0.contains_key(x) && t[x] == t0[x]);
            }
            assert(t.dom() =~= t0.dom().difference(errs));
            assert(t.dom().finite());
            assert(pool_wf(t, q));
            assert(self.tool_model().wf());
        }
        out
    }

    /// Takes the next id from the idle queue for a scale-down. Its sandbox,
    /// if still in the pool, leaves the pool and comes back for the caller
    /// to destroy; a stale id yields `None`. An empty queue has nothing to
    /// give.
    pub fn take_idle_for_removal(&mut self) -> (r: Result<Option<Sandbox>, SandboxManagerError>)
        requires
            old(self).wf(),
        ensures
            final(self).wf(),
            ({
                let t = old(self).table();
                let q = old(self).idle_ids();
                if q.len() == 0 {
                    r is Err && r->Err_0 is NoSandboxAvailable && final(self).table() == t
                        && final(self).idle_ids() == q
                } else {
                    &&& final(self).idle_ids() == q.drop_first()
                    &&& final(self).table() == t.remove(q[0])
                    &&& t.contains_key(q[0]) ==> r == Ok::<Option<Sandbox>, SandboxManagerError>(Some(t[q[0]]))
                    &&& !t.contains_key(q[0]) ==> r == Ok::<Option<Sandbox>, SandboxManagerError>(None)
                }
            }),
            final(self).tool_model() == old(self).tool_model(),
            final(self).max_prewarmed() == old(self).max_prewarmed(),
    {
        match self.idle.pop_front() {
            None => Err(SandboxManagerError::NoSandboxAvailable),
            Some(id) => {
                let r = table_remove(&mut self.sandboxes, id);
                proof {
                    let q0 = old(self).idle_ids();
                    let q = self.idle@;
                    let t = self.table();
                    assert(q.no_duplicates()) by {
                        assert forall|a: int, b: int|
                            0 <= a < q.len() && 0 <= b < q.len() && a != b implies q[a] != q[b] by {
                            assert(q[a] == q0[a + 1] && q[b] == q0[b + 1]);
                        }
                    }
                    assert forall|x: u128| #[trigger] t.contains_key(x) implies (t[x].status_spec()
                        == SandboxStatus::Idle <==> q.contains(x)) by {
                        if q0.contains(x) {
                            let k = choose|k: int| 0 <= k < q0.len() && q0[k] == x;
                            assert(k != 0);
                            assert(q[k - 1] == x);
                        }
                        if q.contains(x) {
                            let k = choose|k: int| 0 <= k < q.len() && q[k] == x;
                            assert(q0[k + 1] == x);
                        }
                    }
                }
                Ok(r)
            },
        }
    }

    /// How many sandboxes a scale-up by `n` creates: no more than the cap
    /// leaves room for.
    pub fn scale_up_target(&self, n: usize) -> (r: usize)
        requires
            self.wf(),
        ensures
            r == scale_up_count(self.max_prewarmed(), self.table().dom().len(), n as nat),
    {
        let total = table_len(&self.sandboxes);
        if total >= self.max_prewarmed {
            0
        } else if n <= self.max_prewarmed - total {
            n
        } else {
            self.max_prewarmed - total
        }
    }

    /// How many sandboxes a scale-down by `n` removes: no more than are idle.
    pub fn scale_down_target(&self, n: usize) -> (r: usize)
        requires
            self.wf(),
        ensures
            r == (if n <= count_status(self.table(), SandboxStatus::Idle) {
                n as nat
            } else {
                count_status(self.table(), SandboxStatus::Idle)
            }),
    {
        let idle = self.idle_sandboxes_count();
        if n <= idle {
            n
        } else {
            idle
        }
    }

    /// A copy of the sandbox with id `id`, if the pool holds it.
    pub fn get_sandbox(&self, id: u128) -> (r: Option<Sandbox>)
        ensures
            self.table().contains_key(id) ==> r == Some(self.table()[id]),
            !self.table().contains_key(id) ==> r is None,
    {
        table_get(&self.sandboxes, id)
    }

    pub fn list_ids(&self) -> (r: Vec<u128>)
        ensures
            r@.no_duplicates(),
            r@.to_set() == self.table().dom(),
    {
        table_ids(&self.sandboxes)
    }

    pub fn available_sandboxes_count(&self) -> (r: usize)
        ensures
            r == self.table().dom().len(),
    {
        table_len(&self.sandboxes)
    }

    /// The number of sandboxes with status `s`.
    pub fn count_with_status(&self, s: SandboxStatus) -> (r: usize)
        requires
            self.wf(),
        ensures
            r == count_status(self.table(), s),
    {
        let ids = table_ids(&self.sandboxes);
        let ghost table = self.table();
        let ghost p = |id: u128| table[id].status_spec() == s;
        let mut n: usize = 0;
        let mut i: usize = 0;
        while i < ids.len()
            invariant
                i <= ids@.len(),
                table == self.table(),
                p == (|id: u128| table[id].status_spec() == s),
                ids@.to_set() == table.dom(),
                n == ids@.subrange(0, i as int).filter(p).len(),
                n <= i,
            decreases ids@.len() - i,
        {
            let id = ids[i];
            assert(ids@.contains(id));
            assert(ids@.to_set().contains(id));
            assert(table.contains_key(id));
            assert(p(id) == (table[id].status_spec() == s));
            let sb = table_get(&self.sandboxes, id);
            proof {
                assert(ids@.subrange(0, i + 1) =~= ids@.subrange(0, i as int).push(id));
                ids@.subrange(0, i as int).lemma_filter_push(id, p);
            }
            match sb {
                Some(sb) => {
                    if sb.status() == s {
                        n = n + 1;
                    }
                },
                None => {},
            }
            i = i + 1;
        }
        proof {
            assert(ids@.subrange(0, ids@.len() as int) =~= ids@);
            lemma_filter_card(ids@, p);
            assert(table.dom().filter(p) =~= ids_with(table, s));
        }
        n
    }

    pub fn idle_sandboxes_count(&self) -> (r: usize)
        requires
            self.wf(),
        ensures
            r == count_status(self.table(), SandboxStatus::Idle),
    {
        self.count_with_status(SandboxStatus::Idle)
    }

    pub fn running_sandboxes_count(&self) -> (r: usize)
        requires
            self.wf(),
        ensures
            r == count_status(self.table(), SandboxStatus::Running),
    {
        self.count_with_status(SandboxStatus::Running)
    }

    pub fn error_sandboxes_count(&self) -> (r: usize)
        requires
            self.wf(),
        ensures
            r == count_status(self.table(), SandboxStatus::Error),
    {
        self.count_with_status(SandboxStatus::Error)
    }
}

} // verus!
