//! Task registry: per-task metadata and the capability profile each task
//! is allowed to hold.
use vstd::prelude::*;

use crate::bounded::{task_vec_as_slice, task_vec_items, task_vec_new, task_vec_push, task_vec_set};
use crate::caps::{self, CapTable, Capability, CapabilityClass, grant_outcome, holds, policy_permits, spec_keeps_capability};
use crate::sched::TaskId;

verus! {

/// Lifecycle state of a registered task.
#[derive(Clone, Copy, Debug, PartialEq, Eq, Structural)]
pub enum TaskState {
    Registered,
    Active,
    Suspended,
}

/// What the registry knows of a task.
#[derive(Clone, Copy, Debug)]
pub struct TaskProfile {
    pub id: TaskId,
    pub name: [u8; 16],
    pub allowed: CapabilityClass,
    pub state: TaskState,
}

/// Number of tasks the registry can hold.
pub const MAX_TASKS: usize = 32;

/// The registered tasks, in registration order.
pub struct TaskRegistry {
    tasks: heapless::Vec<TaskProfile, 32>,
}

/// Some profile of `s` has id `id`.
pub open spec fn has_task(s: Seq<TaskProfile>, id: TaskId) -> bool {
    exists|i: int| 0 <= i < s.len() && #[trigger] s[i].id == id
}

/// No two profiles share an id.
pub open spec fn ids_unique(s: Seq<TaskProfile>) -> bool {
    forall|i: int, j: int| 0 <= i < s.len() && 0 <= j < s.len() && i != j ==> #[trigger] s[i].id != #[trigger] s[j].id
}

/// Position of the profile with id `id` (meaningful when `has_task`).
pub open spec fn task_index(s: Seq<TaskProfile>, id: TaskId) -> int {
    choose|i: int| 0 <= i < s.len() && #[trigger] s[i].id == id
}

/// The 16-byte name field stored for `name`: its first 16 bytes, padded with zeros.
pub open spec fn name_field(name: Seq<u8>) -> Seq<u8> {
    Seq::new(16, |i: int| if i < name.len() { name[i] } else { 0u8 })
}

/// `p` with its state replaced by `state`.
pub open spec fn with_state(p: TaskProfile, state: TaskState) -> TaskProfile {
    TaskProfile { state, ..p }
}

/// `p` suspended, with an empty capability profile.
pub open spec fn suspended(p: TaskProfile) -> TaskProfile {
    TaskProfile { state: TaskState::Suspended, allowed: CapabilityClass::from_bits_spec(0), ..p }
}

/// The capability classes, in the order in which `grant_allowed_caps` grants them.
pub open spec fn class_order() -> Seq<CapabilityClass> {
    seq![
        CapabilityClass::from_bits_spec(0b0000_0001),
        CapabilityClass::from_bits_spec(0b0000_0010),
        CapabilityClass::from_bits_spec(0b0000_0100),
        CapabilityClass::from_bits_spec(0b0000_1000),
        CapabilityClass::from_bits_spec(0b0001_0000),
        CapabilityClass::from_bits_spec(0b0010_0000),
        CapabilityClass::from_bits_spec(0b0100_0000),
    ]
}

/// The capability of class `class` that the registry grants to `id`.
pub open spec fn profile_cap(id: TaskId, class: CapabilityClass) -> Capability {
    Capability { owner: id, class, object: 0 }
}

/// The table after trying, in `class_order`, the first `n` classes that
/// `allowed` covers, where `decisions[i]` is the policy's answer for the
/// `i`-th class.
pub open spec fn grants_applied(
    start: Seq<Capability>,
    id: TaskId,
    allowed: CapabilityClass,
    decisions: Seq<bool>,
    n: nat,
) -> Seq<Capability>
    decreases n,
{
    if n == 0 {
        start
    } else {
        let prev = grants_applied(start, id, allowed, decisions, (n - 1) as nat);
        let class = class_order()[n - 1];
        if allowed.spec_contains(class) {
            grant_outcome(prev, profile_cap(id, class), decisions[n - 1])
        } else {
            prev
        }
    }
}

/// `decisions` are answers the policy `p` may give for the classes that `allowed` covers.
pub open spec fn decisions_possible<P: Fn(TaskId, Capability) -> bool>(
    p: Option<P>,
    id: TaskId,
    allowed: CapabilityClass,
    decisions: Seq<bool>,
) -> bool {
    &&& decisions.len() == 7
    &&& forall|i: int|
        0 <= i < 7 && allowed.spec_contains(class_order()[i]) ==> #[trigger] policy_permits(
            p,
            id,
            profile_cap(id, class_order()[i]),
            decisions[i],
        )
}

/// The capability table after `grant_allowed_caps(id, allowed)` on `old`,
/// when the policy answered `decisions`.
pub open spec fn allowed_caps_outcome(
    old: Seq<Capability>,
    id: TaskId,
    allowed: CapabilityClass,
    decisions: Seq<bool>,
) -> Seq<Capability> {
    grants_applied(
        old.filter(|c: Capability| spec_keeps_capability(c, id, None)),
        id,
        allowed,
        decisions,
        7,
    )
}

/// What `register(id, name, allowed)` does: registry `t0` and table `c0`
/// become `t1`, `c1`, with `p` the policy, and `r` is returned.
pub open spec fn registration<P: Fn(TaskId, Capability) -> bool>(
    p: Option<P>,
    t0: Seq<TaskProfile>,
    c0: Seq<Capability>,
    id: TaskId,
    name: Seq<u8>,
    allowed: CapabilityClass,
    t1: Seq<TaskProfile>,
    c1: Seq<Capability>,
    r: bool,
) -> bool {
    &&& r == (!has_task(t0, id) && t0.len() < MAX_TASKS)
    &&& r ==> {
        &&& t1.len() == t0.len() + 1
        &&& t1.drop_last() == t0
        &&& t1.last().id == id
        &&& t1.last().name@ == name_field(name)
        &&& t1.last().allowed == allowed
        &&& t1.last().state == TaskState::Registered
        &&& exists|decisions: Seq<bool>|
            #[trigger] decisions_possible(p, id, allowed, decisions) && c1 == allowed_caps_outcome(
                c0,
                id,
                allowed,
                decisions,
            )
    }
    &&& !r ==> t1 == t0 && c1 == c0
}

impl TaskRegistry {
    /// The registered profiles, in registration order.
    pub closed spec fn profiles(&self) -> Seq<TaskProfile> {
        task_vec_items(self.tasks)
    }

    pub closed spec fn wf(&self) -> bool {
        &&& task_vec_items(self.tasks).len() <= MAX_TASKS
        &&& ids_unique(task_vec_items(self.tasks))
    }

    /// No two registered tasks share an id.
    pub proof fn lemma_ids_unique(&self)
        requires
            self.wf(),
        ensures
            ids_unique(self.profiles()),
    {
    }

    /// An empty registry.
    pub fn new() -> (r: Self)
        ensures
            r.wf(),
            r.profiles() == Seq::<TaskProfile>::empty(),
    {
        TaskRegistry { tasks: task_vec_new() }
    }
}

fn capability_classes() -> (r: [CapabilityClass; 7])
    ensures
        r@ == class_order(),
{
    let r = [
        CapabilityClass::FILE(),
        CapabilityClass::NET(),
        CapabilityClass::GPU(),
        CapabilityClass::INPUT(),
        CapabilityClass::TIME(),
        CapabilityClass::IRQ(),
        CapabilityClass::MM(),
    ];
    assert(r@ =~= class_order());
    r
}

/// Position of the profile with id `id`, if any.
fn find_task(tasks: &heapless::Vec<TaskProfile, 32>, id: TaskId) -> (r: Option<usize>)
    ensures
        r is None <==> !has_task(task_vec_items(*tasks), id),
        r matches Some(i) ==> i < task_vec_items(*tasks).len() && task_vec_items(*tasks)[i as int].id == id,
{
    let s = task_vec_as_slice(tasks);
    let mut i: usize = 0;
    while i < s.len()
        invariant
            0 <= i <= s@.len(),
            s@ == task_vec_items(*tasks),
            forall|j: int| 0 <= j < i ==> #[trigger] s@[j].id != id,
        decreases s@.len() - i,
    {
        if s[i].id == id {
            return Some(i);
        }
        i = i + 1;
    }
    None
}

/// Grant `id` one capability (object 0) of each class that `allowed`
/// covers, class by class in the order FILE, NET, GPU, INPUT, TIME, IRQ,
/// MM; each grant goes through the policy.
pub fn grant_classes<P: Fn(TaskId, Capability) -> bool>(caps: &mut CapTable<P>, id: TaskId, allowed: CapabilityClass)
    requires
        old(caps).wf(),
    ensures
        final(caps).wf(),
        final(caps).policy() == old(caps).policy(),
        exists|decisions: Seq<bool>|
            #[trigger] decisions_possible(old(caps).policy(), id, allowed, decisions)
                && final(caps).caps() == grants_applied(old(caps).caps(), id, allowed, decisions, 7),
{
    let ghost start = caps.caps();
    let classes = capability_classes();
    let ghost mut decisions: Seq<bool> = Seq::empty();
    let mut i: usize = 0;
    while i < 7
        invariant
            0 <= i <= 7,
            classes@ == class_order(),
            caps.wf(),
            caps.policy() == old(caps).policy(),
            start == old(caps).caps(),
            decisions.len() == i,
            forall|k: int|
                0 <= k < i && allowed.spec_contains(class_order()[k]) ==> #[trigger] policy_permits(
                    caps.policy(),
                    id,
                    profile_cap(id, class_order()[k]),
                    decisions[k],
                ),
            caps.caps() == grants_applied(start, id, allowed, decisions, i as nat),
        decreases 7 - i,
    {
        let class = classes[i];
        let ghost before = caps.caps();
        let ghost prev_decisions = decisions;
        if allowed.contains(class) {
            let cap = Capability { owner: id, class, object: 0 };
            let _ = caps::grant(caps, cap);
            proof {
                let b = choose|b: bool|
                    #[trigger] policy_permits(old(caps).policy(), cap.owner, cap, b)
                        && caps.caps() == grant_outcome(before, cap, b);
                decisions = decisions.push(b);
            }
        } else {
            proof {
                decisions = decisions.push(false);
            }
        }
        proof {
            assert(decisions.drop_last() =~= prev_decisions);
            lemma_grants_applied_prefix(start, id, allowed, decisions, i as nat);
            assert(class == class_order()[i as int]);
        }
        i = i + 1;
    }
    proof {
        assert(decisions_possible(old(caps).policy(), id, allowed, decisions));
    }
}

/// Revoke every capability of `id`, then grant it one capability (object 0)
/// of each class that `allowed` covers, as `grant_classes` does.
pub fn grant_allowed_caps<P: Fn(TaskId, Capability) -> bool>(caps: &mut CapTable<P>, id: TaskId, allowed: CapabilityClass)
    requires
        old(caps).wf(),
    ensures
        final(caps).wf(),
        final(caps).policy() == old(caps).policy(),
        exists|decisions: Seq<bool>|
            #[trigger] decisions_possible(old(caps).policy(), id, allowed, decisions)
                && final(caps).caps() == allowed_caps_outcome(old(caps).caps(), id, allowed, decisions),
{
    caps::revoke(caps, id, None);
    grant_classes(caps, id, allowed);
}

/// `grants_applied` over the first `n` classes reads only the first `n` decisions.
proof fn lemma_grants_applied_prefix(
    start: Seq<Capability>,
    id: TaskId,
    allowed: CapabilityClass,
    decisions: Seq<bool>,
    n: nat,
)
    requires
        n < decisions.len(),
    ensures
        grants_applied(start, id, allowed, decisions, n) == grants_applied(
            start,
            id,
            allowed,
            decisions.drop_last(),
            n,
        ),
    decreases n,
{
    if n > 0 {
        lemma_grants_applied_prefix(start, id, allowed, decisions, (n - 1) as nat);
    }
}

/// Register a task named `name` (its first 16 bytes) with the capability
/// profile `allowed`.  Fails when the id is already registered or the
/// registry is full; on success the task's capabilities are re-granted
/// from `allowed` as `grant_allowed_caps` does.
pub fn register<P: Fn(TaskId, Capability) -> bool>(
    tasks: &mut TaskRegistry,
    caps: &mut CapTable<P>,
    id: TaskId,
    name: &[u8],
    allowed: CapabilityClass,
) -> (r: bool)
    requires
        old(tasks).wf(),
        old(caps).wf(),
    ensures
        final(tasks).wf(),
        ids_unique(final(tasks).profiles()),
        final(caps).wf(),
        final(caps).policy() == old(caps).policy(),
        registration(
            old(caps).policy(),
            old(tasks).profiles(),
            old(caps).caps(),
            id,
            name@,
            allowed,
            final(tasks).profiles(),
            final(caps).caps(),
            r,
        ),
{
    let mut entry = [0u8; 16];
    let copy_len = if name.len() < 16 { name.len() } else { 16 };
    let mut k: usize = 0;
    while k < copy_len
        invariant
            0 <= k <= copy_len,
            copy_len <= 16,
            copy_len <= name@.len(),
            copy_len == name@.len() || copy_len == 16,
            forall|j: int| 0 <= j < k ==> entry@[j] == name@[j],
            forall|j: int| k <= j < 16 ==> entry@[j] == 0u8,
        decreases copy_len - k,
    {
        entry[k] = name[k];
        k = k + 1;
    }
    assert(entry@ =~= name_field(name@));
    let profile = TaskProfile { id, name: entry, allowed, state: TaskState::Registered };
    if find_task(&tasks.tasks, id).is_some() {
        return false;
    }
    let inserted = task_vec_push(&mut tasks.tasks, profile);
    if inserted.is_ok() {
        proof {
            let s = task_vec_items(tasks.tasks);
            assert(s.drop_last() =~= old(tasks).profiles());
            assert forall|i: int, j: int| 0 <= i < s.len() && 0 <= j < s.len() && i != j implies #[trigger] s[i].id != #[trigger] s[j].id by {
                if i < s.len() - 1 && j < s.len() - 1 {
                    assert(s[i] == old(tasks).profiles()[i]);
                    assert(s[j] == old(tasks).profiles()[j]);
                } else if i == s.len() - 1 {
                    assert(s[j] == old(tasks).profiles()[j]);
                } else {
                    assert(s[i] == old(tasks).profiles()[i]);
                }
            }
        }
        grant_allowed_caps(caps, id, allowed);
        true
    } else {
        false
    }
}

/// Mark the task `id` active.  Returns whether it is registered.
pub fn activate(tasks: &mut TaskRegistry, id: TaskId) -> (r: bool)
    requires
        old(tasks).wf(),
    ensures
        final(tasks).wf(),
        ids_unique(final(tasks).profiles()),
        r == has_task(old(tasks).profiles(), id),
        r ==> final(tasks).profiles() == old(tasks).profiles().update(
            task_index(old(tasks).profiles(), id),
            with_state(old(tasks).profiles()[task_index(old(tasks).profiles(), id)], TaskState::Active),
        ),
        !r ==> final(tasks).profiles() == old(tasks).profiles(),
{
    match find_task(&tasks.tasks, id) {
        Some(i) => {
            let s = task_vec_as_slice(&tasks.tasks);
            let old_profile = s[i];
            let updated = TaskProfile { state: TaskState::Active, ..old_profile };
            proof {
                lemma_task_index_unique(task_vec_items(tasks.tasks), id, i as int);
            }
            task_vec_set(&mut tasks.tasks, i, updated);
            proof {
                lemma_update_keeps_ids_unique(old(tasks).profiles(), i as int, updated);
            }
            true
        },
        None => false,
    }
}

/// Suspend the task `id`: its state becomes `Suspended`, its profile
/// becomes empty and every capability it holds is revoked.  Returns whether
/// it is registered; when it is not, nothing changes.
pub fn suspend<P: Fn(TaskId, Capability) -> bool>(tasks: &mut TaskRegistry, caps: &mut CapTable<P>, id: TaskId) -> (r: bool)
    requires
        old(tasks).wf(),
        old(caps).wf(),
    ensures
        final(tasks).wf(),
        ids_unique(final(tasks).profiles()),
        final(caps).wf(),
        final(caps).policy() == old(caps).policy(),
        r == has_task(old(tasks).profiles(), id),
        r ==> final(tasks).profiles() == old(tasks).profiles().update(
            task_index(old(tasks).profiles(), id),
            suspended(old(tasks).profiles()[task_index(old(tasks).profiles(), id)]),
        ),
        r ==> final(caps).caps() == old(caps).caps().filter(
            |c: Capability| spec_keeps_capability(c, id, None),
        ),
        r ==> forall|class: CapabilityClass| !#[trigger] holds(final(caps).caps(), id, class),
        forall|other: TaskId, class: CapabilityClass|
            other != id ==> #[trigger] holds(final(caps).caps(), other, class) == holds(old(caps).caps(), other, class),
        !r ==> final(tasks).profiles() == old(tasks).profiles() && final(caps).caps() == old(caps).caps(),
{
    match find_task(&tasks.tasks, id) {
        Some(i) => {
            let s = task_vec_as_slice(&tasks.tasks);
            let old_profile = s[i];
            let updated = TaskProfile {
                state: TaskState::Suspended,
                allowed: CapabilityClass::empty(),
                ..old_profile
            };
            proof {
                lemma_task_index_unique(task_vec_items(tasks.tasks), id, i as int);
            }
            task_vec_set(&mut tasks.tasks, i, updated);
            proof {
                lemma_update_keeps_ids_unique(old(tasks).profiles(), i as int, updated);
            }
            caps::revoke(caps, id, None);
            proof {
                assert forall|class: CapabilityClass| !#[trigger] holds(caps.caps(), id, class) by {
                    caps::lemma_revoke_then_not_has(old(caps).caps(), id, None, class);
                }
                assert forall|other: TaskId, class: CapabilityClass| other != id implies #[trigger] holds(
                    caps.caps(),
                    other,
                    class,
                ) == holds(old(caps).caps(), other, class) by {
                    caps::lemma_revoke_keeps_others(old(caps).caps(), id, None, other, class);
                }
            }
            true
        },
        None => false,
    }
}

/// The profile of task `id`, if it is registered.
pub fn profile(tasks: &TaskRegistry, id: TaskId) -> (r: Option<TaskProfile>)
    requires
        tasks.wf(),
    ensures
        r is None <==> !has_task(tasks.profiles(), id),
        r matches Some(p) ==> p == tasks.profiles()[task_index(tasks.profiles(), id)],
{
    match find_task(&tasks.tasks, id) {
        Some(i) => {
            proof {
                lemma_task_index_unique(task_vec_items(tasks.tasks), id, i as int);
            }
            let s = task_vec_as_slice(&tasks.tasks);
            Some(s[i])
        },
        None => None,
    }
}

/// Empty the capability profile of task `id` and mark it suspended, without
/// touching the capability table.  Nothing happens when `id` is unknown.
pub fn revoke_all(tasks: &mut TaskRegistry, id: TaskId)
    requires
        old(tasks).wf(),
    ensures
        final(tasks).wf(),
        ids_unique(final(tasks).profiles()),
        has_task(old(tasks).profiles(), id) ==> final(tasks).profiles() == old(tasks).profiles().update(
            task_index(old(tasks).profiles(), id),
            suspended(old(tasks).profiles()[task_index(old(tasks).profiles(), id)]),
        ),
        !has_task(old(tasks).profiles(), id) ==> final(tasks).profiles() == old(tasks).profiles(),
{
    if let Some(i) = find_task(&tasks.tasks, id) {
        let s = task_vec_as_slice(&tasks.tasks);
        let old_profile = s[i];
        let updated = TaskProfile {
            state: TaskState::Suspended,
            allowed: CapabilityClass::empty(),
            ..old_profile
        };
        proof {
            lemma_task_index_unique(task_vec_items(tasks.tasks), id, i as int);
        }
        task_vec_set(&mut tasks.tasks, i, updated);
        proof {
            lemma_update_keeps_ids_unique(old(tasks).profiles(), i as int, updated);
        }
    }
}

/// A task that `register` accepted is found again under its id, with the
/// name, profile and `Registered` state it was given, and every task that
/// was registered before keeps its profile.
pub proof fn lemma_register_then_profile<P: Fn(TaskId, Capability) -> bool>(
    p: Option<P>,
    t0: Seq<TaskProfile>,
    c0: Seq<Capability>,
    id: TaskId,
    name: Seq<u8>,
    allowed: CapabilityClass,
    t1: Seq<TaskProfile>,
    c1: Seq<Capability>,
    other: TaskId,
)
    requires
        ids_unique(t0),
        registration(p, t0, c0, id, name, allowed, t1, c1, true),
    ensures
        has_task(t1, id),
        t1[task_index(t1, id)].id == id,
        t1[task_index(t1, id)].name@ == name_field(name),
        t1[task_index(t1, id)].allowed == allowed,
        t1[task_index(t1, id)].state == TaskState::Registered,
        has_task(t0, other) ==> has_task(t1, other) && t1[task_index(t1, other)] == t0[task_index(t0, other)],
{
    let last = t1.len() - 1;
    assert(t1[last].id == id);
    assert forall|i: int, j: int| 0 <= i < t1.len() && 0 <= j < t1.len() && i != j implies #[trigger] t1[i].id
        != #[trigger] t1[j].id by {
        if i < last && j < last {
            assert(t1[i] == t0[i]);
            assert(t1[j] == t0[j]);
        } else if i == last {
            assert(t1[j] == t0[j]);
            assert(has_task(t0, t1[j].id));
        } else {
            assert(t1[i] == t0[i]);
            assert(has_task(t0, t1[i].id));
        }
    }
    lemma_task_index_unique(t1, id, last);
    if has_task(t0, other) {
        let k = task_index(t0, other);
        assert(t1[k] == t0[k]);
        lemma_task_index_unique(t1, other, k);
    }
}

/// With unique ids, the profile found at `i` is the one `task_index` names.
proof fn lemma_task_index_unique(s: Seq<TaskProfile>, id: TaskId, i: int)
    requires
        ids_unique(s),
        0 <= i < s.len(),
        s[i].id == id,
    ensures
        task_index(s, id) == i,
{
    let k = task_index(s, id);
    assert(0 <= k < s.len() && s[k].id == id);
    if k != i {
        assert(s[k].id != s[i].id);
    }
}

/// Replacing a profile by one with the same id keeps ids unique.
proof fn lemma_update_keeps_ids_unique(s: Seq<TaskProfile>, i: int, p: TaskProfile)
    requires
        ids_unique(s),
        0 <= i < s.len(),
        p.id == s[i].id,
    ensures
        ids_unique(s.update(i, p)),
{
    let t = s.update(i, p);
    assert forall|a: int, b: int| 0 <= a < t.len() && 0 <= b < t.len() && a != b implies #[trigger] t[a].id != #[trigger] t[b].id by {
        assert(t[a].id == s[a].id);
        assert(t[b].id == s[b].id);
    }
}

/// Granting never takes a capability away, and each grant adds at most one.
proof fn lemma_grants_applied_grows(
    start: Seq<Capability>,
    id: TaskId,
    allowed: CapabilityClass,
    decisions: Seq<bool>,
    n: nat,
    m: nat,
    task: TaskId,
    class: CapabilityClass,
)
    requires
        m <= n <= 7,
        holds(grants_applied(start, id, allowed, decisions, m), task, class),
    ensures
        holds(grants_applied(start, id, allowed, decisions, n), task, class),
        grants_applied(start, id, allowed, decisions, n).len() <= start.len() + n,
    decreases n,
{
    if n > m {
        lemma_grants_applied_grows(start, id, allowed, decisions, (n - 1) as nat, m, task, class);
        let prev = grants_applied(start, id, allowed, decisions, (n - 1) as nat);
        let next = grants_applied(start, id, allowed, decisions, n);
        let i = choose|i: int| 0 <= i < prev.len() && #[trigger] prev[i].owner == task && prev[i].class.spec_contains(class);
        assert(next[i] == prev[i]);
    } else if n > 0 {
        lemma_grants_applied_len(start, id, allowed, decisions, n);
    }
}

/// Each grant step adds at most one capability.
proof fn lemma_grants_applied_len(start: Seq<Capability>, id: TaskId, allowed: CapabilityClass, decisions: Seq<bool>, n: nat)
    ensures
        grants_applied(start, id, allowed, decisions, n).len() <= start.len() + n,
    decreases n,
{
    if n > 0 {
        lemma_grants_applied_len(start, id, allowed, decisions, (n - 1) as nat);
    }
}

/// Granting a profile gives the task every single class the profile
/// covers: when the policy answers yes to each request and the table has
/// room for seven more capabilities, the task afterwards holds each of
/// FILE, NET, GPU, INPUT, TIME, IRQ and MM that `allowed` contains.
pub proof fn lemma_profile_grants_each_class(
    start: Seq<Capability>,
    id: TaskId,
    allowed: CapabilityClass,
    decisions: Seq<bool>,
    bit: u32,
)
    requires
        decisions.len() == 7,
        forall|i: int| 0 <= i < 7 ==> #[trigger] decisions[i],
        start.len() + 7 <= caps::MAX_CAPS,
        bit == 0b0000_0001 || bit == 0b0000_0010 || bit == 0b0000_0100 || bit == 0b0000_1000 || bit
            == 0b0001_0000 || bit == 0b0010_0000 || bit == 0b0100_0000,
        allowed.spec_contains(CapabilityClass::from_bits_spec(bit)),
    ensures
        holds(grants_applied(start, id, allowed, decisions, 7), id, CapabilityClass::from_bits_spec(bit)),
{
    let k: int = if bit == 1 { 0 } else if bit == 2 { 1 } else if bit == 4 { 2 } else if bit == 8 { 3 } else if bit
        == 16 { 4 } else if bit == 32 { 5 } else { 6 };
    let class = CapabilityClass::from_bits_spec(bit);
    assert(class_order()[k] == class);
    let n = (k + 1) as nat;
    lemma_grants_applied_len(start, id, allowed, decisions, k as nat);
    let prev = grants_applied(start, id, allowed, decisions, k as nat);
    let next = grants_applied(start, id, allowed, decisions, n);
    assert(next == prev.push(profile_cap(id, class)));
    assert(bit & bit == bit) by (bit_vector);
    assert(next[prev.len() as int] == profile_cap(id, class));
    assert(next[prev.len() as int].owner == id);
    assert(next[prev.len() as int].class.spec_contains(class));
    assert(holds(next, id, class));
    lemma_grants_applied_grows(start, id, allowed, decisions, 7, n, id, class);
}

/// The classes tried by a profile grant are exactly the seven defined
/// one-bit classes, each once.
pub proof fn lemma_class_order_covers_each_class_once(bit: u32)
    requires
        bit == 0b0000_0001 || bit == 0b0000_0010 || bit == 0b0000_0100 || bit == 0b0000_1000 || bit
            == 0b0001_0000 || bit == 0b0010_0000 || bit == 0b0100_0000,
    ensures
        class_order().len() == 7,
        exists|k: int| 0 <= k < 7 && #[trigger] class_order()[k] == CapabilityClass::from_bits_spec(bit),
        forall|i: int, j: int|
            0 <= i < 7 && 0 <= j < 7 && class_order()[i] == CapabilityClass::from_bits_spec(bit) && class_order()[j]
                == CapabilityClass::from_bits_spec(bit) ==> i == j,
{
    let k: int = if bit == 1 { 0 } else if bit == 2 { 1 } else if bit == 4 { 2 } else if bit == 8 { 3 } else if bit
        == 16 { 4 } else if bit == 32 { 5 } else { 6 };
    assert(class_order()[k] == CapabilityClass::from_bits_spec(bit));
}

/// What `register` and `grant_allowed_caps` do to the table gives the
/// task every single class of its profile: when the policy answers yes to
/// each request and the table had room for seven more capabilities, the
/// task holds each of FILE, NET, GPU, INPUT, TIME, IRQ and MM that
/// `allowed` contains.
pub proof fn lemma_allowed_caps_grant_each_class(
    old_caps: Seq<Capability>,
    id: TaskId,
    allowed: CapabilityClass,
    decisions: Seq<bool>,
    bit: u32,
)
    requires
        decisions.len() == 7,
        forall|i: int| 0 <= i < 7 ==> #[trigger] decisions[i],
        old_caps.len() + 7 <= caps::MAX_CAPS,
        bit == 0b0000_0001 || bit == 0b0000_0010 || bit == 0b0000_0100 || bit == 0b0000_1000 || bit
            == 0b0001_0000 || bit == 0b0010_0000 || bit == 0b0100_0000,
        allowed.spec_contains(CapabilityClass::from_bits_spec(bit)),
    ensures
        holds(allowed_caps_outcome(old_caps, id, allowed, decisions), id, CapabilityClass::from_bits_spec(bit)),
{
    let kept = old_caps.filter(|c: Capability| spec_keeps_capability(c, id, None));
    old_caps.lemma_filter_len(|c: Capability| spec_keeps_capability(c, id, None));
    lemma_profile_grants_each_class(kept, id, allowed, decisions, bit);
}

/// A registered name is kept to its first 16 bytes and padded with zero
/// bytes: byte `i` of the field is byte `i` of the name while there is one,
/// and 0 after.
pub proof fn lemma_name_field(name: Seq<u8>, i: int)
    requires
        0 <= i < 16,
    ensures
        name_field(name).len() == 16,
        i < name.len() ==> name_field(name)[i] == name[i],
        i >= name.len() ==> name_field(name)[i] == 0,
{
}

} // verus!
