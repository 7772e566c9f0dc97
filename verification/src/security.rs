//! Capability manifests per task, the static approval rule, and the
//! installation of the default manifest into the task registry and the
//! capability table.
use vstd::prelude::*;

use crate::bounded::{manifest_vec_as_slice, manifest_vec_items, manifest_vec_new, manifest_vec_push};
use crate::caps::{self, CapTable, Capability, CapabilityClass};
use crate::sched::TaskId;
use crate::task::{self, TaskProfile, TaskRegistry, decisions_possible, grants_applied, registration};

verus! {

/// The capability classes a task may hold.
#[derive(Clone, Copy, Debug, PartialEq, Eq, Structural)]
pub struct ManifestEntry {
    pub task: u32,
    pub capabilities: CapabilityClass,
}

/// Number of entries a manifest can hold.
pub const MAX_ENTRIES: usize = 8;

/// A list of per-task capability entries.
pub struct Manifest {
    pub entries: heapless::Vec<ManifestEntry, 8>,
}

/// `i` is the first entry of `s` for `task`.
pub open spec fn is_first_entry(s: Seq<ManifestEntry>, task: u32, i: int) -> bool {
    &&& 0 <= i < s.len()
    &&& s[i].task == task
    &&& forall|j: int| 0 <= j < i ==> #[trigger] s[j].task != task
}

/// The first entry of `s` for `task` exists and covers `required`.
pub open spec fn manifest_allows(s: Seq<ManifestEntry>, task: u32, required: CapabilityClass) -> bool {
    exists|i: int| #[trigger] is_first_entry(s, task, i) && s[i].capabilities.spec_contains(required)
}

/// Classes the static policy ever approves: every defined class but NET.
pub const APPROVED_BITS: u32 = 0b0111_1101;

/// The entries of the default manifest: the display task (1) may use the
/// GPU, input and timers, the input task (2) input, and the file-system
/// task (3) files and memory management.
pub open spec fn default_manifest_entries() -> Seq<ManifestEntry> {
    seq![
        ManifestEntry { task: 1, capabilities: CapabilityClass::from_bits_spec(0b0001_1100) },
        ManifestEntry { task: 2, capabilities: CapabilityClass::from_bits_spec(0b0000_1000) },
        ManifestEntry { task: 3, capabilities: CapabilityClass::from_bits_spec(0b0100_0001) },
    ]
}

/// The name registered for a manifest task: "display", "input", "fs", or "task".
pub open spec fn task_name(task: u32) -> Seq<u8> {
    if task == 1 {
        seq![100u8, 105, 115, 112, 108, 97, 121]
    } else if task == 2 {
        seq![105u8, 110, 112, 117, 116]
    } else if task == 3 {
        seq![102u8, 115]
    } else {
        seq![116u8, 97, 115, 107]
    }
}

/// The table after granting, entry by entry, the classes of the first `n`
/// entries of `entries`, the policy answering `ds[k]` for entry `k`.
pub open spec fn manifest_grants(
    start: Seq<Capability>,
    entries: Seq<ManifestEntry>,
    ds: Seq<Seq<bool>>,
    n: nat,
) -> Seq<Capability>
    decreases n,
{
    if n == 0 {
        start
    } else {
        grants_applied(
            manifest_grants(start, entries, ds, (n - 1) as nat),
            TaskId(entries[n - 1].task),
            entries[n - 1].capabilities,
            ds[n - 1],
            7,
        )
    }
}

/// Registering the tasks of `entries` in order, with policy `p`, takes the
/// registry and table from `t0`, `c0` to `t1`, `c1`.
pub open spec fn tasks_registered<P: Fn(TaskId, Capability) -> bool>(
    p: Option<P>,
    entries: Seq<ManifestEntry>,
    t0: Seq<TaskProfile>,
    c0: Seq<Capability>,
    t1: Seq<TaskProfile>,
    c1: Seq<Capability>,
) -> bool {
    exists|ts: Seq<Seq<TaskProfile>>, cs: Seq<Seq<Capability>>, rs: Seq<bool>|
        #![trigger ts.len(), cs.len(), rs.len()]
        {
            &&& ts.len() == entries.len() + 1
            &&& cs.len() == entries.len() + 1
            &&& rs.len() == entries.len()
            &&& ts[0] == t0
            &&& cs[0] == c0
            &&& ts[entries.len() as int] == t1
            &&& cs[entries.len() as int] == c1
            &&& forall|k: int|
                0 <= k < entries.len() ==> #[trigger] registration(
                    p,
                    ts[k],
                    cs[k],
                    TaskId(entries[k].task),
                    task_name(entries[k].task),
                    entries[k].capabilities,
                    ts[k + 1],
                    cs[k + 1],
                    rs[k],
                )
        }
}

/// Granting the classes of `entries` in order, with policy `p`, takes the table from `c0` to `c1`.
pub open spec fn manifest_caps_granted<P: Fn(TaskId, Capability) -> bool>(
    p: Option<P>,
    entries: Seq<ManifestEntry>,
    c0: Seq<Capability>,
    c1: Seq<Capability>,
) -> bool {
    exists|ds: Seq<Seq<bool>>|
        #![trigger ds.len()]
        {
            &&& ds.len() == entries.len()
            &&& forall|k: int|
                0 <= k < entries.len() ==> #[trigger] decisions_possible(
                    p,
                    TaskId(entries[k].task),
                    entries[k].capabilities,
                    ds[k],
                )
            &&& c1 == manifest_grants(c0, entries, ds, entries.len())
        }
}

impl Manifest {
    /// The entries, in insertion order.
    pub open spec fn entry_seq(&self) -> Seq<ManifestEntry> {
        manifest_vec_items(self.entries)
    }

    /// An empty manifest.
    pub fn new() -> (m: Self)
        ensures
            m.entry_seq() == Seq::<ManifestEntry>::empty(),
    {
        Manifest { entries: manifest_vec_new() }
    }

    /// Append `entry`; `false`, and no change, when the manifest is full.
    pub fn add(&mut self, entry: ManifestEntry) -> (r: bool)
        ensures
            r == (old(self).entry_seq().len() < MAX_ENTRIES),
            r ==> final(self).entry_seq() == old(self).entry_seq().push(entry),
            !r ==> final(self).entry_seq() == old(self).entry_seq(),
    {
        manifest_vec_push(&mut self.entries, entry).is_ok()
    }

    /// Whether the first entry for `task` covers `required`; `false` when
    /// the manifest has no entry for `task`.
    pub fn allowed(&self, task: u32, required: CapabilityClass) -> (r: bool)
        ensures
            r == manifest_allows(self.entry_seq(), task, required),
    {
        let s = manifest_vec_as_slice(&self.entries);
        let mut i: usize = 0;
        while i < s.len()
            invariant
                0 <= i <= s@.len(),
                s@ == self.entry_seq(),
                forall|j: int| 0 <= j < i ==> #[trigger] s@[j].task != task,
            decreases s@.len() - i,
        {
            if s[i].task == task {
                let r = s[i].capabilities.contains(required);
                proof {
                    assert(is_first_entry(s@, task, i as int));
                    if manifest_allows(s@, task, required) {
                        let k = choose|k: int| #[trigger] is_first_entry(s@, task, k) && s@[k].capabilities.spec_contains(required);
                        if k < i {
                            assert(s@[k].task != task);
                        } else if k > i {
                            assert(s@[i as int].task != task);
                        }
                    }
                }
                return r;
            }
            i = i + 1;
        }
        false
    }
}

/// `class` asks for nothing outside the approved classes.
pub open spec fn approved(class: CapabilityClass) -> bool {
    class.spec_bits() & APPROVED_BITS == class.spec_bits()
}

/// The static approval rule: an entry is approved when it asks for no class
/// outside FILE, GPU, INPUT, TIME, IRQ and MM.
pub fn approve(entry: &ManifestEntry) -> (r: bool)
    ensures
        r == approved(entry.capabilities),
{
    let allowed = CapabilityClass::FILE().union(CapabilityClass::GPU()).union(CapabilityClass::INPUT()).union(
        CapabilityClass::TIME(),
    ).union(CapabilityClass::IRQ()).union(CapabilityClass::MM());
    assert(1u32 | 4u32 | 8u32 | 16u32 | 32u32 | 64u32 == 0b0111_1101u32) by (bit_vector);
    entry.capabilities.bits() & allowed.bits() == entry.capabilities.bits()
}

/// The approval rule never lets a task ask for the network or for an
/// undefined class, and approves every other request.
pub proof fn lemma_approved_classes(class: CapabilityClass)
    ensures
        approved(class) <==> class.is_defined() && !class.spec_contains(CapabilityClass::from_bits_spec(0b0000_0010)),
{
    let b = class.bits;
    assert((b & 0b0111_1101u32 == b) <==> (b & !0b0111_1111u32 == 0 && b & 0b10u32 != 0b10u32)) by (bit_vector);
}

/// The manifest installed at boot (see `default_manifest_entries`).
pub fn default_manifest() -> (m: Manifest)
    ensures
        m.entry_seq() == default_manifest_entries(),
{
    let mut manifest = Manifest::new();
    let _ = manifest.add(
        ManifestEntry {
            task: 1,
            capabilities: CapabilityClass::GPU().union(CapabilityClass::INPUT()).union(CapabilityClass::TIME()),
        },
    );
    let _ = manifest.add(ManifestEntry { task: 2, capabilities: CapabilityClass::INPUT() });
    let _ = manifest.add(
        ManifestEntry { task: 3, capabilities: CapabilityClass::FILE().union(CapabilityClass::MM()) },
    );
    proof {
        assert(4u32 | 8u32 | 16u32 == 0b0001_1100u32) by (bit_vector);
        assert(1u32 | 64u32 == 0b0100_0001u32) by (bit_vector);
        assert(manifest.entry_seq() =~= default_manifest_entries());
    }
    manifest
}

/// The name under which a manifest task is registered.
fn task_name_bytes(task: u32) -> (r: &'static [u8])
    ensures
        r@ == task_name(task),
{
    if task == 1 {
        let r: &'static [u8] = &[100u8, 105, 115, 112, 108, 97, 121];
        assert(r@ =~= task_name(task));
        r
    } else if task == 2 {
        let r: &'static [u8] = &[105u8, 110, 112, 117, 116];
        assert(r@ =~= task_name(task));
        r
    } else if task == 3 {
        let r: &'static [u8] = &[102u8, 115];
        assert(r@ =~= task_name(task));
        r
    } else {
        let r: &'static [u8] = &[116u8, 97, 115, 107];
        assert(r@ =~= task_name(task));
        r
    }
}

/// Register every task of `manifest`, in order, under its well-known name
/// and with its manifest classes as profile.
pub fn register_tasks<P: Fn(TaskId, Capability) -> bool>(tasks: &mut TaskRegistry, caps: &mut CapTable<P>, manifest: &Manifest)
    requires
        old(tasks).wf(),
        old(caps).wf(),
    ensures
        final(tasks).wf(),
        final(caps).wf(),
        final(caps).policy() == old(caps).policy(),
        tasks_registered(
            old(caps).policy(),
            manifest.entry_seq(),
            old(tasks).profiles(),
            old(caps).caps(),
            final(tasks).profiles(),
            final(caps).caps(),
        ),
{
    let entries = manifest_vec_as_slice(&manifest.entries);
    let ghost mut ts: Seq<Seq<TaskProfile>> = seq![tasks.profiles()];
    let ghost mut cs: Seq<Seq<Capability>> = seq![caps.caps()];
    let ghost mut rs: Seq<bool> = Seq::empty();
    let mut i: usize = 0;
    while i < entries.len()
        invariant
            0 <= i <= entries@.len(),
            entries@ == manifest.entry_seq(),
            tasks.wf(),
            caps.wf(),
            caps.policy() == old(caps).policy(),
            ts.len() == i + 1,
            cs.len() == i + 1,
            rs.len() == i,
            ts[0] == old(tasks).profiles(),
            cs[0] == old(caps).caps(),
            ts[i as int] == tasks.profiles(),
            cs[i as int] == caps.caps(),
            forall|k: int|
                0 <= k < i ==> #[trigger] registration(
                    old(caps).policy(),
                    ts[k],
                    cs[k],
                    TaskId(entries@[k].task),
                    task_name(entries@[k].task),
                    entries@[k].capabilities,
                    ts[k + 1],
                    cs[k + 1],
                    rs[k],
                ),
        decreases entries@.len() - i,
    {
        let entry = entries[i];
        let name = task_name_bytes(entry.task);
        let r = task::register(tasks, caps, TaskId(entry.task), name, entry.capabilities);
        proof {
            let ts_old = ts;
            let cs_old = cs;
            let rs_old = rs;
            ts = ts.push(tasks.profiles());
            cs = cs.push(caps.caps());
            rs = rs.push(r);
            assert forall|k: int|
                0 <= k < i + 1 implies #[trigger] registration(
                    old(caps).policy(),
                    ts[k],
                    cs[k],
                    TaskId(entries@[k].task),
                    task_name(entries@[k].task),
                    entries@[k].capabilities,
                    ts[k + 1],
                    cs[k + 1],
                    rs[k],
                ) by {
                if k < i {
                    assert(ts[k] == ts_old[k] && ts[k + 1] == ts_old[k + 1]);
                    assert(cs[k] == cs_old[k] && cs[k + 1] == cs_old[k + 1]);
                    assert(rs[k] == rs_old[k]);
                }
            }
        }
        i = i + 1;
    }
    proof {
        assert(ts.len() == manifest.entry_seq().len() + 1);
    }
}

/// Grant every task of `manifest` one capability of each class its entry
/// covers, entry by entry and class by class, through the policy.
pub fn grant_manifest_caps<P: Fn(TaskId, Capability) -> bool>(caps: &mut CapTable<P>, manifest: &Manifest)
    requires
        old(caps).wf(),
    ensures
        final(caps).wf(),
        final(caps).policy() == old(caps).policy(),
        manifest_caps_granted(old(caps).policy(), manifest.entry_seq(), old(caps).caps(), final(caps).caps()),
{
    let entries = manifest_vec_as_slice(&manifest.entries);
    let ghost mut ds: Seq<Seq<bool>> = Seq::empty();
    let mut i: usize = 0;
    while i < entries.len()
        invariant
            0 <= i <= entries@.len(),
            entries@ == manifest.entry_seq(),
            caps.wf(),
            caps.policy() == old(caps).policy(),
            ds.len() == i,
            forall|k: int|
                0 <= k < i ==> #[trigger] decisions_possible(
                    old(caps).policy(),
                    TaskId(entries@[k].task),
                    entries@[k].capabilities,
                    ds[k],
                ),
            caps.caps() == manifest_grants(old(caps).caps(), entries@, ds, i as nat),
        decreases entries@.len() - i,
    {
        let entry = entries[i];
        let ghost before = caps.caps();
        task::grant_classes(caps, TaskId(entry.task), entry.capabilities);
        proof {
            let d = choose|d: Seq<bool>|
                #[trigger] decisions_possible(old(caps).policy(), TaskId(entry.task), entry.capabilities, d)
                    && caps.caps() == grants_applied(before, TaskId(entry.task), entry.capabilities, d, 7);
            let ds_old = ds;
            ds = ds.push(d);
            lemma_manifest_grants_prefix(old(caps).caps(), entries@, ds, i as nat);
            assert(ds.drop_last() =~= ds_old);
            assert forall|k: int|
                0 <= k < i + 1 implies #[trigger] decisions_possible(
                    old(caps).policy(),
                    TaskId(entries@[k].task),
                    entries@[k].capabilities,
                    ds[k],
                ) by {
                if k < i {
                    assert(ds[k] == ds_old[k]);
                }
            }
        }
        i = i + 1;
    }
}

/// `manifest_grants` over the first `n` entries reads only the first `n` decisions.
proof fn lemma_manifest_grants_prefix(start: Seq<Capability>, entries: Seq<ManifestEntry>, ds: Seq<Seq<bool>>, n: nat)
    requires
        n < ds.len(),
    ensures
        manifest_grants(start, entries, ds, n) == manifest_grants(start, entries, ds.drop_last(), n),
    decreases n,
{
    if n > 0 {
        lemma_manifest_grants_prefix(start, entries, ds, (n - 1) as nat);
    }
}

/// The policy check the manifest enforces: `task` may receive `cap` when
/// its manifest entry covers the capability's class.
pub fn policy_check(manifest: &Manifest, task: TaskId, cap: Capability) -> (r: bool)
    ensures
        r == manifest_allows(manifest.entry_seq(), task.0, cap.class),
{
    manifest.allowed(task.0, cap.class)
}

/// Install the default manifest: register its tasks, grant their manifest
/// capabilities, then make `policy` decide every later grant.  `policy`
/// must answer as `policy_check` does on the default manifest.  Returns
/// the manifest.
pub fn install_default_manifest<P: Fn(TaskId, Capability) -> bool>(
    tasks: &mut TaskRegistry,
    caps: &mut CapTable<P>,
    policy: P,
) -> (m: Manifest)
    requires
        old(tasks).wf(),
        old(caps).wf(),
        forall|t: TaskId, c: Capability| call_requires(policy, (t, c)),
        forall|t: TaskId, c: Capability, b: bool|
            call_ensures(policy, (t, c), b) ==> b == manifest_allows(default_manifest_entries(), t.0, c.class),
    ensures
        final(tasks).wf(),
        final(caps).wf(),
        m.entry_seq() == default_manifest_entries(),
        final(caps).policy() == Some(policy),
        exists|mid: Seq<Capability>|
            #![trigger tasks_registered(old(caps).policy(), default_manifest_entries(), old(tasks).profiles(), old(caps).caps(), final(tasks).profiles(), mid)]
            tasks_registered(
                old(caps).policy(),
                default_manifest_entries(),
                old(tasks).profiles(),
                old(caps).caps(),
                final(tasks).profiles(),
                mid,
            ) && manifest_caps_granted(old(caps).policy(), default_manifest_entries(), mid, final(caps).caps()),
{
    let manifest = default_manifest();
    register_tasks(tasks, caps, &manifest);
    let ghost mid = caps.caps();
    grant_manifest_caps(caps, &manifest);
    caps::register_policy(caps, policy);
    manifest
}

/// Once the default manifest is installed with a policy that answers as
/// the manifest does, a grant succeeds only for a class that the
/// manifest entry of the capability's owner covers; any other grant leaves
/// the table as it was.
pub proof fn lemma_installed_policy_decides<P: Fn(TaskId, Capability) -> bool>(
    policy: P,
    caps: Seq<Capability>,
    cap: Capability,
    allowed: bool,
)
    requires
        forall|t: TaskId, c: Capability, b: bool|
            call_ensures(policy, (t, c), b) ==> b == manifest_allows(default_manifest_entries(), t.0, c.class),
        caps::policy_permits(Some(policy), cap.owner, cap, allowed),
    ensures
        allowed == manifest_allows(default_manifest_entries(), cap.owner.0, cap.class),
        !manifest_allows(default_manifest_entries(), cap.owner.0, cap.class) ==> caps::grant_outcome(
            caps,
            cap,
            allowed,
        ) == caps,
{
}

/// Under the default manifest the input task (2) may not use the GPU, a
/// task without an entry (4) may hold nothing, and the display task (1)
/// may use the GPU.
pub proof fn lemma_default_manifest_decisions(class: CapabilityClass)
    ensures
        !manifest_allows(default_manifest_entries(), 2, CapabilityClass::from_bits_spec(0b0000_0100)),
        !manifest_allows(default_manifest_entries(), 4, class),
        manifest_allows(default_manifest_entries(), 1, CapabilityClass::from_bits_spec(0b0000_0100)),
{
    let s = default_manifest_entries();
    assert(0b0000_1000u32 & 0b0000_0100u32 != 0b0000_0100u32) by (bit_vector);
    assert(0b0001_1100u32 & 0b0000_0100u32 == 0b0000_0100u32) by (bit_vector);
    if manifest_allows(s, 2, CapabilityClass::from_bits_spec(0b0000_0100)) {
        let i = choose|i: int| #[trigger] is_first_entry(s, 2, i) && s[i].capabilities.spec_contains(
            CapabilityClass::from_bits_spec(0b0000_0100),
        );
        assert(i == 1);
    }
    assert(is_first_entry(s, 1, 0));
}

/// The default manifest in full: the display task (1) may use GPU, INPUT
/// and TIME, the input task (2) INPUT, the file-system task (3) FILE and
/// MM, and no other task anything.
pub proof fn lemma_default_manifest_rights(task: u32, class: CapabilityClass)
    ensures
        manifest_allows(default_manifest_entries(), task, class) == (
        (task == 1 && class.bits & 0b0001_1100 == class.bits) || (task == 2 && class.bits & 0b0000_1000 == class.bits)
            || (task == 3 && class.bits & 0b0100_0001 == class.bits)),
{
    let s = default_manifest_entries();
    let b = class.bits;
    assert((0b0001_1100u32 & b == b) == (b & 0b0001_1100u32 == b)) by (bit_vector);
    assert((0b0000_1000u32 & b == b) == (b & 0b0000_1000u32 == b)) by (bit_vector);
    assert((0b0100_0001u32 & b == b) == (b & 0b0100_0001u32 == b)) by (bit_vector);
    if 1 <= task <= 3 {
        let k = task - 1;
        assert(is_first_entry(s, task, k));
        if manifest_allows(s, task, class) {
            let i = choose|i: int| #[trigger] is_first_entry(s, task, i) && s[i].capabilities.spec_contains(class);
            assert(i == k);
        }
    } else {
        if manifest_allows(s, task, class) {
            let i = choose|i: int| #[trigger] is_first_entry(s, task, i) && s[i].capabilities.spec_contains(class);
            assert(s[i].task == task);
        }
    }
}

/// The names the manifest tasks are registered under: "display" (1),
/// "input" (2), "fs" (3), and "task" for any other.
pub proof fn lemma_task_names(task: u32)
    ensures
        task_name(1) == seq!['d' as u8, 'i' as u8, 's' as u8, 'p' as u8, 'l' as u8, 'a' as u8, 'y' as u8],
        task_name(2) == seq!['i' as u8, 'n' as u8, 'p' as u8, 'u' as u8, 't' as u8],
        task_name(3) == seq!['f' as u8, 's' as u8],
        !(1 <= task <= 3) ==> task_name(task) == seq!['t' as u8, 'a' as u8, 's' as u8, 'k' as u8],
{
    assert(task_name(1) =~= seq!['d' as u8, 'i' as u8, 's' as u8, 'p' as u8, 'l' as u8, 'a' as u8, 'y' as u8]);
    assert(task_name(2) =~= seq!['i' as u8, 'n' as u8, 'p' as u8, 'u' as u8, 't' as u8]);
    assert(task_name(3) =~= seq!['f' as u8, 's' as u8]);
    assert(task_name(4) =~= seq!['t' as u8, 'a' as u8, 's' as u8, 'k' as u8]);
}

} // verus!
