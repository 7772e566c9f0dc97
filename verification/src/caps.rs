//! Capability table: which task holds which class of capability, and the
//! policy hook that may refuse a grant.
use vstd::prelude::*;

use crate::bounded::{cap_vec_as_slice, cap_vec_clear, cap_vec_items, cap_vec_new, cap_vec_push, cap_vec_retain};
use crate::sched::TaskId;

verus! {

/// Flags naming the kinds of kernel resources a capability may cover.
/// Only the seven low bits are meaningful.
#[derive(Clone, Copy, Debug, PartialEq, Eq, Structural)]
pub struct CapabilityClass {
    pub bits: u32,
}

/// Bits of every defined capability class.
pub const CAPABILITY_ALL_BITS: u32 = 0b0111_1111;

impl CapabilityClass {
    pub open spec fn spec_bits(self) -> u32 {
        self.bits
    }

    /// `self` covers every flag of `other`.
    pub open spec fn spec_contains(self, other: CapabilityClass) -> bool {
        self.bits & other.bits == other.bits
    }

    pub open spec fn spec_union(self, other: CapabilityClass) -> CapabilityClass {
        CapabilityClass { bits: self.bits | other.bits }
    }

    pub open spec fn from_bits_spec(bits: u32) -> CapabilityClass {
        CapabilityClass { bits }
    }

    /// The class holds no flag outside the seven defined ones.
    pub open spec fn is_defined(self) -> bool {
        self.bits & !CAPABILITY_ALL_BITS == 0
    }

    #[allow(non_snake_case)]
    pub fn FILE() -> (c: Self)
        ensures
            c.spec_bits() == 0b0000_0001,
    {
        CapabilityClass { bits: 0b0000_0001 }
    }

    #[allow(non_snake_case)]
    pub fn NET() -> (c: Self)
        ensures
            c.spec_bits() == 0b0000_0010,
    {
        CapabilityClass { bits: 0b0000_0010 }
    }

    #[allow(non_snake_case)]
    pub fn GPU() -> (c: Self)
        ensures
            c.spec_bits() == 0b0000_0100,
    {
        CapabilityClass { bits: 0b0000_0100 }
    }

    #[allow(non_snake_case)]
    pub fn INPUT() -> (c: Self)
        ensures
            c.spec_bits() == 0b0000_1000,
    {
        CapabilityClass { bits: 0b0000_1000 }
    }

    #[allow(non_snake_case)]
    pub fn TIME() -> (c: Self)
        ensures
            c.spec_bits() == 0b0001_0000,
    {
        CapabilityClass { bits: 0b0001_0000 }
    }

    #[allow(non_snake_case)]
    pub fn IRQ() -> (c: Self)
        ensures
            c.spec_bits() == 0b0010_0000,
    {
        CapabilityClass { bits: 0b0010_0000 }
    }

    #[allow(non_snake_case)]
    pub fn MM() -> (c: Self)
        ensures
            c.spec_bits() == 0b0100_0000,
    {
        CapabilityClass { bits: 0b0100_0000 }
    }

    /// The class with no flag set.
    pub fn empty() -> (c: Self)
        ensures
            c.spec_bits() == 0,
    {
        CapabilityClass { bits: 0 }
    }

    /// The class with every defined flag set.
    pub fn all() -> (c: Self)
        ensures
            c.spec_bits() == CAPABILITY_ALL_BITS,
    {
        CapabilityClass { bits: CAPABILITY_ALL_BITS }
    }

    /// The raw flag bits.
    pub fn bits(&self) -> (b: u32)
        ensures
            b == self.spec_bits(),
    {
        self.bits
    }

    /// `Some` exactly when `bits` names only defined flags.
    pub fn from_bits(bits: u32) -> (r: Option<Self>)
        ensures
            (bits & !CAPABILITY_ALL_BITS == 0) ==> r == Some(Self::from_bits_spec(bits)),
            (bits & !CAPABILITY_ALL_BITS != 0) ==> r is None,
    {
        if bits & !CAPABILITY_ALL_BITS == 0 {
            Some(CapabilityClass { bits })
        } else {
            None
        }
    }

    /// Every flag of `other` is set in `self`.
    pub fn contains(&self, other: Self) -> (r: bool)
        ensures
            r == self.spec_contains(other),
    {
        self.bits & other.bits == other.bits
    }

    /// The flags set in either operand.
    pub fn union(self, other: Self) -> (r: Self)
        ensures
            r == self.spec_union(other),
    {
        CapabilityClass { bits: self.bits | other.bits }
    }
}

impl core::ops::BitOr for CapabilityClass {
    type Output = CapabilityClass;

    fn bitor(self, rhs: CapabilityClass) -> (r: CapabilityClass) {
        CapabilityClass { bits: self.bits | rhs.bits }
    }
}

impl vstd::std_specs::ops::BitOrSpecImpl for CapabilityClass {
    open spec fn obeys_bitor_spec() -> bool {
        true
    }

    open spec fn bitor_req(self, rhs: CapabilityClass) -> bool {
        true
    }

    open spec fn bitor_spec(self, rhs: CapabilityClass) -> CapabilityClass {
        self.spec_union(rhs)
    }
}

/// A right of `owner` over the kernel object `object`, of kind `class`.
#[derive(Clone, Copy, Debug, PartialEq, Eq, Structural)]
pub struct Capability {
    pub owner: TaskId,
    pub class: CapabilityClass,
    pub object: u64,
}

/// Number of capabilities the table can hold.
pub const MAX_CAPS: usize = 32;

/// The capability table, with the policy that decides grants.
///
/// The policy `P` is any function of the task and the capability; a table
/// without a registered policy grants whatever fits.
pub struct CapTable<P> {
    caps: heapless::Vec<Capability, 32>,
    policy: Option<P>,
}

/// `b` is an answer that the policy `p` may give for `(task, cap)`; with no
/// policy the only answer is "allowed".
pub open spec fn policy_permits<P: Fn(TaskId, Capability) -> bool>(
    p: Option<P>,
    task: TaskId,
    cap: Capability,
    b: bool,
) -> bool {
    match p {
        Some(f) => call_ensures(f, (task, cap), b),
        None => b,
    }
}

/// The policy `p` can be asked about any task and capability.
pub open spec fn policy_callable<P: Fn(TaskId, Capability) -> bool>(p: Option<P>) -> bool {
    match p {
        Some(f) => forall|t: TaskId, c: Capability| call_requires(f, (t, c)),
        None => true,
    }
}

/// Some capability of `caps` is owned by `task` and covers `class`.
pub open spec fn holds(caps: Seq<Capability>, task: TaskId, class: CapabilityClass) -> bool {
    exists|i: int| 0 <= i < caps.len() && #[trigger] caps[i].owner == task && caps[i].class.spec_contains(class)
}

/// The table after a grant of `cap` that the policy answered with `allowed`:
/// the capability is appended when allowed and there is room.
pub open spec fn grant_outcome(caps: Seq<Capability>, cap: Capability, allowed: bool) -> Seq<Capability> {
    if allowed && caps.len() < MAX_CAPS {
        caps.push(cap)
    } else {
        caps
    }
}

/// `cap` survives a revocation for `task` of `class` (`None`: of every class).
pub open spec fn spec_keeps_capability(cap: Capability, task: TaskId, class: Option<CapabilityClass>) -> bool {
    if cap.owner != task {
        true
    } else {
        match class {
            Some(target) => !cap.class.spec_contains(target),
            None => false,
        }
    }
}

/// Predicate handed to the table's `retain` by `revoke`.
pub fn keeps_capability(cap: &Capability, task: TaskId, class: Option<CapabilityClass>) -> (r: bool)
    ensures
        r == spec_keeps_capability(*cap, task, class),
{
    if cap.owner != task {
        return true;
    }
    match class {
        Some(target) => !cap.class.contains(target),
        None => false,
    }
}

impl<P: Fn(TaskId, Capability) -> bool> CapTable<P> {
    /// The capabilities in the table, oldest first.
    pub closed spec fn caps(&self) -> Seq<Capability> {
        cap_vec_items(self.caps)
    }

    /// The registered policy.
    pub closed spec fn policy(&self) -> Option<P> {
        self.policy
    }

    pub closed spec fn wf(&self) -> bool {
        &&& cap_vec_items(self.caps).len() <= MAX_CAPS
        &&& policy_callable(self.policy)
    }

    /// An empty table with no policy.
    pub fn new() -> (t: Self)
        ensures
            t.wf(),
            t.caps() == Seq::<Capability>::empty(),
            t.policy() is None,
    {
        CapTable { caps: cap_vec_new(), policy: None }
    }
}

/// Empty the table; the registered policy stays.
pub fn init<P: Fn(TaskId, Capability) -> bool>(table: &mut CapTable<P>)
    requires
        old(table).wf(),
    ensures
        final(table).wf(),
        final(table).caps() == Seq::<Capability>::empty(),
        final(table).policy() == old(table).policy(),
{
    cap_vec_clear(&mut table.caps);
}

/// Install `policy` as the one that decides later grants.
pub fn register_policy<P: Fn(TaskId, Capability) -> bool>(table: &mut CapTable<P>, policy: P)
    requires
        old(table).wf(),
        forall|t: TaskId, c: Capability| call_requires(policy, (t, c)),
    ensures
        final(table).wf(),
        final(table).caps() == old(table).caps(),
        final(table).policy() == Some(policy),
{
    table.policy = Some(policy);
}

/// Ask the registered policy whether `task` may receive `cap`; without a
/// policy the answer is yes.
pub fn policy_allows<P: Fn(TaskId, Capability) -> bool>(table: &CapTable<P>, task: TaskId, cap: Capability) -> (r: bool)
    requires
        table.wf(),
    ensures
        policy_permits(table.policy(), task, cap, r),
{
    match &table.policy {
        Some(policy) => policy(task, cap),
        None => true,
    }
}

/// Add `cap` to the table if the policy allows it for its owner and the
/// table has room.  Returns whether it was added.
pub fn grant<P: Fn(TaskId, Capability) -> bool>(table: &mut CapTable<P>, cap: Capability) -> (r: bool)
    requires
        old(table).wf(),
    ensures
        final(table).wf(),
        final(table).policy() == old(table).policy(),
        exists|allowed: bool|
            #[trigger] policy_permits(old(table).policy(), cap.owner, cap, allowed)
                && r == (allowed && old(table).caps().len() < MAX_CAPS)
                && final(table).caps() == grant_outcome(old(table).caps(), cap, allowed),
        r ==> final(table).caps() == old(table).caps().push(cap),
        !r ==> final(table).caps() == old(table).caps(),
{
    let allowed = policy_allows(table, cap.owner, cap);
    if !allowed {
        return false;
    }
    let pushed = cap_vec_push(&mut table.caps, cap);
    pushed.is_ok()
}

/// Does `task` hold a capability whose class covers `class`?
pub fn has<P: Fn(TaskId, Capability) -> bool>(table: &CapTable<P>, task: TaskId, class: CapabilityClass) -> (r: bool)
    requires
        table.wf(),
    ensures
        r == holds(table.caps(), task, class),
{
    let caps = cap_vec_as_slice(&table.caps);
    let mut i: usize = 0;
    while i < caps.len()
        invariant
            0 <= i <= caps@.len(),
            caps@ == table.caps(),
            forall|j: int| 0 <= j < i ==> !(#[trigger] caps@[j].owner == task && caps@[j].class.spec_contains(class)),
        decreases caps@.len() - i,
    {
        let cap = caps[i];
        if cap.owner == task && cap.class.contains(class) {
            return true;
        }
        i = i + 1;
    }
    false
}

/// Drop the capabilities of `task`: those whose class covers `class`, or
/// all of them when `class` is `None`.  Other tasks' capabilities and the
/// order of the survivors are kept.
pub fn revoke<P: Fn(TaskId, Capability) -> bool>(table: &mut CapTable<P>, task: TaskId, class: Option<CapabilityClass>)
    requires
        old(table).wf(),
    ensures
        final(table).wf(),
        final(table).policy() == old(table).policy(),
        final(table).caps() == old(table).caps().filter(
            |c: Capability| spec_keeps_capability(c, task, class),
        ),
{
    cap_vec_retain(&mut table.caps, task, class);
    proof {
        let s = old(table).caps();
        s.lemma_filter_len(|c: Capability| spec_keeps_capability(c, task, class));
    }
}

/// A capability covering `class` is held as soon as it is added: after a
/// successful grant of `cap`, its owner holds every class that `cap.class`
/// covers.
pub proof fn lemma_grant_then_has(caps: Seq<Capability>, cap: Capability, class: CapabilityClass)
    requires
        cap.class.spec_contains(class),
    ensures
        holds(caps.push(cap), cap.owner, class),
{
    let s = caps.push(cap);
    assert(s[caps.len() as int] == cap);
}

/// A grant adds rights only to the capability's owner: for any other task,
/// what it holds is unchanged.
pub proof fn lemma_grant_keeps_others(caps: Seq<Capability>, cap: Capability, task: TaskId, class: CapabilityClass)
    requires
        task != cap.owner,
    ensures
        holds(caps.push(cap), task, class) == holds(caps, task, class),
{
    let s = caps.push(cap);
    if holds(s, task, class) {
        let i = choose|i: int| 0 <= i < s.len() && #[trigger] s[i].owner == task && s[i].class.spec_contains(class);
        assert(i < caps.len());
        assert(caps[i] == s[i]);
    }
    if holds(caps, task, class) {
        let i = choose|i: int| 0 <= i < caps.len() && #[trigger] caps[i].owner == task && caps[i].class.spec_contains(class);
        assert(s[i] == caps[i]);
    }
}

/// After revoking a class from a task, the task no longer holds that class;
/// after revoking everything (`None`), it holds no class at all.
pub proof fn lemma_revoke_then_not_has(caps: Seq<Capability>, task: TaskId, class: Option<CapabilityClass>, probe: CapabilityClass)
    requires
        class is None || class == Some(probe),
    ensures
        !holds(caps.filter(|c: Capability| spec_keeps_capability(c, task, class)), task, probe),
{
    let pred = |c: Capability| spec_keeps_capability(c, task, class);
    let s = caps.filter(pred);
    if holds(s, task, probe) {
        let i = choose|i: int| 0 <= i < s.len() && #[trigger] s[i].owner == task && s[i].class.spec_contains(probe);
        caps.lemma_filter_pred(pred, i);
        assert(pred(s[i]));
    }
}

/// Revoking capabilities of one task leaves every other task's rights as
/// they were.
pub proof fn lemma_revoke_keeps_others(
    caps: Seq<Capability>,
    task: TaskId,
    class: Option<CapabilityClass>,
    other: TaskId,
    probe: CapabilityClass,
)
    requires
        other != task,
    ensures
        holds(caps.filter(|c: Capability| spec_keeps_capability(c, task, class)), other, probe) == holds(caps, other, probe),
{
    let pred = |c: Capability| spec_keeps_capability(c, task, class);
    let s = caps.filter(pred);
    if holds(s, other, probe) {
        let i = choose|i: int| 0 <= i < s.len() && #[trigger] s[i].owner == other && s[i].class.spec_contains(probe);
        caps.lemma_filter_pred(pred, i);
        assert(s.contains(s[i]));
        lemma_filter_member(caps, pred, s[i]);
        let j = choose|j: int| 0 <= j < caps.len() && caps[j] == s[i];
        assert(caps[j].owner == other);
    }
    if holds(caps, other, probe) {
        let i = choose|i: int| 0 <= i < caps.len() && #[trigger] caps[i].owner == other && caps[i].class.spec_contains(probe);
        assert(pred(caps[i]));
        caps.lemma_filter_contains(pred, i);
        let j = choose|j: int| 0 <= j < s.len() && s[j] == caps[i];
        assert(s[j].owner == other);
    }
}

/// Every element of a filtered sequence comes from the original.
proof fn lemma_filter_member(s: Seq<Capability>, pred: spec_fn(Capability) -> bool, x: Capability)
    requires
        s.filter(pred).contains(x),
    ensures
        s.contains(x),
    decreases s.len(),
{
    reveal(Seq::filter);
    if s.len() > 0 {
        let sub = s.drop_last().filter(pred);
        if pred(s.last()) && x == s.last() {
            assert(s[s.len() - 1] == x);
        } else {
            if pred(s.last()) {
                let k = choose|k: int| 0 <= k < s.filter(pred).len() && s.filter(pred)[k] == x;
                assert(s.filter(pred) == sub.push(s.last()));
                if k == sub.len() {
                    assert(x == s.last());
                } else {
                    assert(sub[k] == x);
                    assert(sub.contains(x));
                }
            }
            lemma_filter_member(s.drop_last(), pred, x);
            let j = choose|j: int| 0 <= j < s.drop_last().len() && s.drop_last()[j] == x;
            assert(s[j] == x);
        }
    }
}

/// An emptied table grants nothing.
pub proof fn lemma_init_holds_nothing(task: TaskId, class: CapabilityClass)
    ensures
        !holds(Seq::<Capability>::empty(), task, class),
{
}

} // verus!
