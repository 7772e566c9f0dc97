//! Fixed-capacity collections from `heapless`, as the kernel tables use them.
//!
//! Each instantiation that the kernel keeps gets a name for its contents
//! and one wrapper per method that the kernel calls.  The contracts restate
//! what heapless 0.8 (`src/vec.rs`, `src/deque.rs`) does for that method.
use vstd::prelude::*;

use crate::boot::MemoryRegion;
use crate::caps::{Capability, CapabilityClass};
use crate::ipc::Message;
use crate::sched::TaskId;
use crate::security::ManifestEntry;
use crate::task::TaskProfile;

verus! {

#[verifier::external_type_specification]
#[verifier::external_body]
#[verifier::reject_recursive_types(T)]
pub struct ExHeaplessVec<T, const N: usize>(heapless::Vec<T, N>);

#[verifier::external_type_specification]
#[verifier::external_body]
pub struct ExHeaplessString<const N: usize>(heapless::String<N>);

#[verifier::external_type_specification]
#[verifier::external_body]
#[verifier::reject_recursive_types(T)]
pub struct ExHeaplessDeque<T, const N: usize>(heapless::Deque<T, N>);

// ---------------------------------------------------------------------------
// Capability table: heapless::Vec<Capability, 32>
// ---------------------------------------------------------------------------

/// The capabilities held by a `heapless::Vec<Capability, 32>`, in order.
pub uninterp spec fn cap_vec_items(v: heapless::Vec<Capability, 32>) -> Seq<Capability>;

/// `heapless::Vec::new`: an empty vector.
#[verifier::external_body]
pub(crate) fn cap_vec_new() -> (v: heapless::Vec<Capability, 32>)
    ensures
        cap_vec_items(v) == Seq::<Capability>::empty(),
{
    heapless::Vec::new()
}

/// `heapless::Vec::clear`: removes every element.
#[verifier::external_body]
pub(crate) fn cap_vec_clear(v: &mut heapless::Vec<Capability, 32>)
    ensures
        cap_vec_items(*final(v)) == Seq::<Capability>::empty(),
{
    v.clear()
}

/// `heapless::Vec::push`: appends when `len < 32`, else hands the item back
/// and leaves the vector as it was.
#[verifier::external_body]
pub(crate) fn cap_vec_push(v: &mut heapless::Vec<Capability, 32>, item: Capability) -> (r: Result<
    (),
    Capability,
>)
    ensures
        cap_vec_items(*old(v)).len() < 32 ==> (r is Ok && cap_vec_items(*final(v)) == cap_vec_items(
            *old(v),
        ).push(item)),
        cap_vec_items(*old(v)).len() >= 32 ==> (r is Err && cap_vec_items(*final(v))
            == cap_vec_items(*old(v))),
{
    v.push(item)
}

/// `heapless::Vec::as_slice`: the elements in order.
#[verifier::external_body]
pub(crate) fn cap_vec_as_slice(v: &heapless::Vec<Capability, 32>) -> (s: &[Capability])
    ensures
        s@ == cap_vec_items(*v),
{
    v.as_slice()
}

/// `heapless::Vec::retain`: keeps, in their order, exactly the elements on
/// which the predicate holds.  The predicate handed over is the verified
/// `caps::keeps_capability`, whose result is `caps::spec_keeps_capability`.
#[verifier::external_body]
pub(crate) fn cap_vec_retain(
    v: &mut heapless::Vec<Capability, 32>,
    task: TaskId,
    class: Option<CapabilityClass>,
)
    ensures
        cap_vec_items(*final(v)) == cap_vec_items(*old(v)).filter(
            |c: Capability| crate::caps::spec_keeps_capability(c, task, class),
        ),
{
    v.retain(|c| crate::caps::keeps_capability(c, task, class))
}

// ---------------------------------------------------------------------------
// Task registry: heapless::Vec<TaskProfile, 32>
// ---------------------------------------------------------------------------

/// The profiles held by a `heapless::Vec<TaskProfile, 32>`, in order.
pub uninterp spec fn task_vec_items(v: heapless::Vec<TaskProfile, 32>) -> Seq<TaskProfile>;

/// `heapless::Vec::new`: an empty vector.
#[verifier::external_body]
pub(crate) fn task_vec_new() -> (v: heapless::Vec<TaskProfile, 32>)
    ensures
        task_vec_items(v) == Seq::<TaskProfile>::empty(),
{
    heapless::Vec::new()
}

/// `heapless::Vec::push`: appends when `len < 32`, else leaves the vector unchanged.
#[verifier::external_body]
pub(crate) fn task_vec_push(v: &mut heapless::Vec<TaskProfile, 32>, item: TaskProfile) -> (r:
    Result<(), TaskProfile>)
    ensures
        task_vec_items(*old(v)).len() < 32 ==> (r is Ok && task_vec_items(*final(v))
            == task_vec_items(*old(v)).push(item)),
        task_vec_items(*old(v)).len() >= 32 ==> (r is Err && task_vec_items(*final(v))
            == task_vec_items(*old(v))),
{
    v.push(item)
}

/// `heapless::Vec::as_slice`: the elements in order.
#[verifier::external_body]
pub(crate) fn task_vec_as_slice(v: &heapless::Vec<TaskProfile, 32>) -> (s: &[TaskProfile])
    ensures
        s@ == task_vec_items(*v),
{
    v.as_slice()
}

/// Assignment through `heapless::Vec`'s `DerefMut` to a slice: element `i`
/// is replaced, the others stay.
#[verifier::external_body]
pub(crate) fn task_vec_set(v: &mut heapless::Vec<TaskProfile, 32>, i: usize, item: TaskProfile)
    requires
        i < task_vec_items(*old(v)).len(),
    ensures
        task_vec_items(*final(v)) == task_vec_items(*old(v)).update(i as int, item),
{
    v[i] = item;
}

// ---------------------------------------------------------------------------
// Security manifest: heapless::Vec<ManifestEntry, 8>
// ---------------------------------------------------------------------------

/// The entries held by a `heapless::Vec<ManifestEntry, 8>`, in order.
pub uninterp spec fn manifest_vec_items(v: heapless::Vec<ManifestEntry, 8>) -> Seq<ManifestEntry>;

/// `heapless::Vec::new`: an empty vector.
#[verifier::external_body]
pub(crate) fn manifest_vec_new() -> (v: heapless::Vec<ManifestEntry, 8>)
    ensures
        manifest_vec_items(v) == Seq::<ManifestEntry>::empty(),
{
    heapless::Vec::new()
}

/// `heapless::Vec::push`: appends when `len < 8`, else leaves the vector unchanged.
#[verifier::external_body]
pub(crate) fn manifest_vec_push(v: &mut heapless::Vec<ManifestEntry, 8>, item: ManifestEntry) -> (r:
    Result<(), ManifestEntry>)
    ensures
        manifest_vec_items(*old(v)).len() < 8 ==> (r is Ok && manifest_vec_items(*final(v))
            == manifest_vec_items(*old(v)).push(item)),
        manifest_vec_items(*old(v)).len() >= 8 ==> (r is Err && manifest_vec_items(*final(v))
            == manifest_vec_items(*old(v))),
{
    v.push(item)
}

/// `heapless::Vec::as_slice`: the elements in order.
#[verifier::external_body]
pub(crate) fn manifest_vec_as_slice(v: &heapless::Vec<ManifestEntry, 8>) -> (s: &[ManifestEntry])
    ensures
        s@ == manifest_vec_items(*v),
{
    v.as_slice()
}

// ---------------------------------------------------------------------------
// Boot memory map: heapless::Vec<MemoryRegion, 256>
// ---------------------------------------------------------------------------

/// The regions held by a `heapless::Vec<MemoryRegion, 256>`, in order.
pub uninterp spec fn region_vec_items(v: heapless::Vec<MemoryRegion, 256>) -> Seq<MemoryRegion>;

/// `heapless::Vec::new`: an empty vector.
#[verifier::external_body]
pub(crate) fn region_vec_new() -> (v: heapless::Vec<MemoryRegion, 256>)
    ensures
        region_vec_items(v) == Seq::<MemoryRegion>::empty(),
{
    heapless::Vec::new()
}

/// `heapless::Vec::push`: appends when `len < 256`, else leaves the vector unchanged.
#[verifier::external_body]
pub(crate) fn region_vec_push(v: &mut heapless::Vec<MemoryRegion, 256>, item: MemoryRegion) -> (r:
    Result<(), MemoryRegion>)
    ensures
        region_vec_items(*old(v)).len() < 256 ==> (r is Ok && region_vec_items(*final(v))
            == region_vec_items(*old(v)).push(item)),
        region_vec_items(*old(v)).len() >= 256 ==> (r is Err && region_vec_items(*final(v))
            == region_vec_items(*old(v))),
{
    v.push(item)
}

/// `heapless::Vec::as_slice`: the elements in order.
#[verifier::external_body]
pub(crate) fn region_vec_as_slice(v: &heapless::Vec<MemoryRegion, 256>) -> (s: &[MemoryRegion])
    ensures
        s@ == region_vec_items(*v),
{
    v.as_slice()
}

// ---------------------------------------------------------------------------
// IPC queue: heapless::Deque<Message, 16>
// ---------------------------------------------------------------------------

/// The messages held by a `heapless::Deque<Message, 16>`, front first.
pub uninterp spec fn msg_deque_items(d: heapless::Deque<Message, 16>) -> Seq<Message>;

/// `heapless::Deque::new`: an empty deque.
#[verifier::external_body]
pub(crate) fn msg_deque_new() -> (d: heapless::Deque<Message, 16>)
    ensures
        msg_deque_items(d) == Seq::<Message>::empty(),
{
    heapless::Deque::new()
}

/// `heapless::Deque::clear`: removes every element.
#[verifier::external_body]
pub(crate) fn msg_deque_clear(d: &mut heapless::Deque<Message, 16>)
    ensures
        msg_deque_items(*final(d)) == Seq::<Message>::empty(),
{
    d.clear()
}

/// `heapless::Deque::push_back`: appends at the back unless 16 items are
/// held, in which case the item is handed back and the deque is unchanged.
#[verifier::external_body]
pub(crate) fn msg_deque_push_back(d: &mut heapless::Deque<Message, 16>, item: Message) -> (r:
    Result<(), Message>)
    ensures
        msg_deque_items(*old(d)).len() < 16 ==> (r is Ok && msg_deque_items(*final(d))
            == msg_deque_items(*old(d)).push(item)),
        msg_deque_items(*old(d)).len() >= 16 ==> (r is Err && msg_deque_items(*final(d))
            == msg_deque_items(*old(d))),
{
    d.push_back(item)
}

/// `heapless::Deque::pop_front`: `None` on an empty deque, else removes and
/// returns the front item.
#[verifier::external_body]
pub(crate) fn msg_deque_pop_front(d: &mut heapless::Deque<Message, 16>) -> (r: Option<Message>)
    ensures
        msg_deque_items(*old(d)).len() == 0 ==> (r is None && msg_deque_items(*final(d))
            == msg_deque_items(*old(d))),
        msg_deque_items(*old(d)).len() > 0 ==> (r == Some(msg_deque_items(*old(d))[0])
            && msg_deque_items(*final(d)) == msg_deque_items(*old(d)).drop_first()),
{
    d.pop_front()
}

// ---------------------------------------------------------------------------
// Run queue: heapless::Deque<TaskId, 16>
// ---------------------------------------------------------------------------

/// The task ids held by a `heapless::Deque<TaskId, 16>`, front first.
pub uninterp spec fn task_deque_items(d: heapless::Deque<TaskId, 16>) -> Seq<TaskId>;

/// `heapless::Deque::new`: an empty deque.
#[verifier::external_body]
pub(crate) fn task_deque_new() -> (d: heapless::Deque<TaskId, 16>)
    ensures
        task_deque_items(d) == Seq::<TaskId>::empty(),
{
    heapless::Deque::new()
}

/// `heapless::Deque::clear`: removes every element.
#[verifier::external_body]
pub(crate) fn task_deque_clear(d: &mut heapless::Deque<TaskId, 16>)
    ensures
        task_deque_items(*final(d)) == Seq::<TaskId>::empty(),
{
    d.clear()
}

/// `heapless::Deque::push_back`: appends at the back unless 16 items are
/// held, in which case the deque is unchanged.
#[verifier::external_body]
pub(crate) fn task_deque_push_back(d: &mut heapless::Deque<TaskId, 16>, item: TaskId) -> (r:
    Result<(), TaskId>)
    ensures
        task_deque_items(*old(d)).len() < 16 ==> (r is Ok && task_deque_items(*final(d))
            == task_deque_items(*old(d)).push(item)),
        task_deque_items(*old(d)).len() >= 16 ==> (r is Err && task_deque_items(*final(d))
            == task_deque_items(*old(d))),
{
    d.push_back(item)
}

/// `heapless::Deque::pop_front`: `None` on an empty deque, else removes and
/// returns the front item.
#[verifier::external_body]
pub(crate) fn task_deque_pop_front(d: &mut heapless::Deque<TaskId, 16>) -> (r: Option<TaskId>)
    ensures
        task_deque_items(*old(d)).len() == 0 ==> (r is None && task_deque_items(*final(d))
            == task_deque_items(*old(d))),
        task_deque_items(*old(d)).len() > 0 ==> (r == Some(task_deque_items(*old(d))[0])
            && task_deque_items(*final(d)) == task_deque_items(*old(d)).drop_first()),
{
    d.pop_front()
}

// ---------------------------------------------------------------------------
// File-server keys: heapless::String<32>
// ---------------------------------------------------------------------------

/// The characters of a `heapless::String<32>`.
pub uninterp spec fn string32_chars(s: heapless::String<32>) -> Seq<char>;

/// `heapless::String::new`: an empty string.
#[verifier::external_body]
pub(crate) fn string32_new() -> (s: heapless::String<32>)
    ensures
        string32_chars(s) == Seq::<char>::empty(),
{
    heapless::String::new()
}

/// `heapless::String::push` onto an empty string: a single character (at
/// most four bytes) always fits in 32 bytes.  The contract covers only an
/// empty string; the byte length of a longer one is not modelled.
#[verifier::external_body]
pub(crate) fn string32_push(s: &mut heapless::String<32>, c: char) -> (r: Result<(), ()>)
    ensures
        string32_chars(*old(s)).len() == 0 ==> (r is Ok && string32_chars(*final(s)) == seq![c]),
{
    s.push(c)
}

// ---------------------------------------------------------------------------
// File-server key/value store: heapless::Vec<(heapless::String<32>, [u8; 256]), 16>
// ---------------------------------------------------------------------------

/// The entries held by the key/value store's vector, in order.
pub uninterp spec fn kv_vec_items(v: heapless::Vec<(heapless::String<32>, [u8; 256]), 16>) -> Seq<(heapless::String<32>, [u8; 256])>;

/// `heapless::Vec::new`: an empty vector.
#[verifier::external_body]
pub(crate) fn kv_vec_new() -> (v: heapless::Vec<(heapless::String<32>, [u8; 256]), 16>)
    ensures
        kv_vec_items(v) == Seq::<(heapless::String<32>, [u8; 256])>::empty(),
{
    heapless::Vec::new()
}

/// `heapless::Vec::push`: appends when `len < 16`, else leaves the vector unchanged.
#[verifier::external_body]
pub(crate) fn kv_vec_push(
    v: &mut heapless::Vec<(heapless::String<32>, [u8; 256]), 16>,
    item: (heapless::String<32>, [u8; 256]),
) -> (r: Result<(), (heapless::String<32>, [u8; 256])>)
    ensures
        kv_vec_items(*old(v)).len() < 16 ==> (r is Ok && kv_vec_items(*final(v)) == kv_vec_items(*old(v)).push(item)),
        kv_vec_items(*old(v)).len() >= 16 ==> (r is Err && kv_vec_items(*final(v)) == kv_vec_items(*old(v))),
{
    v.push(item)
}

} // verus!
