//! Syscall numbers and the capability-checked dispatcher.
use vstd::prelude::*;

use crate::caps::{self, CapTable, Capability, CapabilityClass, grant_outcome, holds, policy_permits};
use crate::ipc::{self, IpcQueue, Message, MessageType};
use crate::sched::TaskId;

verus! {

/// The syscalls the kernel serves.
#[derive(Clone, Copy, Debug, PartialEq, Eq, Structural)]
pub enum SyscallNumber {
    IpcSend,
    IpcRecv,
    CapGrant,
    SleepMs,
    LogWrite,
}

/// Returned when the caller lacks the capability a syscall needs.
pub const ERR_CAP_DENIED: u64 = 0xFFFF_FFFF_FFFF_FFFE;

/// The number of each syscall in the ABI.
pub open spec fn syscall_code(num: SyscallNumber) -> u64 {
    match num {
        SyscallNumber::IpcSend => 0,
        SyscallNumber::IpcRecv => 1,
        SyscallNumber::CapGrant => 2,
        SyscallNumber::SleepMs => 3,
        SyscallNumber::LogWrite => 4,
    }
}

/// The syscall with ABI number `code` (for `code <= 4`).
pub open spec fn syscall_of(code: u64) -> SyscallNumber {
    if code == 0 {
        SyscallNumber::IpcSend
    } else if code == 1 {
        SyscallNumber::IpcRecv
    } else if code == 2 {
        SyscallNumber::CapGrant
    } else if code == 3 {
        SyscallNumber::SleepMs
    } else {
        SyscallNumber::LogWrite
    }
}

/// The capability class the caller must hold for each syscall.
pub open spec fn required_class(num: SyscallNumber) -> CapabilityClass {
    match num {
        SyscallNumber::IpcSend => CapabilityClass::from_bits_spec(0b0100_0000),
        SyscallNumber::IpcRecv => CapabilityClass::from_bits_spec(0b0100_0000),
        SyscallNumber::CapGrant => CapabilityClass::from_bits_spec(0b0100_0000),
        SyscallNumber::SleepMs => CapabilityClass::from_bits_spec(0b0001_0000),
        SyscallNumber::LogWrite => CapabilityClass::from_bits_spec(0b0000_0100),
    }
}

/// The task on whose behalf a syscall with arguments `args` runs.
pub open spec fn caller_of(args: [u64; 4]) -> TaskId {
    TaskId(args[0] as u32)
}

/// `m` is the message an `IpcSend` with arguments `args` queues.
pub open spec fn is_send_message(m: Message, args: [u64; 4]) -> bool {
    &&& m.ty == MessageType::Send
    &&& m.src == args[0] as u32
    &&& m.dst == args[1] as u32
    &&& m.payload@ == seq![args[2], args[3], 0u64, 0u64]
}

/// What serving syscall `num` with arguments `args` does: tables `c0`,
/// `q0` become `c1`, `q1` and `r` is returned.
pub open spec fn dispatch_outcome<P: Fn(TaskId, Capability) -> bool>(
    c0: CapTable<P>,
    c1: CapTable<P>,
    q0: IpcQueue,
    q1: IpcQueue,
    num: SyscallNumber,
    args: [u64; 4],
    r: u64,
) -> bool {
    &&& !holds(c0.caps(), caller_of(args), required_class(num)) ==> {
        &&& r == ERR_CAP_DENIED
        &&& c1.caps() == c0.caps()
        &&& q1.messages() == q0.messages()
    }
    &&& holds(c0.caps(), caller_of(args), required_class(num)) ==> match num {
        SyscallNumber::IpcSend => {
            &&& c1.caps() == c0.caps()
            &&& q0.messages().len() < ipc::QUEUE_DEPTH ==> {
                &&& r == 1
                &&& q1.messages().len() == q0.messages().len() + 1
                &&& q1.messages().drop_last() == q0.messages()
                &&& is_send_message(q1.messages().last(), args)
            }
            &&& q0.messages().len() >= ipc::QUEUE_DEPTH ==> r == 0 && q1.messages()
                == q0.messages()
        },
        SyscallNumber::IpcRecv => {
            &&& c1.caps() == c0.caps()
            &&& q0.messages().len() == 0 ==> r == u64::MAX && q1.messages()
                == q0.messages()
            &&& q0.messages().len() > 0 ==> r == q0.messages()[0].src as u64
                && q1.messages() == q0.messages().drop_first()
        },
        SyscallNumber::CapGrant => {
            &&& q1.messages() == q0.messages()
            &&& (args[1] as u32) & !caps::CAPABILITY_ALL_BITS != 0 ==> r == 0 && c1.caps()
                == c0.caps()
            &&& (args[1] as u32) & !caps::CAPABILITY_ALL_BITS == 0 ==> {
                let cap = Capability {
                    owner: caller_of(args),
                    class: CapabilityClass::from_bits_spec(args[1] as u32),
                    object: args[2],
                };
                exists|allowed: bool|
                    #[trigger] policy_permits(c0.policy(), caller_of(args), cap, allowed)
                        && r == (if allowed && c0.caps().len() < caps::MAX_CAPS { 1u64 } else { 0u64 })
                        && c1.caps() == grant_outcome(c0.caps(), cap, allowed)
            }
        },
        SyscallNumber::SleepMs => {
            &&& r == 0
            &&& c1.caps() == c0.caps()
            &&& q1.messages() == q0.messages()
        },
        SyscallNumber::LogWrite => {
            &&& r == 0
            &&& c1.caps() == c0.caps()
            &&& q1.messages() == q0.messages()
        },
    }
}

impl SyscallNumber {
    /// The syscall with ABI number `value`, if any.
    pub fn from_u64(value: u64) -> (r: Option<SyscallNumber>)
        ensures
            value <= 4 ==> r == Some(syscall_of(value)),
            value > 4 ==> r is None,
    {
        match value {
            0 => Some(SyscallNumber::IpcSend),
            1 => Some(SyscallNumber::IpcRecv),
            2 => Some(SyscallNumber::CapGrant),
            3 => Some(SyscallNumber::SleepMs),
            4 => Some(SyscallNumber::LogWrite),
            _ => None,
        }
    }
}

/// `Ok` when `task` holds a capability covering `class`, else the denial code.
pub fn require_cap<P: Fn(TaskId, Capability) -> bool>(caps: &CapTable<P>, task: TaskId, class: CapabilityClass) -> (r: Result<(), u64>)
    requires
        caps.wf(),
    ensures
        holds(caps.caps(), task, class) ==> r is Ok,
        !holds(caps.caps(), task, class) ==> r == Err::<(), u64>(ERR_CAP_DENIED),
{
    if caps::has(caps, task, class) {
        Ok(())
    } else {
        Err(ERR_CAP_DENIED)
    }
}

/// Grant `task` a capability of the class with bits `class_bits` over
/// `object`; `false` without change when the bits name an undefined class.
pub fn grant_cap<P: Fn(TaskId, Capability) -> bool>(caps: &mut CapTable<P>, task: TaskId, class_bits: u32, object: u64) -> (r: bool)
    requires
        old(caps).wf(),
    ensures
        final(caps).wf(),
        final(caps).policy() == old(caps).policy(),
        class_bits & !caps::CAPABILITY_ALL_BITS != 0 ==> !r && final(caps).caps() == old(caps).caps(),
        class_bits & !caps::CAPABILITY_ALL_BITS == 0 ==> {
            let cap = Capability { owner: task, class: CapabilityClass::from_bits_spec(class_bits), object };
            exists|allowed: bool|
                #[trigger] policy_permits(old(caps).policy(), task, cap, allowed)
                    && r == (allowed && old(caps).caps().len() < caps::MAX_CAPS)
                    && final(caps).caps() == grant_outcome(old(caps).caps(), cap, allowed)
        },
{
    let class = match CapabilityClass::from_bits(class_bits) {
        Some(class) => class,
        None => return false,
    };
    let capability = Capability { owner: task, class, object };
    caps::grant(caps, capability)
}

/// Serve syscall `num` with arguments `args`; `args[0]` (truncated to 32
/// bits) names the calling task.  A caller without the syscall's
/// capability gets `ERR_CAP_DENIED` and nothing changes.  Otherwise:
/// `IpcSend` queues a message to `args[1]` carrying `args[2]`, `args[3]` and
/// returns 1, or 0 when the queue is full; `IpcRecv` returns the sender of
/// the oldest message, or `u64::MAX` when none is pending; `CapGrant`
/// returns whether the grant of class bits `args[1]` over object `args[2]`
/// succeeded; `SleepMs` and `LogWrite` return 0.  The wait that a served
/// `SleepMs` owes is announced by `sleep_request` and timed by
/// `hpet::sleep_ms`.
pub fn dispatch<P: Fn(TaskId, Capability) -> bool>(
    caps: &mut CapTable<P>,
    queue: &mut IpcQueue,
    num: SyscallNumber,
    args: [u64; 4],
) -> (r: u64)
    requires
        old(caps).wf(),
        old(queue).wf(),
    ensures
        final(caps).wf(),
        final(queue).wf(),
        final(caps).policy() == old(caps).policy(),
        dispatch_outcome(*old(caps), *final(caps), *old(queue), *final(queue), num, args, r),
{
    let caller = TaskId(args[0] as u32);
    match num {
        SyscallNumber::IpcSend => {
            if let Err(code) = require_cap(caps, caller, CapabilityClass::MM()) {
                return code;
            }
            let msg = Message {
                ty: MessageType::Send,
                src: caller.0,
                dst: args[1] as u32,
                payload: [args[2], args[3], 0, 0],
            };
            let sent = ipc::send(queue, msg);
            proof {
                assert(msg.payload@ =~= seq![args[2], args[3], 0u64, 0u64]);
                if sent {
                    assert(queue.messages().drop_last() =~= old(queue).messages());
                    assert(queue.messages().last() == msg);
                }
            }
            if sent { 1 } else { 0 }
        },
        SyscallNumber::IpcRecv => {
            if let Err(code) = require_cap(caps, caller, CapabilityClass::MM()) {
                return code;
            }
            match ipc::recv(queue) {
                Some(m) => m.src as u64,
                None => u64::MAX,
            }
        },
        SyscallNumber::CapGrant => {
            if let Err(code) = require_cap(caps, caller, CapabilityClass::MM()) {
                return code;
            }
            if grant_cap(caps, caller, args[1] as u32, args[2]) { 1 } else { 0 }
        },
        SyscallNumber::SleepMs => {
            if let Err(code) = require_cap(caps, caller, CapabilityClass::TIME()) {
                return code;
            }
            0
        },
        SyscallNumber::LogWrite => {
            if let Err(code) = require_cap(caps, caller, CapabilityClass::GPU()) {
                return code;
            }
            0
        },
    }
}

/// Entry from the syscall trampoline: `number` selects the syscall and
/// `arg0..arg3` are its arguments (`arg4`, `arg5` are unused).  An unknown
/// number yields `u64::MAX` and changes nothing.
pub fn handle_syscall<P: Fn(TaskId, Capability) -> bool>(
    caps: &mut CapTable<P>,
    queue: &mut IpcQueue,
    number: u64,
    arg0: u64,
    arg1: u64,
    arg2: u64,
    arg3: u64,
    arg4: u64,
    arg5: u64,
) -> (r: u64)
    requires
        old(caps).wf(),
        old(queue).wf(),
    ensures
        final(caps).wf(),
        final(queue).wf(),
        final(caps).policy() == old(caps).policy(),
        number > 4 ==> r == u64::MAX && final(caps).caps() == old(caps).caps() && final(queue).messages()
            == old(queue).messages(),
        number <= 4 ==> dispatch_outcome(
            *old(caps),
            *final(caps),
            *old(queue),
            *final(queue),
            syscall_of(number),
            [arg0, arg1, arg2, arg3],
            r,
        ),
{
    let num = match SyscallNumber::from_u64(number) {
        Some(num) => num,
        None => return u64::MAX,
    };
    let args = [arg0, arg1, arg2, arg3];
    let r = dispatch(caps, queue, num, args);
    r
}

/// The busy wait owed after serving syscall `number` with first argument
/// after the caller `arg1` and result `result`: `arg1` milliseconds for a
/// served `SleepMs` (result 0), none otherwise.
pub fn sleep_request(number: u64, arg1: u64, result: u64) -> (r: Option<u64>)
    ensures
        r == (if number == syscall_code(SyscallNumber::SleepMs) && result == 0 { Some(arg1) } else { None::<u64> }),
{
    if number == 3 && result == 0 {
        Some(arg1)
    } else {
        None
    }
}

/// A caller sleeps exactly when it holds the TIME capability: a `SleepMs`
/// returns 0 (and so asks for the wait) if and only if the caller holds it.
pub proof fn lemma_sleep_needs_time_cap<P: Fn(TaskId, Capability) -> bool>(
    c0: CapTable<P>,
    c1: CapTable<P>,
    q0: IpcQueue,
    q1: IpcQueue,
    args: [u64; 4],
    r: u64,
)
    requires
        dispatch_outcome(c0, c1, q0, q1, SyscallNumber::SleepMs, args, r),
    ensures
        (r == 0) == holds(c0.caps(), caller_of(args), CapabilityClass::from_bits_spec(0b0001_0000)),
{
}

/// A syscall is refused exactly when the caller lacks the capability the
/// syscall needs: MM for `IpcSend`, `IpcRecv` and `CapGrant`, TIME for
/// `SleepMs`, GPU for `LogWrite`.  A refusal is the only way to get
/// `ERR_CAP_DENIED`.
pub proof fn lemma_refused_exactly_without_capability<P: Fn(TaskId, Capability) -> bool>(
    c0: CapTable<P>,
    c1: CapTable<P>,
    q0: IpcQueue,
    q1: IpcQueue,
    num: SyscallNumber,
    args: [u64; 4],
    r: u64,
)
    requires
        dispatch_outcome(c0, c1, q0, q1, num, args, r),
    ensures
        (num == SyscallNumber::IpcSend || num == SyscallNumber::IpcRecv || num == SyscallNumber::CapGrant) ==> ((r
            == ERR_CAP_DENIED) == !holds(c0.caps(), caller_of(args), CapabilityClass::from_bits_spec(0b0100_0000))),
        num == SyscallNumber::SleepMs ==> ((r == ERR_CAP_DENIED) == !holds(
            c0.caps(),
            caller_of(args),
            CapabilityClass::from_bits_spec(0b0001_0000),
        )),
        num == SyscallNumber::LogWrite ==> ((r == ERR_CAP_DENIED) == !holds(
            c0.caps(),
            caller_of(args),
            CapabilityClass::from_bits_spec(0b0000_0100),
        )),
{
}

/// A `LogWrite` is served (returns 0) exactly when the caller holds a
/// capability covering GPU.
pub proof fn lemma_log_write_needs_gpu_cap<P: Fn(TaskId, Capability) -> bool>(
    c0: CapTable<P>,
    c1: CapTable<P>,
    q0: IpcQueue,
    q1: IpcQueue,
    args: [u64; 4],
    r: u64,
)
    requires
        dispatch_outcome(c0, c1, q0, q1, SyscallNumber::LogWrite, args, r),
    ensures
        (r == 0) == holds(c0.caps(), caller_of(args), CapabilityClass::from_bits_spec(0b0000_0100)),
{
}

/// The ABI numbers 0 to 4 name the five syscalls, each its own: decoding a
/// number and encoding the syscall gives the number back, and two
/// different syscalls never share a number.
pub proof fn lemma_syscall_numbers(code: u64, a: SyscallNumber, b: SyscallNumber)
    ensures
        code <= 4 ==> syscall_code(syscall_of(code)) == code,
        syscall_code(a) <= 4,
        syscall_of(syscall_code(a)) == a,
        a != b ==> syscall_code(a) != syscall_code(b),
        syscall_code(SyscallNumber::IpcSend) == 0,
        syscall_code(SyscallNumber::IpcRecv) == 1,
        syscall_code(SyscallNumber::CapGrant) == 2,
        syscall_code(SyscallNumber::SleepMs) == 3,
        syscall_code(SyscallNumber::LogWrite) == 4,
{
}

} // verus!
