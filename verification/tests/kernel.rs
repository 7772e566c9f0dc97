use aegis_mk::caps::{self, CapTable, Capability, CapabilityClass};
use aegis_mk::ipc::{self, IpcQueue, Message, MessageType, QUEUE_DEPTH};
use aegis_mk::sched::{self, RunQueue, TaskId};
use aegis_mk::syscalls::{dispatch, grant_cap, handle_syscall, require_cap, sleep_request, SyscallNumber, ERR_CAP_DENIED};
use aegis_mk::task::{activate, profile, register, revoke_all, suspend, TaskRegistry, TaskState};

type Policy = fn(TaskId, Capability) -> bool;

fn allow_all(_: TaskId, _: Capability) -> bool {
    true
}

fn deny_all(_: TaskId, _: Capability) -> bool {
    false
}

fn deny_net(_: TaskId, cap: Capability) -> bool {
    !cap.class.contains(CapabilityClass::NET())
}

fn table_with(policy: Policy) -> CapTable<Policy> {
    let mut table: CapTable<Policy> = CapTable::new();
    caps::init(&mut table);
    caps::register_policy(&mut table, policy);
    table
}

fn message(src: u32, word: u64) -> Message {
    Message { ty: MessageType::Send, src, dst: 9, payload: [word, 0, 0, 0] }
}

#[test]
fn ipc_send_requires_capability() {
    let mut table = table_with(allow_all);
    let mut queue = IpcQueue::new();
    ipc::bootstrap(&mut queue);
    let denied = dispatch(&mut table, &mut queue, SyscallNumber::IpcSend, [1, 2, 0, 0]);
    assert_eq!(denied, ERR_CAP_DENIED);
    let _ = caps::grant(&mut table, Capability { owner: TaskId(1), class: CapabilityClass::MM(), object: 0 });
    let allowed = dispatch(&mut table, &mut queue, SyscallNumber::IpcSend, [1, 2, 0, 0]);
    assert_eq!(allowed, 1);
}

#[test]
fn register_and_lookup_profile() {
    let mut table = table_with(allow_all);
    let mut tasks = TaskRegistry::new();
    assert!(register(&mut tasks, &mut table, TaskId(10), b"display", CapabilityClass::GPU() | CapabilityClass::INPUT()));
    activate(&mut tasks, TaskId(10));
    let profile = profile(&tasks, TaskId(10)).expect("profile");
    assert_eq!(profile.state, TaskState::Active);
    assert!(profile.allowed.contains(CapabilityClass::GPU()));
}

#[test]
fn suspend_revokes_capabilities() {
    let mut table = table_with(allow_all);
    let mut tasks = TaskRegistry::new();
    assert!(register(&mut tasks, &mut table, TaskId(20), b"net", CapabilityClass::NET() | CapabilityClass::MM()));
    activate(&mut tasks, TaskId(20));
    assert!(caps::has(&table, TaskId(20), CapabilityClass::NET()));
    suspend(&mut tasks, &mut table, TaskId(20));
    assert!(!caps::has(&table, TaskId(20), CapabilityClass::NET()));
    assert_eq!(profile(&tasks, TaskId(20)).unwrap().state, TaskState::Suspended);
}

#[test]
fn capability_class_bits() {
    assert_eq!(CapabilityClass::FILE().bits(), 0b0000_0001);
    assert_eq!(CapabilityClass::NET().bits(), 0b0000_0010);
    assert_eq!(CapabilityClass::GPU().bits(), 0b0000_0100);
    assert_eq!(CapabilityClass::INPUT().bits(), 0b0000_1000);
    assert_eq!(CapabilityClass::TIME().bits(), 0b0001_0000);
    assert_eq!(CapabilityClass::IRQ().bits(), 0b0010_0000);
    assert_eq!(CapabilityClass::MM().bits(), 0b0100_0000);
    assert_eq!(CapabilityClass::all().bits(), 0b0111_1111);
    assert_eq!(CapabilityClass::empty().bits(), 0);
    assert_eq!(CapabilityClass::GPU().union(CapabilityClass::MM()).bits(), 0b0100_0100);
    assert_eq!((CapabilityClass::GPU() | CapabilityClass::INPUT()).bits(), 0b0000_1100);
    assert!(CapabilityClass::all().contains(CapabilityClass::IRQ()));
    assert!(!CapabilityClass::GPU().contains(CapabilityClass::GPU() | CapabilityClass::NET()));
    assert_eq!(CapabilityClass::from_bits(0b0111_1111), Some(CapabilityClass::all()));
    assert_eq!(CapabilityClass::from_bits(0b1000_0000), None);
}

#[test]
fn grant_then_has_and_revoke_keeps_others() {
    let mut table = table_with(allow_all);
    assert!(caps::grant(&mut table, Capability { owner: TaskId(1), class: CapabilityClass::all(), object: 7 }));
    assert!(caps::grant(&mut table, Capability { owner: TaskId(2), class: CapabilityClass::GPU(), object: 0 }));
    assert!(caps::has(&table, TaskId(1), CapabilityClass::TIME()));
    assert!(caps::has(&table, TaskId(2), CapabilityClass::GPU()));
    assert!(!caps::has(&table, TaskId(2), CapabilityClass::TIME()));
    caps::revoke(&mut table, TaskId(1), Some(CapabilityClass::TIME()));
    assert!(!caps::has(&table, TaskId(1), CapabilityClass::TIME()));
    assert!(caps::has(&table, TaskId(2), CapabilityClass::GPU()));
    caps::revoke(&mut table, TaskId(2), None);
    assert!(!caps::has(&table, TaskId(2), CapabilityClass::GPU()));
}

#[test]
fn revoke_of_one_class_keeps_other_classes() {
    let mut table = table_with(allow_all);
    assert!(caps::grant(&mut table, Capability { owner: TaskId(3), class: CapabilityClass::GPU(), object: 0 }));
    assert!(caps::grant(&mut table, Capability { owner: TaskId(3), class: CapabilityClass::FILE(), object: 0 }));
    caps::revoke(&mut table, TaskId(3), Some(CapabilityClass::GPU()));
    assert!(!caps::has(&table, TaskId(3), CapabilityClass::GPU()));
    assert!(caps::has(&table, TaskId(3), CapabilityClass::FILE()));
}

#[test]
fn policy_refuses_grant() {
    let mut table = table_with(deny_net);
    assert!(!caps::grant(&mut table, Capability { owner: TaskId(4), class: CapabilityClass::NET(), object: 0 }));
    assert!(!caps::has(&table, TaskId(4), CapabilityClass::NET()));
    assert!(caps::grant(&mut table, Capability { owner: TaskId(4), class: CapabilityClass::GPU(), object: 0 }));
    assert!(!caps::policy_allows(&table, TaskId(4), Capability { owner: TaskId(4), class: CapabilityClass::NET(), object: 0 }));
    let open: CapTable<Policy> = CapTable::new();
    assert!(caps::policy_allows(&open, TaskId(4), Capability { owner: TaskId(4), class: CapabilityClass::NET(), object: 0 }));
}

#[test]
fn table_holds_at_most_thirty_two() {
    let mut table = table_with(allow_all);
    for i in 0..32u64 {
        assert!(caps::grant(&mut table, Capability { owner: TaskId(1), class: CapabilityClass::FILE(), object: i }));
    }
    assert!(!caps::grant(&mut table, Capability { owner: TaskId(2), class: CapabilityClass::GPU(), object: 0 }));
    assert!(!caps::has(&table, TaskId(2), CapabilityClass::GPU()));
    caps::init(&mut table);
    assert!(!caps::has(&table, TaskId(1), CapabilityClass::FILE()));
    assert!(caps::grant(&mut table, Capability { owner: TaskId(2), class: CapabilityClass::GPU(), object: 0 }));
}

#[test]
fn keeps_capability_decides_revocation() {
    let cap = Capability { owner: TaskId(5), class: CapabilityClass::GPU() | CapabilityClass::FILE(), object: 0 };
    assert!(caps::keeps_capability(&cap, TaskId(6), None));
    assert!(!caps::keeps_capability(&cap, TaskId(5), None));
    assert!(!caps::keeps_capability(&cap, TaskId(5), Some(CapabilityClass::GPU())));
    assert!(caps::keeps_capability(&cap, TaskId(5), Some(CapabilityClass::NET())));
}

#[test]
fn ipc_queue_is_first_in_first_out() {
    let mut queue = IpcQueue::new();
    assert!(ipc::recv(&mut queue).is_none());
    assert!(ipc::send(&mut queue, message(1, 10)));
    assert!(ipc::send(&mut queue, message(2, 20)));
    assert!(ipc::send(&mut queue, message(3, 30)));
    let first = ipc::recv(&mut queue).unwrap();
    assert_eq!((first.src, first.payload[0]), (1, 10));
    assert!(ipc::send(&mut queue, message(4, 40)));
    let order: Vec<u32> = (0..3).map(|_| ipc::recv(&mut queue).unwrap().src).collect();
    assert_eq!(order, vec![2, 3, 4]);
    assert!(ipc::recv(&mut queue).is_none());
}

#[test]
fn ipc_queue_refuses_when_full() {
    let mut queue = IpcQueue::new();
    for i in 0..QUEUE_DEPTH as u32 {
        assert!(ipc::send(&mut queue, message(i, 0)));
    }
    assert!(!ipc::send(&mut queue, message(99, 0)));
    for i in 0..QUEUE_DEPTH as u32 {
        assert_eq!(ipc::recv(&mut queue).unwrap().src, i);
    }
    assert!(ipc::recv(&mut queue).is_none());
    assert!(ipc::send(&mut queue, message(7, 0)));
    ipc::bootstrap(&mut queue);
    assert!(ipc::recv(&mut queue).is_none());
}

fn queued(rq: &RunQueue) -> String {
    format!("{:?}", rq)
}

#[test]
fn run_queue_rotates_round_robin() {
    let mut rq = RunQueue::new();
    sched::init(&mut rq);
    sched::enqueue(&mut rq, TaskId(1));
    sched::enqueue(&mut rq, TaskId(2));
    assert_eq!(queued(&rq), "RunQueue { queue: [TaskId(0), TaskId(1), TaskId(2)] }");
    sched::tick(&mut rq);
    assert_eq!(queued(&rq), "RunQueue { queue: [TaskId(1), TaskId(2), TaskId(0)] }");
    sched::tick(&mut rq);
    assert_eq!(queued(&rq), "RunQueue { queue: [TaskId(2), TaskId(0), TaskId(1)] }");
    sched::tick(&mut rq);
    assert_eq!(queued(&rq), "RunQueue { queue: [TaskId(0), TaskId(1), TaskId(2)] }");
}

#[test]
fn run_queue_edge_cases() {
    let mut rq = RunQueue::new();
    sched::tick(&mut rq);
    assert_eq!(queued(&rq), "RunQueue { queue: [] }");
    for i in 0..16u32 {
        sched::enqueue(&mut rq, TaskId(i));
    }
    sched::enqueue(&mut rq, TaskId(99));
    assert!(!queued(&rq).contains("TaskId(99)"));
    sched::tick(&mut rq);
    assert!(queued(&rq).ends_with("TaskId(15), TaskId(0)] }"));
    sched::init(&mut rq);
    assert_eq!(queued(&rq), "RunQueue { queue: [TaskId(0)] }");
}

#[test]
fn register_refuses_duplicates_and_overflow() {
    let mut table = table_with(allow_all);
    let mut tasks = TaskRegistry::new();
    assert!(register(&mut tasks, &mut table, TaskId(1), b"a", CapabilityClass::FILE()));
    assert!(!register(&mut tasks, &mut table, TaskId(1), b"b", CapabilityClass::GPU()));
    assert!(!caps::has(&table, TaskId(1), CapabilityClass::GPU()));
    for i in 2..=32u32 {
        assert!(register(&mut tasks, &mut table, TaskId(i), b"t", CapabilityClass::empty()));
    }
    assert!(!register(&mut tasks, &mut table, TaskId(33), b"t", CapabilityClass::empty()));
    assert!(profile(&tasks, TaskId(33)).is_none());
}

#[test]
fn register_keeps_name_and_profile() {
    let mut table = table_with(deny_net);
    let mut tasks = TaskRegistry::new();
    let allowed = CapabilityClass::NET() | CapabilityClass::GPU();
    assert!(register(&mut tasks, &mut table, TaskId(8), b"a-very-long-task-name", allowed));
    let p = profile(&tasks, TaskId(8)).unwrap();
    assert_eq!(&p.name, b"a-very-long-task");
    assert_eq!(p.allowed, allowed);
    assert_eq!(p.state, TaskState::Registered);
    assert!(caps::has(&table, TaskId(8), CapabilityClass::GPU()));
    assert!(!caps::has(&table, TaskId(8), CapabilityClass::NET()));
    assert!(register(&mut tasks, &mut table, TaskId(9), b"fs", CapabilityClass::FILE()));
    assert_eq!(&profile(&tasks, TaskId(9)).unwrap().name, b"fs\0\0\0\0\0\0\0\0\0\0\0\0\0\0");
}

#[test]
fn unknown_task_is_left_alone() {
    let mut table = table_with(allow_all);
    let mut tasks = TaskRegistry::new();
    assert!(!activate(&mut tasks, TaskId(3)));
    assert!(!suspend(&mut tasks, &mut table, TaskId(3)));
    revoke_all(&mut tasks, TaskId(3));
    assert!(profile(&tasks, TaskId(3)).is_none());
}

#[test]
fn revoke_all_empties_profile_only() {
    let mut table = table_with(allow_all);
    let mut tasks = TaskRegistry::new();
    assert!(register(&mut tasks, &mut table, TaskId(4), b"x", CapabilityClass::TIME()));
    revoke_all(&mut tasks, TaskId(4));
    let p = profile(&tasks, TaskId(4)).unwrap();
    assert_eq!(p.state, TaskState::Suspended);
    assert_eq!(p.allowed, CapabilityClass::empty());
    assert!(caps::has(&table, TaskId(4), CapabilityClass::TIME()));
}

#[test]
fn suspend_keeps_other_tasks_rights() {
    let mut table = table_with(allow_all);
    let mut tasks = TaskRegistry::new();
    assert!(register(&mut tasks, &mut table, TaskId(1), b"a", CapabilityClass::GPU()));
    assert!(register(&mut tasks, &mut table, TaskId(2), b"b", CapabilityClass::GPU()));
    assert!(suspend(&mut tasks, &mut table, TaskId(1)));
    assert!(!caps::has(&table, TaskId(1), CapabilityClass::GPU()));
    assert!(caps::has(&table, TaskId(2), CapabilityClass::GPU()));
    assert_eq!(profile(&tasks, TaskId(2)).unwrap().state, TaskState::Registered);
}

#[test]
fn syscall_numbers() {
    assert_eq!(SyscallNumber::from_u64(0), Some(SyscallNumber::IpcSend));
    assert_eq!(SyscallNumber::from_u64(1), Some(SyscallNumber::IpcRecv));
    assert_eq!(SyscallNumber::from_u64(2), Some(SyscallNumber::CapGrant));
    assert_eq!(SyscallNumber::from_u64(3), Some(SyscallNumber::SleepMs));
    assert_eq!(SyscallNumber::from_u64(4), Some(SyscallNumber::LogWrite));
    assert_eq!(SyscallNumber::from_u64(5), None);
}

#[test]
fn require_cap_reports_denial() {
    let mut table = table_with(allow_all);
    assert_eq!(require_cap(&table, TaskId(1), CapabilityClass::GPU()), Err(ERR_CAP_DENIED));
    assert!(grant_cap(&mut table, TaskId(1), 0b0000_0100, 3));
    assert_eq!(require_cap(&table, TaskId(1), CapabilityClass::GPU()), Ok(()));
    assert!(!grant_cap(&mut table, TaskId(1), 0b1000_0000, 3));
}

#[test]
fn dispatch_serves_each_syscall() {
    let mut table = table_with(allow_all);
    let mut queue = IpcQueue::new();
    assert_eq!(dispatch(&mut table, &mut queue, SyscallNumber::IpcRecv, [1, 0, 0, 0]), ERR_CAP_DENIED);
    assert_eq!(dispatch(&mut table, &mut queue, SyscallNumber::SleepMs, [1, 5, 0, 0]), ERR_CAP_DENIED);
    assert_eq!(dispatch(&mut table, &mut queue, SyscallNumber::LogWrite, [1, 5, 0, 0]), ERR_CAP_DENIED);
    assert_eq!(dispatch(&mut table, &mut queue, SyscallNumber::CapGrant, [1, 4, 0, 0]), ERR_CAP_DENIED);
    assert!(caps::grant(&mut table, Capability { owner: TaskId(1), class: CapabilityClass::all(), object: 0 }));
    assert_eq!(dispatch(&mut table, &mut queue, SyscallNumber::IpcRecv, [1, 0, 0, 0]), u64::MAX);
    assert_eq!(dispatch(&mut table, &mut queue, SyscallNumber::IpcSend, [1, 2, 30, 40]), 1);
    assert_eq!(dispatch(&mut table, &mut queue, SyscallNumber::IpcRecv, [1, 0, 0, 0]), 1);
    assert_eq!(dispatch(&mut table, &mut queue, SyscallNumber::SleepMs, [1, 5, 0, 0]), 0);
    assert_eq!(dispatch(&mut table, &mut queue, SyscallNumber::LogWrite, [1, 5, 0, 0]), 0);
    assert_eq!(dispatch(&mut table, &mut queue, SyscallNumber::CapGrant, [7, 4, 0, 0]), ERR_CAP_DENIED);
    assert_eq!(dispatch(&mut table, &mut queue, SyscallNumber::CapGrant, [1, 0x80, 0, 0]), 0);
    assert_eq!(dispatch(&mut table, &mut queue, SyscallNumber::CapGrant, [1, 4, 9, 0]), 1);
}

#[test]
fn dispatch_send_carries_arguments() {
    let mut table = table_with(allow_all);
    let mut queue = IpcQueue::new();
    assert!(caps::grant(&mut table, Capability { owner: TaskId(5), class: CapabilityClass::MM(), object: 0 }));
    assert_eq!(dispatch(&mut table, &mut queue, SyscallNumber::IpcSend, [5, 6, 70, 80]), 1);
    let m = ipc::recv(&mut queue).unwrap();
    assert_eq!(m.ty, MessageType::Send);
    assert_eq!((m.src, m.dst), (5, 6));
    assert_eq!(m.payload, [70, 80, 0, 0]);
}

#[test]
fn dispatch_grant_goes_through_policy() {
    let mut table = table_with(deny_all);
    let mut queue = IpcQueue::new();
    let mut open: CapTable<Policy> = CapTable::new();
    assert!(caps::grant(&mut open, Capability { owner: TaskId(1), class: CapabilityClass::MM(), object: 0 }));
    assert_eq!(dispatch(&mut open, &mut queue, SyscallNumber::CapGrant, [1, 4, 0, 0]), 1);
    assert_eq!(dispatch(&mut table, &mut queue, SyscallNumber::CapGrant, [1, 4, 0, 0]), ERR_CAP_DENIED);
}

#[test]
fn handle_syscall_decodes_number() {
    let mut table = table_with(allow_all);
    let mut queue = IpcQueue::new();
    assert_eq!(handle_syscall(&mut table, &mut queue, 9, 1, 0, 0, 0, 0, 0), u64::MAX);
    assert_eq!(handle_syscall(&mut table, &mut queue, 0, 1, 2, 0, 0, 0, 0), ERR_CAP_DENIED);
    assert!(caps::grant(&mut table, Capability { owner: TaskId(1), class: CapabilityClass::MM(), object: 0 }));
    assert_eq!(handle_syscall(&mut table, &mut queue, 0, 1, 2, 0, 0, 0, 0), 1);
    assert_eq!(handle_syscall(&mut table, &mut queue, 1, 1, 0, 0, 0, 0, 0), 1);
}

#[test]
fn served_sleep_asks_for_the_wait() {
    let mut table = table_with(allow_all);
    let mut queue = IpcQueue::new();
    let denied = handle_syscall(&mut table, &mut queue, 3, 1, 25, 0, 0, 0, 0);
    assert_eq!(sleep_request(3, 25, denied), None);
    assert!(caps::grant(&mut table, Capability { owner: TaskId(1), class: CapabilityClass::TIME(), object: 0 }));
    let served = handle_syscall(&mut table, &mut queue, 3, 1, 25, 0, 0, 0, 0);
    assert_eq!(sleep_request(3, 25, served), Some(25));
    assert_eq!(sleep_request(4, 25, 0), None);
}
