//! Round-robin run queue for a single core.
use vstd::prelude::*;

use crate::bounded::{task_deque_clear, task_deque_items, task_deque_new, task_deque_pop_front, task_deque_push_back};

verus! {

/// Identifier of a kernel task.
#[derive(Clone, Copy, Debug, PartialEq, Eq, Structural)]
pub struct TaskId(pub u32);

/// Number of tasks the run queue can hold.
pub const MAX_TASKS: usize = 16;

/// Ready tasks, next to run at the front.
#[derive(Debug)]
pub struct RunQueue {
    queue: heapless::Deque<TaskId, 16>,
}

impl RunQueue {
    /// The queued tasks, front first.
    pub closed spec fn tasks(&self) -> Seq<TaskId> {
        task_deque_items(self.queue)
    }

    pub closed spec fn wf(&self) -> bool {
        task_deque_items(self.queue).len() <= MAX_TASKS
    }

    /// An empty run queue.
    pub fn new() -> (q: Self)
        ensures
            q.wf(),
            q.tasks() == Seq::<TaskId>::empty(),
    {
        RunQueue { queue: task_deque_new() }
    }
}

/// Reset the run queue to hold only the idle task, `TaskId(0)`.
pub fn init(rq: &mut RunQueue)
    requires
        old(rq).wf(),
    ensures
        final(rq).wf(),
        final(rq).tasks() == seq![TaskId(0)],
{
    task_deque_clear(&mut rq.queue);
    let _ = task_deque_push_back(&mut rq.queue, TaskId(0));
}

/// Append `task` at the back; a full queue drops it.
pub fn enqueue(rq: &mut RunQueue, task: TaskId)
    requires
        old(rq).wf(),
    ensures
        final(rq).wf(),
        old(rq).tasks().len() < MAX_TASKS ==> final(rq).tasks() == old(rq).tasks().push(task),
        old(rq).tasks().len() >= MAX_TASKS ==> final(rq).tasks() == old(rq).tasks(),
{
    let _ = task_deque_push_back(&mut rq.queue, task);
}

/// The queue after one round-robin step: the front task moves to the back.
pub open spec fn rotated(tasks: Seq<TaskId>) -> Seq<TaskId> {
    if tasks.len() == 0 {
        tasks
    } else {
        tasks.drop_first().push(tasks[0])
    }
}

/// One scheduling step: the task at the front goes to the back.
pub fn tick(rq: &mut RunQueue)
    requires
        old(rq).wf(),
    ensures
        final(rq).wf(),
        final(rq).tasks() == rotated(old(rq).tasks()),
{
    if let Some(task) = task_deque_pop_front(&mut rq.queue) {
        let _ = task_deque_push_back(&mut rq.queue, task);
    }
}

/// The queue after `n` scheduling steps.
pub open spec fn rotated_times(tasks: Seq<TaskId>, n: nat) -> Seq<TaskId>
    decreases n,
{
    if n == 0 {
        tasks
    } else {
        rotated(rotated_times(tasks, (n - 1) as nat))
    }
}

/// After `k` steps (at most one per queued task) the queue is the original
/// one with its first `k` tasks moved, in order, to the back.
pub proof fn lemma_rotated_times(tasks: Seq<TaskId>, k: nat)
    requires
        k <= tasks.len(),
    ensures
        rotated_times(tasks, k) == tasks.subrange(k as int, tasks.len() as int) + tasks.subrange(0, k as int),
    decreases k,
{
    if k == 0 {
        assert(tasks.subrange(0, tasks.len() as int) + tasks.subrange(0, 0) =~= tasks);
    } else {
        let j = (k - 1) as nat;
        lemma_rotated_times(tasks, j);
        let prev = tasks.subrange(j as int, tasks.len() as int) + tasks.subrange(0, j as int);
        assert(prev[0] == tasks[j as int]);
        assert(prev.drop_first().push(prev[0]) =~= tasks.subrange(k as int, tasks.len() as int) + tasks.subrange(
            0,
            k as int,
        ));
    }
}

/// Round robin is fair: every queued task reaches the front within one
/// round, the `i`-th after `i` steps, and after as many steps as there are
/// tasks the queue is back in its original order.
pub proof fn lemma_round_robin(tasks: Seq<TaskId>, i: nat)
    requires
        i < tasks.len(),
    ensures
        rotated_times(tasks, i)[0] == tasks[i as int],
        rotated_times(tasks, tasks.len()) == tasks,
{
    lemma_rotated_times(tasks, i);
    lemma_rotated_times(tasks, tasks.len());
    assert(tasks.subrange(tasks.len() as int, tasks.len() as int) + tasks.subrange(0, tasks.len() as int) =~= tasks);
}

/// A scheduling step neither adds nor drops a task.
pub proof fn lemma_tick_keeps_tasks(tasks: Seq<TaskId>)
    ensures
        rotated(tasks).to_multiset() == tasks.to_multiset(),
        rotated(tasks).len() == tasks.len(),
{
    if tasks.len() > 0 {
        let rest = tasks.drop_first();
        assert(tasks =~= seq![tasks[0]] + rest);
        vstd::seq_lib::lemma_multiset_commutative(seq![tasks[0]], rest);
        vstd::seq_lib::lemma_multiset_commutative(rest, seq![tasks[0]]);
        assert(rest.push(tasks[0]) =~= rest + seq![tasks[0]]);
    }
}

} // verus!
