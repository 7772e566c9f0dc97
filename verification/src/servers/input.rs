//! Input server: forwards keyboard scancodes to the display server.
use vstd::prelude::*;

use crate::ipc::{self, IpcQueue, Message, MessageType};

verus! {

/// Task id of the input server.
pub const INPUT_TASK: u32 = 2;
/// Task id of the display server.
pub const DISPLAY_TASK: u32 = 1;

/// Send `scancode` from the input server (task 2) to the display server
/// (task 1) as the first payload word; a full queue drops it.
pub fn dispatch_key(queue: &mut IpcQueue, scancode: u8)
    requires
        old(queue).wf(),
    ensures
        final(queue).wf(),
        old(queue).messages().len() < ipc::QUEUE_DEPTH ==> {
            let m = final(queue).messages().last();
            &&& final(queue).messages().len() == old(queue).messages().len() + 1
            &&& final(queue).messages().drop_last() == old(queue).messages()
            &&& m.ty == MessageType::Send
            &&& m.src == INPUT_TASK
            &&& m.dst == DISPLAY_TASK
            &&& m.payload@ == seq![scancode as u64, 0u64, 0u64, 0u64]
        },
        old(queue).messages().len() >= ipc::QUEUE_DEPTH ==> final(queue).messages() == old(queue).messages(),
{
    let message = Message {
        ty: MessageType::Send,
        src: INPUT_TASK,
        dst: DISPLAY_TASK,
        payload: [scancode as u64, 0, 0, 0],
    };
    let sent = ipc::send(queue, message);
    proof {
        assert(message.payload@ =~= seq![scancode as u64, 0u64, 0u64, 0u64]);
        if sent {
            assert(queue.messages().drop_last() =~= old(queue).messages());
        }
    }
}

} // verus!
