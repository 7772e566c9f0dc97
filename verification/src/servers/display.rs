//! Display server: turns `Send` requests into compositor drawing.
use vstd::prelude::*;

use crate::gfx::{self, Compositor, DisplayCommand, DrawOp, command_of, command_ops, payload_char};
use crate::ipc::{Message, MessageType};

verus! {

/// The coordinates of a payload leave room for the drawing it requests.
pub open spec fn payload_fits(payload: [u64; 4]) -> bool {
    &&& payload[0] == 0 ==> payload[1] as usize + payload[3] as usize <= usize::MAX && payload[2] as usize
        + gfx::RECT_HEIGHT <= usize::MAX
    &&& payload[0] == 2 ==> payload[1] as usize + 16 <= usize::MAX && payload[2] as usize + 16 <= usize::MAX
}

/// Handle a request: a `Send` carrying a display command is drawn; `Call`
/// (no reply protocol yet), `Recv` and unknown commands draw nothing.
pub fn handle_message(comp: &Compositor, msg: Message) -> (r: Vec<DrawOp>)
    requires
        msg.ty == MessageType::Send ==> payload_fits(msg.payload),
    ensures
        msg.ty != MessageType::Send ==> r@ == Seq::<DrawOp>::empty(),
        msg.ty == MessageType::Send ==> exists|ch: char|
            #[trigger] payload_char(msg.payload[3], ch) && match command_of(msg.payload, ch) {
                Some(cmd) => match comp.framebuffer {
                    Some(info) => r@ == command_ops(info, cmd),
                    None => r@ == Seq::<DrawOp>::empty(),
                },
                None => r@ == Seq::<DrawOp>::empty(),
            },
{
    match msg.ty {
        MessageType::Send => {
            match DisplayCommand::from_payload(msg.payload) {
                Some(cmd) => gfx::dispatch(comp, cmd),
                None => Vec::new(),
            }
        },
        MessageType::Call => Vec::new(),
        MessageType::Recv => Vec::new(),
    }
}

} // verus!
