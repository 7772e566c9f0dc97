//! Network server.
use vstd::prelude::*;

use crate::ipc::Message;

verus! {

/// Handle a request.  Packets are not forwarded to the device yet.
pub fn handle_message(msg: Message) {
}

} // verus!
