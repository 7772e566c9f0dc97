//! Audio server.
use vstd::prelude::*;

use crate::ipc::Message;

verus! {

/// Handle a request.  The audio server has no request kinds yet.
pub fn handle_message(msg: Message) {
}

} // verus!
