//! File server: block reads and a small key store.
use vstd::prelude::*;

use crate::bounded::{kv_vec_items, kv_vec_new, kv_vec_push, string32_chars, string32_new, string32_push};
use crate::drivers::nvme::{self, block_pattern};
use crate::ipc::Message;

verus! {

/// Number of keys the store holds.
pub const MAX_KV: usize = 16;
/// Size of a stored value and of a sector buffer.
pub const VALUE_BYTES: usize = 256;

/// Keys (up to 32 bytes) with their 256-byte values.
pub struct KvStore {
    entries: heapless::Vec<(heapless::String<32>, [u8; 256]), 16>,
}

impl KvStore {
    /// The keys, in insertion order.
    pub closed spec fn keys(&self) -> Seq<Seq<char>> {
        kv_vec_items(self.entries).map_values(|e: (heapless::String<32>, [u8; 256])| string32_chars(e.0))
    }

    /// The values, in insertion order.
    pub closed spec fn values(&self) -> Seq<Seq<u8>> {
        kv_vec_items(self.entries).map_values(|e: (heapless::String<32>, [u8; 256])| e.1@)
    }

    /// An empty store.
    pub fn new() -> (s: Self)
        ensures
            s.keys() == Seq::<Seq<char>>::empty(),
            s.values() == Seq::<Seq<u8>>::empty(),
    {
        let s = KvStore { entries: kv_vec_new() };
        assert(s.keys() =~= Seq::<Seq<char>>::empty());
        assert(s.values() =~= Seq::<Seq<u8>>::empty());
        s
    }
}

/// What the file server did with a request.
#[derive(Debug)]
pub enum FsOutcome {
    /// A block was read; the buffer is to be logged.
    SectorRead(Vec<u8>),
    /// A key was offered to the store; whether it was added.
    KeyStored(bool),
    /// The request kind is unknown.
    Ignored,
}

/// Handle a request: kind 0 reads block `payload[1]` into a 256-byte
/// buffer; kind 1 stores the one-character key `payload[1]` (as a byte)
/// with a zeroed value, unless the store is full; other kinds are ignored.
pub fn handle_message(store: &mut KvStore, msg: Message) -> (r: FsOutcome)
    ensures
        msg.payload[0] == 0 ==> (r matches FsOutcome::SectorRead(buf) && buf@ == block_pattern(256))
            && final(store).keys() == old(store).keys() && final(store).values() == old(store).values(),
        msg.payload[0] == 1 ==> {
            let stored = old(store).keys().len() < MAX_KV;
            &&& (r matches FsOutcome::KeyStored(b) && b == stored)
            &&& stored ==> final(store).keys() == old(store).keys().push(seq![(msg.payload[1] as u8) as char])
                && final(store).values() == old(store).values().push(Seq::new(256, |i: int| 0u8))
            &&& !stored ==> final(store).keys() == old(store).keys() && final(store).values() == old(store).values()
        },
        msg.payload[0] > 1 ==> (r is Ignored) && final(store).keys() == old(store).keys()
            && final(store).values() == old(store).values(),
{
    match msg.payload[0] {
        0 => {
            let lba = msg.payload[1];
            let mut buffer: Vec<u8> = vec![0u8; VALUE_BYTES];
            let _ = nvme::read_block(lba, buffer.as_mut_slice());
            FsOutcome::SectorRead(buffer)
        },
        1 => {
            let key_char = (msg.payload[1] as u8) as char;
            let mut key = string32_new();
            let _ = string32_push(&mut key, key_char);
            let value = [0u8; VALUE_BYTES];
            let ghost before = kv_vec_items(store.entries);
            let pushed = kv_vec_push(&mut store.entries, (key, value));
            proof {
                if pushed is Ok {
                    assert(store.keys() =~= old(store).keys().push(seq![key_char]));
                    assert(value@ =~= Seq::new(256, |i: int| 0u8));
                    assert(store.values() =~= old(store).values().push(Seq::new(256, |i: int| 0u8)));
                }
            }
            FsOutcome::KeyStored(pushed.is_ok())
        },
        _ => FsOutcome::Ignored,
    }
}

} // verus!
