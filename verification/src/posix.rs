//! POSIX-like syscall numbers and the user-side wrappers around them.
use vstd::prelude::*;
use vstd::bytes::{spec_u64_from_le_bytes, spec_u64_to_le_bytes, u64_from_le_bytes};
use vstd::string::StringSliceAdditionalSpecFns;

verus! {

pub const SYS_IPC_SEND: u16 = 0;
pub const SYS_IPC_RECV: u16 = 1;
pub const SYS_CAP_GRANT: u16 = 2;
pub const SYS_SLEEP_MS: u16 = 3;
pub const SYS_LOG_WRITE: u16 = 4;

/// Bytes carried by one `LogWrite` syscall.
pub const LOG_CHUNK_BYTES: usize = 8;

/// A syscall to issue: its number and four arguments.
pub type SyscallArgs = (u16, u64, u64, u64, u64);

/// Sleep for `ms` milliseconds: the `SleepMs` syscall to issue.
pub fn sleep_ms(ms: u64) -> (call: SyscallArgs)
    ensures
        call == (SYS_SLEEP_MS, ms, 0u64, 0u64, 0u64),
{
    (SYS_SLEEP_MS, ms, 0, 0, 0)
}

/// `c` padded with zero bytes to eight bytes.
pub open spec fn padded_chunk(c: Seq<u8>) -> Seq<u8> {
    c + Seq::new((8 - c.len()) as nat, |i: int| 0u8)
}

/// The `LogWrite` arguments for `b`: per chunk of eight bytes (the last one
/// possibly shorter), the chunk zero-padded and read little endian, and its
/// length.
pub open spec fn log_chunks(b: Seq<u8>) -> Seq<(u64, u64)>
    decreases b.len(),
{
    if b.len() == 0 {
        Seq::empty()
    } else if b.len() <= 8 {
        seq![(spec_u64_from_le_bytes(padded_chunk(b)), b.len() as u64)]
    } else {
        seq![(spec_u64_from_le_bytes(padded_chunk(b.take(8))), 8u64)] + log_chunks(b.skip(8))
    }
}

/// The bytes that the `LogWrite` arguments `chunks` carry: per pair, the
/// first `length` little-endian bytes of `value`.
pub open spec fn log_message(chunks: Seq<(u64, u64)>) -> Seq<u8>
    decreases chunks.len(),
{
    if chunks.len() == 0 {
        Seq::empty()
    } else {
        spec_u64_to_le_bytes(chunks[0].0).take(chunks[0].1 as int) + log_message(chunks.drop_first())
    }
}

/// The kernel reads back exactly the message that was written: the chunks
/// of `b` carry `b`, one chunk per started eight bytes, each of one to
/// eight bytes.
pub proof fn lemma_log_chunks_round_trip(b: Seq<u8>)
    ensures
        log_message(log_chunks(b)) == b,
        log_chunks(b).len() == (b.len() + 7) / 8,
        forall|i: int| 0 <= i < log_chunks(b).len() ==> 1 <= #[trigger] log_chunks(b)[i].1 <= 8,
    decreases b.len(),
{
    vstd::bytes::lemma_auto_spec_u64_to_from_le_bytes();
    if b.len() == 0 {
    } else if b.len() <= 8 {
        let p = padded_chunk(b);
        assert(spec_u64_to_le_bytes(spec_u64_from_le_bytes(p)) == p);
        assert(p.take(b.len() as int) =~= b);
        let c = log_chunks(b);
        assert(c[0] == (spec_u64_from_le_bytes(p), b.len() as u64));
        assert(c.drop_first() =~= Seq::<(u64, u64)>::empty());
        assert(log_message(c.drop_first()) == Seq::<u8>::empty());
        assert(log_message(c) == p.take(b.len() as int) + Seq::<u8>::empty());
        assert(log_message(c) =~= b);
    } else {
        let head = b.take(8);
        let rest = b.skip(8);
        lemma_log_chunks_round_trip(rest);
        let p = padded_chunk(head);
        assert(p =~= head);
        assert(spec_u64_to_le_bytes(spec_u64_from_le_bytes(p)) == p);
        let c = log_chunks(b);
        let first = (spec_u64_from_le_bytes(p), 8u64);
        assert(c == seq![first] + log_chunks(rest));
        assert(c.drop_first() =~= log_chunks(rest));
        assert(p.take(8) =~= head);
        assert(head + rest =~= b);
        assert forall|i: int| 0 <= i < c.len() implies 1 <= #[trigger] c[i].1 <= 8 by {
            if i > 0 {
                assert(c[i] == log_chunks(rest)[i - 1]);
            }
        }
    }
}

/// The (value, length) argument pairs that `log_write` sends for `message`.
pub fn log_write_chunks(message: &[u8]) -> (r: Vec<(u64, u64)>)
    ensures
        r@ == log_chunks(message@),
{
    let mut out: Vec<(u64, u64)> = Vec::new();
    let n = message.len();
    let mut p: usize = 0;
    assert(message@.skip(0) =~= message@);
    assert(out@ + log_chunks(message@) =~= log_chunks(message@));
    while p < n
        invariant
            0 <= p <= n,
            n == message@.len(),
            out@ + log_chunks(message@.skip(p as int)) == log_chunks(message@),
        decreases n - p,
    {
        let len = if n - p < 8 { n - p } else { 8 };
        let mut buf: Vec<u8> = Vec::new();
        let mut k: usize = 0;
        while k < 8
            invariant
                0 <= k <= 8,
                p + len <= n,
                n == message@.len(),
                len <= 8,
                len == n - p || len == 8,
                buf@.len() == k,
                forall|j: int| 0 <= j < k ==> #[trigger] buf@[j] == (if j < len { message@[p + j] } else { 0u8 }),
            decreases 8 - k,
        {
            if k < len {
                buf.push(message[p + k]);
            } else {
                buf.push(0u8);
            }
            k = k + 1;
        }
        let value = u64_from_le_bytes(buf.as_slice());
        proof {
            let rest = message@.skip(p as int);
            let chunk = if rest.len() <= 8 { rest } else { rest.take(8) };
            assert(chunk.len() == len);
            assert(buf@ =~= padded_chunk(chunk));
            if rest.len() > 8 {
                assert(rest.skip(8) =~= message@.skip(p + 8));
            }
            assert(log_chunks(rest) == seq![(value, len as u64)] + if rest.len() <= 8 {
                Seq::<(u64, u64)>::empty()
            } else {
                log_chunks(message@.skip(p + 8))
            });
        }
        let ghost old_out = out@;
        out.push((value, len as u64));
        proof {
            if p + len == n {
                assert(message@.skip(p + len) =~= Seq::<u8>::empty());
                assert(log_chunks(message@.skip(p + len)) =~= Seq::<(u64, u64)>::empty());
            }
            assert(out@ =~= old_out + seq![(value, len as u64)]);
            assert(old_out + (seq![(value, len as u64)] + log_chunks(message@.skip(p + len))) =~= (old_out + seq![(value, len as u64)]) + log_chunks(message@.skip(p + len)));
        }
        p = p + len;
    }
    assert(message@.skip(n as int) =~= Seq::<u8>::empty());
    assert(out@ + Seq::<(u64, u64)>::empty() =~= out@);
    out
}

/// The `LogWrite` syscalls that carry the (value, length) pairs `chunks`.
pub open spec fn log_write_calls(chunks: Seq<(u64, u64)>) -> Seq<SyscallArgs> {
    chunks.map_values(|c: (u64, u64)| (SYS_LOG_WRITE, c.0, c.1, 0u64, 0u64))
}

/// Write `message` to the kernel log: the `LogWrite` syscalls to issue, in
/// order, one per chunk of eight bytes of its UTF-8 encoding, as
/// `log_write_chunks` computes them.
pub fn log_write(message: &str) -> (calls: Vec<SyscallArgs>)
    ensures
        calls@ == log_write_calls(log_chunks(message.spec_bytes())),
{
    let chunks = log_write_chunks(message.as_bytes());
    let mut calls: Vec<SyscallArgs> = Vec::new();
    let mut i: usize = 0;
    while i < chunks.len()
        invariant
            0 <= i <= chunks@.len(),
            chunks@ == log_chunks(message.spec_bytes()),
            calls@ == log_write_calls(chunks@.take(i as int)),
        decreases chunks@.len() - i,
    {
        let (value, len) = chunks[i];
        calls.push((SYS_LOG_WRITE, value, len, 0, 0));
        proof {
            assert(log_write_calls(chunks@.take(i + 1)) =~= log_write_calls(chunks@.take(i as int)).push(
                (SYS_LOG_WRITE, value, len, 0u64, 0u64),
            ));
        }
        i = i + 1;
    }
    assert(chunks@.take(chunks@.len() as int) =~= chunks@);
    calls
}

} // verus!
