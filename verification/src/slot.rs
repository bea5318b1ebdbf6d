//! Uniform value containers and the flat byte buffers they live in.
//!
//! Every value category of the machine (32-bit integer, float, reference,
//! return address) is stored as one `Slot` of `PTR_SIZE` opaque bytes; the
//! 64-bit categories occupy one `WideSlot` of two slot-widths. Locals and
//! operand stacks are flat `Vec<u8>` buffers addressed in slot-widths.

use vstd::prelude::*;

verus! {

/// Width in bytes of one slot: one machine word of the abstract machine.
pub const PTR_SIZE: usize = 4;

/// A single-width value: one machine word of opaque bytes.
pub type Slot = [u8; 4];

/// A double-width value: two contiguous machine words, read and written
/// as one unit so the logical 64-bit value stays atomic.
pub type WideSlot = [u8; 8];

/// The buffer `buf` with `data` written over the bytes starting at `at`.
pub open spec fn spliced(buf: Seq<u8>, at: int, data: Seq<u8>) -> Seq<u8> {
    buf.take(at) + data + buf.skip(at + data.len())
}

/// Splicing keeps the buffer length, writes `data` at `at`, and leaves
/// every byte outside `[at, at + data.len())` as it was.
pub proof fn lemma_spliced_facts(buf: Seq<u8>, at: int, data: Seq<u8>)
    requires
        0 <= at,
        at + data.len() <= buf.len(),
    ensures
        spliced(buf, at, data).len() == buf.len(),
        forall|j: int| at <= j < at + data.len() ==> spliced(buf, at, data)[j] == data[j - at],
        forall|j: int|
            0 <= j < buf.len() && !(at <= j < at + data.len()) ==> spliced(buf, at, data)[j]
                == buf[j],
{
}

/// Writing a value at the cursor and reading the same width back at the
/// cursor returns exactly that value: the round trip behind `push`/`pop`
/// and behind a double-width write followed by `pop_w`.
pub proof fn lemma_write_read_roundtrip(buf: Seq<u8>, at: int, data: Seq<u8>)
    requires
        0 <= at,
        at + data.len() <= buf.len(),
    ensures
        spliced(buf, at, data).subrange(at, at + data.len()) == data,
        spliced(buf, at, data).len() == buf.len(),
{
    lemma_spliced_facts(buf, at, data);
    assert(spliced(buf, at, data).subrange(at, at + data.len()) =~= data);
}

/// Splicing a block of a buffer back over the place it was read from
/// leaves the buffer unchanged.
pub proof fn lemma_splice_self(buf: Seq<u8>, at: int, len: int)
    requires
        0 <= at,
        0 <= len,
        at + len <= buf.len(),
    ensures
        spliced(buf, at, buf.subrange(at, at + len)) == buf,
{
    lemma_spliced_facts(buf, at, buf.subrange(at, at + len));
    assert(spliced(buf, at, buf.subrange(at, at + len)) =~= buf);
}

/// A zero-filled buffer of the given length.
pub fn zero_buffer(len: usize) -> (v: Vec<u8>)
    ensures
        v@.len() == len,
        forall|i: int| 0 <= i < len ==> v@[i] == 0,
{
    let mut v: Vec<u8> = Vec::new();
    let mut i: usize = 0;
    while i < len
        invariant
            i <= len,
            v@.len() == i,
            forall|j: int| 0 <= j < i ==> v@[j] == 0,
        decreases len - i,
    {
        v.push(0);
        i = i + 1;
    }
    v
}

/// Copies `len` bytes of `src` starting at `src_at` into `dst` starting at
/// `dst_at`, as one ordered block.
pub fn copy_into(dst: &mut Vec<u8>, dst_at: usize, src: &[u8], src_at: usize, len: usize)
    requires
        dst_at + len <= old(dst)@.len(),
        src_at + len <= src@.len(),
    ensures
        final(dst)@ == spliced(
            old(dst)@,
            dst_at as int,
            src@.subrange(src_at as int, src_at + len),
        ),
{
    let src_len: usize = src.len();
    let dst_len: usize = dst.len();
    let mut i: usize = 0;
    while i < len
        invariant
            i <= len,
            dst_at + len <= dst@.len(),
            src_at + len <= src@.len(),
            src_len == src@.len(),
            dst_len == dst@.len(),
            dst@.len() == old(dst)@.len(),
            forall|j: int| 0 <= j < dst_at ==> #[trigger] dst@[j] == old(dst)@[j],
            forall|j: int|
                dst_at <= j < dst_at + i ==> #[trigger] dst@[j] == src@[j - dst_at + src_at],
            forall|j: int| dst_at + i <= j < dst@.len() ==> #[trigger] dst@[j] == old(dst)@[j],
        decreases len - i,
    {
        let b: u8 = src[src_at + i];
        dst[dst_at + i] = b;
        i = i + 1;
    }
    proof {
        let data = src@.subrange(src_at as int, src_at + len);
        lemma_spliced_facts(old(dst)@, dst_at as int, data);
        assert forall|j: int| 0 <= j < dst@.len() implies dst@[j] == spliced(
            old(dst)@,
            dst_at as int,
            data,
        )[j] by {
            if dst_at <= j < dst_at + len {
                assert(data[j - dst_at] == src@[j - dst_at + src_at]);
            }
        }
        assert(dst@ =~= spliced(old(dst)@, dst_at as int, data));
    }
}

} // verus!
