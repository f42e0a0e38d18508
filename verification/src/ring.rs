//! Index arithmetic of the audio sample ring.
//!
//! The host-facing audio channel is a single-producer/single-consumer ring
//! of stereo samples over a power-of-two capacity. The atomics, the
//! spin-wait of "sync" mode and the sample memory itself live with the
//! frontend; the decisions — how many samples a chunk may take, when the
//! producer must wait, where the read position lands when the oldest
//! samples are overwritten, and how positions step — are computed here.

use vstd::prelude::*;
use vstd::arithmetic::div_mod::{lemma_small_mod, lemma_mod_self_0};

verus! {

/// Capacity of the sample ring; positions stay below it.
pub const BUFFER_CAPACITY: usize = 0x800;

/// How far position `a` is ahead of position `b` around the ring.
pub open spec fn ring_dist(a: int, b: int) -> int {
    if a >= b {
        a - b
    } else {
        a + 0x800 - b
    }
}

/// How many samples of a chunk one pass may move: at most half the ring.
pub fn chunk_len(remaining: usize) -> (r: usize)
    ensures
        r == if remaining < 0x400 {
            remaining as int
        } else {
            0x400int
        },
        r <= 0x400,
{
    if remaining < 0x400 {
        remaining
    } else {
        0x400
    }
}

/// Distance from `a` back to `b` around the ring.
pub fn ring_distance(a: usize, b: usize) -> (r: usize)
    requires
        a < 0x800,
        b < 0x800,
    ensures
        r == ring_dist(a as int, b as int),
        r < 0x800,
{
    if a >= b {
        a - b
    } else {
        a + 0x800 - b
    }
}

/// Whether the producer of "sync" mode must keep waiting before writing
/// `len` samples: enough samples have been played exactly when the read
/// position is more than `len` ahead of the write position.
pub fn writer_must_wait(read_pos: usize, write_pos: usize, len: usize) -> (r: bool)
    requires
        read_pos < 0x800,
        write_pos < 0x800,
    ensures
        r == (ring_dist(read_pos as int, write_pos as int) <= len),
{
    ring_distance(read_pos, write_pos) <= len
}

/// Where the read position moves when the producer overwrites the oldest
/// samples: when the reader is within `len` of the writer it is pushed to
/// the start of the oldest samples that will remain, otherwise it stays.
pub fn overwritten_read_pos(read_pos: usize, write_pos: usize, len: usize) -> (r: Option<usize>)
    requires
        read_pos < 0x800,
        write_pos < 0x800,
        len <= 0x400,
    ensures
        ring_dist(read_pos as int, write_pos as int) <= len ==> r == Some(
            ((write_pos + len + 1) % 0x800) as usize,
        ),
        ring_dist(read_pos as int, write_pos as int) > len ==> r is None,
        r matches Some(p) ==> p < 0x800,
{
    if ring_distance(read_pos, write_pos) <= len {
        Some((write_pos + len + 1) % 0x800)
    } else {
        None
    }
}

/// A position stepped forward by one sample, wrapping at the capacity.
pub fn next_pos(pos: usize) -> (r: usize)
    requires
        pos < 0x800,
    ensures
        r == (pos + 1) % 0x800,
        r < 0x800,
{
    proof {
        if pos == 0x7FF {
            lemma_mod_self_0(0x800);
        } else {
            lemma_small_mod((pos + 1) as nat, 0x800nat);
        }
    }
    if pos == 0x7FF {
        0
    } else {
        pos + 1
    }
}

/// Where the consumer's read position moves for one sample: one step
/// forward, unless that would catch up with the writer — then the ring is
/// empty and nothing can be read.
pub fn reader_next_pos(read_pos: usize, write_pos: usize) -> (r: Option<usize>)
    requires
        read_pos < 0x800,
        write_pos < 0x800,
    ensures
        (read_pos + 1) % 0x800 == write_pos ==> r is None,
        (read_pos + 1) % 0x800 != write_pos ==> r == Some(((read_pos + 1) % 0x800) as usize),
        r matches Some(p) ==> p < 0x800,
{
    let new: usize = next_pos(read_pos);
    if new == write_pos {
        None
    } else {
        Some(new)
    }
}

} // verus!
