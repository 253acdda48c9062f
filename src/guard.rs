//! Which datagrams may be handed to the decoder.
//!
//! `rosc::decoder::decode` walks a datagram with a cursor. On a MIDI (`m`)
//! or colour (`r`) argument with fewer than four bytes left it indexes past
//! the bytes it read and panics; a blob size larger than the datagram makes
//! it reserve that much memory; and each nested bundle is one more level of
//! recursion. The walk below follows the decoder's cursor and accepts a
//! datagram only where none of these can happen. Where the decoder would
//! stop with an error, the walk may go on: it never accepts less safely.
use crate::receiver::RECV_BUF_LEN;
use vstd::prelude::*;

verus! {

/// How deeply bundles may nest in an accepted datagram.
pub const MAX_BUNDLE_DEPTH: u64 = 8;

/// `p` rounded up to a multiple of four, as the decoder pads its cursor.
pub open spec fn pad4(p: int) -> int {
    if p % 4 == 0 {
        p
    } else {
        p + (4 - p % 4)
    }
}

/// How many bytes are left after the cursor `p`.
pub open spec fn left(b: Seq<u8>, p: int) -> int {
    if p < b.len() {
        b.len() - p
    } else {
        0
    }
}

/// The first zero byte at or after `p`, or the length where there is none.
pub open spec fn zero_from(b: Seq<u8>, p: int) -> int
    decreases b.len() - p,
{
    if p >= b.len() {
        b.len() as int
    } else if b[p] == 0 {
        p
    } else {
        zero_from(b, p + 1)
    }
}

/// The cursor after reading a zero-terminated string at `p`, padded.
pub open spec fn after_string(b: Seq<u8>, p: int) -> int {
    if p >= b.len() {
        pad4(p)
    } else {
        let z = zero_from(b, p);
        pad4(if z < b.len() { z + 1 } else { b.len() as int })
    }
}

/// The big-endian 32-bit integer at `p`.
pub open spec fn be_u32(b: Seq<u8>, p: int) -> int {
    b[p] as int * 16777216 + b[p + 1] as int * 65536 + b[p + 2] as int * 256 + b[p + 3] as int
}

/// Whether reading the arguments with type tags `b[i..te]`, from cursor
/// `p`, is safe.
pub open spec fn args_safe(b: Seq<u8>, i: int, te: int, p: int) -> bool
    decreases te - i,
{
    if i >= te || i < 0 || te > b.len() {
        true
    } else {
        let t = b[i];
        if t == 102 || t == 105 || t == 99 {
            // 'f', 'i', 'c': four bytes
            left(b, p) < 4 || args_safe(b, i + 1, te, p + 4)
        } else if t == 100 || t == 104 || t == 116 {
            // 'd', 'h', 't': eight bytes
            left(b, p) < 8 || args_safe(b, i + 1, te, p + 8)
        } else if t == 115 {
            // 's': a string
            args_safe(b, i + 1, te, after_string(b, p))
        } else if t == 98 {
            // 'b': a size, then that many bytes
            left(b, p) < 4 || (be_u32(b, p) <= left(b, p) - 4 && args_safe(
                b,
                i + 1,
                te,
                pad4(p + 4 + be_u32(b, p)),
            ))
        } else if t == 114 || t == 109 {
            // 'r', 'm': four bytes, which must be there
            left(b, p) >= 4 && args_safe(b, i + 1, te, p + 4)
        } else if t == 84 || t == 70 || t == 78 || t == 73 || t == 91 || t == 93 {
            // 'T', 'F', 'N', 'I', '[', ']': no bytes
            args_safe(b, i + 1, te, p)
        } else {
            // any other tag: the decoder stops with an error
            true
        }
    }
}

/// Whether decoding `b` as a message is safe.
pub open spec fn message_safe(b: Seq<u8>) -> bool {
    let ts = after_string(b, 0);
    let te = if ts >= b.len() { ts } else { zero_from(b, ts) };
    te - ts <= 1 || (b[ts] < 128 && args_safe(b, ts + 1, te, after_string(b, ts)))
}

/// Whether decoding `b` as a packet is safe with bundles nested at most `d`
/// deep.
pub open spec fn packet_safe(b: Seq<u8>, d: nat) -> bool
    decreases d, 0int,
{
    if b.len() == 0 {
        true
    } else if b[0] == 47 {
        message_safe(b)
    } else if b[0] == 35 {
        d > 0 && (left(b, after_string(b, 0)) < 8 || elements_safe(
            b,
            after_string(b, 0) + 8,
            (d - 1) as nat,
        ))
    } else {
        true
    }
}

/// Whether decoding the bundle elements of `b` from cursor `p` is safe.
pub open spec fn elements_safe(b: Seq<u8>, p: int, d: nat) -> bool
    decreases d, b.len() - p,
{
    if p >= b.len() || left(b, p) < 4 {
        true
    } else {
        let q = p + 4;
        let size = be_u32(b, p);
        if b.len() < q + size {
            true
        } else {
            packet_safe(b.subrange(q, q + size), d) && (q + size == b.len() || elements_safe(
                b,
                q + size,
                d,
            ))
        }
    }
}

/// Whether a datagram may be handed to the decoder.
pub open spec fn decode_safe(b: Seq<u8>) -> bool {
    b.len() <= RECV_BUF_LEN && packet_safe(b, MAX_BUNDLE_DEPTH as nat)
}

fn pad4_exec(p: u64) -> (r: u64)
    requires
        p <= u64::MAX - 4,
    ensures
        r == pad4(p as int),
{
    if p % 4 == 0 {
        p
    } else {
        p + (4 - p % 4)
    }
}

fn zero_from_exec(b: &[u8], p: u64) -> (r: u64)
    requires
        p < b@.len(),
    ensures
        r == zero_from(b@, p as int),
{
    let n = b.len() as u64;
    let mut i = p;
    while i < n && b[i as usize] != 0
        invariant
            n == b@.len(),
            p <= i <= n,
            zero_from(b@, i as int) == zero_from(b@, p as int),
        decreases n - i,
    {
        i = i + 1;
    }
    i
}

fn after_string_exec(b: &[u8], p: u64) -> (r: u64)
    requires
        b@.len() <= RECV_BUF_LEN,
        p <= b@.len() + 8,
    ensures
        r == after_string(b@, p as int),
{
    if p >= b.len() as u64 {
        pad4_exec(p)
    } else {
        let z = zero_from_exec(b, p);
        proof {
            lemma_zero_from_bounds(b@, p as int);
        }
        if z < b.len() as u64 {
            pad4_exec(z + 1)
        } else {
            pad4_exec(b.len() as u64)
        }
    }
}

proof fn lemma_zero_from_bounds(b: Seq<u8>, p: int)
    requires
        0 <= p <= b.len(),
    ensures
        p <= zero_from(b, p) <= b.len(),
    decreases b.len() - p,
{
    if p < b.len() && b[p] != 0 {
        lemma_zero_from_bounds(b, p + 1);
    }
}

proof fn lemma_after_string_bound(b: Seq<u8>, p: int)
    requires
        0 <= p,
        p <= b.len() || p % 4 == 0,
    ensures
        after_string(b, p) <= b.len() + 3 || after_string(b, p) == p,
        after_string(b, p) % 4 == 0,
{
    if p < b.len() {
        lemma_zero_from_bounds(b, p);
    }
}

fn be_u32_exec(b: &[u8], p: u64) -> (r: u64)
    requires
        p + 4 <= b@.len(),
    ensures
        r == be_u32(b@, p as int),
{
    let i = p as usize;
    (b[i] as u64) * 16777216 + (b[i + 1] as u64) * 65536 + (b[i + 2] as u64) * 256 + (b[i + 3] as u64)
}

fn left_exec(b: &[u8], p: u64) -> (r: u64)
    ensures
        r == left(b@, p as int),
{
    if p < b.len() as u64 {
        b.len() as u64 - p
    } else {
        0
    }
}

fn args_safe_exec(b: &[u8], ts: u64, te: u64, p0: u64) -> (r: bool)
    requires
        b@.len() <= RECV_BUF_LEN,
        ts <= te <= b@.len(),
        p0 <= b@.len() + 3,
        p0 > b@.len() ==> p0 % 4 == 0,
    ensures
        r == args_safe(b@, ts as int, te as int, p0 as int),
{
    let mut i = ts;
    let mut p = p0;
    while i < te
        invariant
            b@.len() <= RECV_BUF_LEN,
            ts <= i <= te <= b@.len(),
            p <= b@.len() + 3,
            p > b@.len() ==> p % 4 == 0,
            args_safe(b@, i as int, te as int, p as int) == args_safe(
                b@,
                ts as int,
                te as int,
                p0 as int,
            ),
        decreases te - i,
    {
        let t = b[i as usize];
        let l = left_exec(b, p);
        if t == 102 || t == 105 || t == 99 {
            if l < 4 {
                return true;
            }
            p = p + 4;
        } else if t == 100 || t == 104 || t == 116 {
            if l < 8 {
                return true;
            }
            p = p + 8;
        } else if t == 115 {
            proof {
                lemma_after_string_bound(b@, p as int);
            }
            p = after_string_exec(b, p);
        } else if t == 98 {
            if l < 4 {
                return true;
            }
            let size = be_u32_exec(b, p);
            if size > l - 4 {
                return false;
            }
            p = pad4_exec(p + 4 + size);
        } else if t == 114 || t == 109 {
            if l < 4 {
                return false;
            }
            p = p + 4;
        } else if !(t == 84 || t == 70 || t == 78 || t == 73 || t == 91 || t == 93) {
            return true;
        }
        i = i + 1;
    }
    true
}

fn message_safe_exec(b: &[u8]) -> (r: bool)
    requires
        b@.len() <= RECV_BUF_LEN,
    ensures
        r == message_safe(b@),
{
    proof {
        lemma_after_string_bound(b@, 0);
    }
    let ts = after_string_exec(b, 0);
    let te = if ts >= b.len() as u64 {
        ts
    } else {
        proof {
            lemma_zero_from_bounds(b@, ts as int);
        }
        zero_from_exec(b, ts)
    };
    if te - ts <= 1 {
        return true;
    }
    if b[ts as usize] >= 128 {
        return false;
    }
    proof {
        lemma_after_string_bound(b@, ts as int);
    }
    let p = after_string_exec(b, ts);
    args_safe_exec(b, ts + 1, te, p)
}

fn packet_safe_exec(b: &[u8], d: u64) -> (r: bool)
    requires
        b@.len() <= RECV_BUF_LEN,
    ensures
        r == packet_safe(b@, d as nat),
    decreases d, 0int,
{
    if b.len() == 0 {
        true
    } else if b[0] == 47 {
        message_safe_exec(b)
    } else if b[0] == 35 {
        if d == 0 {
            return false;
        }
        proof {
            lemma_after_string_bound(b@, 0);
        }
        let p = after_string_exec(b, 0);
        if left_exec(b, p) < 8 {
            return true;
        }
        elements_safe_exec(b, p + 8, d - 1)
    } else {
        true
    }
}

fn elements_safe_exec(b: &[u8], p0: u64, d: u64) -> (r: bool)
    requires
        b@.len() <= RECV_BUF_LEN,
        p0 <= b@.len(),
    ensures
        r == elements_safe(b@, p0 as int, d as nat),
    decreases d, b@.len() - p0,
{
    let n = b.len() as u64;
    if p0 >= n || n - p0 < 4 {
        return true;
    }
    let q = p0 + 4;
    let size = be_u32_exec(b, p0);
    if n < q + size {
        return true;
    }
    let content = &b[q as usize..(q + size) as usize];
    if !packet_safe_exec(content, d) {
        return false;
    }
    if q + size == n {
        return true;
    }
    elements_safe_exec(b, q + size, d)
}

/// Whether a datagram may be handed to the decoder: it is no longer than
/// the receive buffer, and decoding it can neither panic nor reserve more
/// than its own length, nor nest bundles more than `MAX_BUNDLE_DEPTH` deep.
pub fn is_decode_safe(b: &[u8]) -> (r: bool)
    ensures
        r == decode_safe(b@),
{
    if b.len() > RECV_BUF_LEN {
        return false;
    }
    packet_safe_exec(b, MAX_BUNDLE_DEPTH)
}

} // verus!
