//! The buffer-reusing receiver.
//!
//! A receiver owns one receive buffer and lets at most one receive operation
//! hold it at a time. `start` checks the buffer out for a new operation and
//! `complete` takes the operation's outcome, copies out the received bytes and
//! checks the buffer back in. The operation itself is performed by the caller.
use vstd::prelude::*;

verus! {

/// Capacity of the receive buffer: the largest UDP payload in practice. A
/// longer datagram is truncated to this length by the transport.
pub const RECV_BUF_LEN: usize = 65536;

/// The contents of a freshly made receive buffer.
pub open spec fn fresh_buffer() -> Seq<u8> {
    Seq::new(RECV_BUF_LEN as nat, |i: int| 0u8)
}

/// The state of a receiver: idle, holding its buffer (if it has one), or
/// receiving, while an operation holds the buffer.
#[derive(Debug)]
pub struct BufferedReceiver {
    buf: Option<Vec<u8>>,
    receiving: bool,
}

impl BufferedReceiver {
    /// The buffer the receiver holds.
    pub closed spec fn held(&self) -> Option<Vec<u8>> {
        self.buf
    }

    /// Whether a receive operation is outstanding.
    pub closed spec fn is_receiving(&self) -> bool {
        self.receiving
    }

    /// While an operation is outstanding the receiver holds no buffer, and
    /// a buffer it holds has the full capacity.
    pub open spec fn wf(&self) -> bool {
        &&& self.is_receiving() ==> self.held() is None
        &&& self.held() matches Some(b) ==> b@.len() == RECV_BUF_LEN
    }

    /// The state after `start` on this state.
    pub open spec fn started(self) -> Self {
        if self.is_receiving() {
            self
        } else {
            Self::with(None, true)
        }
    }

    /// The state after an outstanding operation has come back and left the
    /// receiver holding `buf`.
    pub open spec fn returned(self, buf: Option<Vec<u8>>) -> Self {
        Self::with(buf, false)
    }

    /// The state with the given buffer and receiving flag.
    pub closed spec fn with(buf: Option<Vec<u8>>, receiving: bool) -> Self {
        BufferedReceiver { buf, receiving }
    }

    /// Reads back the parts of a state built by `with`.
    pub proof fn lemma_with(buf: Option<Vec<u8>>, receiving: bool)
        ensures
            #[trigger] Self::with(buf, receiving).held() == buf,
            Self::with(buf, receiving).is_receiving() == receiving,
    {
    }

    /// An idle receiver holding a fresh buffer.
    pub fn new() -> (r: Self)
        ensures
            r.wf(),
            !r.is_receiving(),
            r.held() matches Some(b) && b@ == fresh_buffer(),
    {
        BufferedReceiver { buf: Some(new_buffer()), receiving: false }
    }

    /// Checks the buffer out for a new receive operation.
    ///
    /// While an operation is outstanding no second one may start: the result
    /// is then `None` and the state is unchanged. Otherwise the result is the
    /// held buffer, or a fresh one where the last operation failed and took
    /// the buffer with it, and the receiver is receiving.
    pub fn start(&mut self) -> (r: Option<Vec<u8>>)
        requires
            old(self).wf(),
        ensures
            final(self).wf(),
            final(self).is_receiving(),
            *final(self) == old(self).started(),
            old(self).is_receiving() ==> r is None,
            !old(self).is_receiving() ==> r is Some,
            !old(self).is_receiving() && old(self).held() is Some ==> r == old(self).held(),
            !old(self).is_receiving() && old(self).held() is None ==> r->0@ == fresh_buffer(),
    {
        if self.receiving {
            return None;
        }
        let buf = match self.buf.take() {
            Some(b) => b,
            None => new_buffer(),
        };
        self.receiving = true;
        proof {
            Self::lemma_with(None, true);
            assert(*self == Self::with(None, true));
        }
        Some(buf)
    }

    /// Takes the outcome of the outstanding receive operation: the buffer it
    /// received into, the number of bytes received and the sender's address,
    /// or the transport's error. The buffer must be the one `start` handed
    /// out, with its full capacity, so no payload is longer than that.
    ///
    /// On success the result holds exactly the received bytes and the
    /// sender's address, and the buffer is held again for the next
    /// operation. On failure the error is handed on and the receiver holds
    /// no buffer; the next `start` makes a fresh one.
    pub fn complete<A>(
        &mut self,
        outcome: Result<(Vec<u8>, usize, A), std::io::Error>,
    ) -> (r: Result<(Vec<u8>, A), std::io::Error>)
        requires
            old(self).wf(),
            old(self).is_receiving(),
            outcome matches Ok(t) ==> t.0@.len() == RECV_BUF_LEN && t.1 <= t.0@.len(),
        ensures
            final(self).wf(),
            !final(self).is_receiving(),
            outcome matches Ok(t) ==> {
                &&& r matches Ok(d) && d.0@ == t.0@.subrange(0, t.1 as int) && d.1 == t.2
                &&& r matches Ok(d) && d.0@.len() <= RECV_BUF_LEN
                &&& *final(self) == old(self).returned(Some(t.0))
            },
            outcome matches Err(e) ==> {
                &&& r matches Err(f) && f == e
                &&& *final(self) == old(self).returned(None)
            },
    {
        self.receiving = false;
        match outcome {
            Err(e) => {
                self.buf = None;
                proof {
                    Self::lemma_with(None, false);
                    assert(*self == Self::with(None, false));
                }
                Err(e)
            },
            Ok((buf, n, addr)) => {
                let data = copy_prefix(&buf, n);
                self.buf = Some(buf);
                proof {
                    assert(*self == Self::with(self.buf, false));
                }
                Ok((data, addr))
            },
        }
    }
}

/// A fresh, zero-filled receive buffer.
fn new_buffer() -> (r: Vec<u8>)
    ensures
        r@ == fresh_buffer(),
{
    let mut v: Vec<u8> = Vec::with_capacity(RECV_BUF_LEN);
    while v.len() < RECV_BUF_LEN
        invariant
            v@.len() <= RECV_BUF_LEN,
            forall|i: int| 0 <= i < v@.len() ==> v@[i] == 0u8,
        decreases RECV_BUF_LEN - v@.len(),
    {
        v.push(0u8);
    }
    assert(v@ =~= fresh_buffer());
    v
}

/// The first `n` bytes of `buf`, in a vector of their own.
fn copy_prefix(buf: &Vec<u8>, n: usize) -> (r: Vec<u8>)
    requires
        n <= buf@.len(),
    ensures
        r@ == buf@.subrange(0, n as int),
{
    let mut out: Vec<u8> = Vec::with_capacity(n);
    let mut i: usize = 0;
    while i < n
        invariant
            n <= buf@.len(),
            i <= n,
            out@ == buf@.subrange(0, i as int),
        decreases n - i,
    {
        out.push(buf[i]);
        i = i + 1;
        assert(out@ =~= buf@.subrange(0, i as int));
    }
    out
}

/// The state after `n` receive cycles that each succeed: `start`, then
/// `complete` with the buffer that `start` handed out.
pub open spec fn after_cycles(s: BufferedReceiver, n: nat) -> BufferedReceiver
    decreases n,
{
    if n == 0 {
        s
    } else {
        let t = after_cycles(s, (n - 1) as nat);
        t.started().returned(t.held())
    }
}

/// Buffer reuse: an idle receiver that holds buffer `b` still holds `b`, and
/// is idle, after any number of successful receive cycles. No cycle makes a
/// new buffer.
pub proof fn lemma_buffer_reused(s: BufferedReceiver, b: Vec<u8>, n: nat)
    requires
        s.wf(),
        !s.is_receiving(),
        s.held() == Some(b),
    ensures
        after_cycles(s, n).held() == Some(b),
        !after_cycles(s, n).is_receiving(),
    decreases n,
{
    if n > 0 {
        lemma_buffer_reused(s, b, (n - 1) as nat);
        let t = after_cycles(s, (n - 1) as nat);
        BufferedReceiver::lemma_with(None, true);
        BufferedReceiver::lemma_with(t.held(), false);
    }
}

/// At most one operation in flight: starting again while a receive is
/// outstanding hands out no buffer and leaves the state as it was.
pub proof fn lemma_single_in_flight(s: BufferedReceiver)
    requires
        s.wf(),
    ensures
        s.started().is_receiving(),
        s.started().started() == s.started(),
        s.started().held() is None,
{
    BufferedReceiver::lemma_with(None, true);
}

} // verus!
