//! Queued ciphertext on its way to the transport. A blocking write may accept
//! fewer bytes than offered; the queue keeps what is left and a record of
//! every chunk that was accepted, in order.
use vstd::prelude::*;
use crate::driver::SessionError;

verus! {

/// Ciphertext produced by the engine, with the part already accepted by the
/// transport.
pub struct Outgoing {
    data: Vec<u8>,
    sent: usize,
    accepted_chunks: Ghost<Seq<Seq<u8>>>,
}

impl Outgoing {
    /// All the ciphertext this queue was made with.
    pub closed spec fn ciphertext(&self) -> Seq<u8> {
        self.data@
    }

    /// How many bytes the transport has accepted so far.
    pub closed spec fn sent_len(&self) -> nat {
        self.sent as nat
    }

    /// The chunks the transport accepted, one per successful write, in order.
    pub closed spec fn accepted(&self) -> Seq<Seq<u8>> {
        self.accepted_chunks@
    }

    /// The bytes still to be written.
    pub open spec fn remaining(&self) -> Seq<u8> {
        self.ciphertext().subrange(self.sent_len() as int, self.ciphertext().len() as int)
    }

    /// The accepted chunks are exactly the sent prefix of the ciphertext.
    pub closed spec fn wf(&self) -> bool {
        &&& self.sent <= self.data.len()
        &&& self.accepted_chunks@.flatten() == self.data@.subrange(0, self.sent as int)
        &&& forall|i: int|
            0 <= i < self.accepted_chunks@.len() ==> #[trigger] self.accepted_chunks@[i].len() > 0
    }

    /// A queue holding `data`, nothing of it sent yet.
    pub fn new(data: Vec<u8>) -> (r: Outgoing)
        ensures
            r.wf(),
            r.ciphertext() == data@,
            r.sent_len() == 0,
            r.accepted() == Seq::<Seq<u8>>::empty(),
    {
        let r = Outgoing { data, sent: 0, accepted_chunks: Ghost(Seq::empty()) };
        assert(r.data@.subrange(0, 0) =~= Seq::<u8>::empty());
        r
    }

    /// The bytes still to be written, to hand to the transport.
    pub fn pending(&self) -> (r: &[u8])
        requires
            self.wf(),
        ensures
            r@ == self.remaining(),
    {
        slice_from(self.data.as_slice(), self.sent)
    }

    /// Whether everything has been accepted by the transport.
    pub fn is_drained(&self) -> (r: bool)
        requires
            self.wf(),
        ensures
            r == (self.sent_len() == self.ciphertext().len()),
            r == (self.remaining().len() == 0),
    {
        self.sent == self.data.len()
    }

    /// Records that the transport accepted `n` bytes of what `pending` gave.
    /// A write that accepts nothing while bytes remain, or more than was
    /// offered, is a transport failure and leaves the queue as it was.
    pub fn advance(&mut self, n: usize) -> (r: Result<(), SessionError>)
        requires
            old(self).wf(),
        ensures
            final(self).wf(),
            final(self).ciphertext() == old(self).ciphertext(),
            r is Ok <==> 0 < n <= old(self).remaining().len(),
            r is Ok ==> {
                &&& final(self).sent_len() == old(self).sent_len() + n
                &&& final(self).accepted() == old(self).accepted().push(
                    old(self).remaining().subrange(0, n as int),
                )
                &&& final(self).remaining() == old(self).remaining().subrange(
                    n as int,
                    old(self).remaining().len() as int,
                )
            },
            r is Err ==> {
                &&& r == Err::<(), SessionError>(SessionError::Transport)
                &&& *final(self) == *old(self)
            },
    {
        if n == 0 || n > self.data.len() - self.sent {
            return Err(SessionError::Transport);
        }
        let ghost old_sent = self.sent as int;
        let ghost chunk = self.data@.subrange(old_sent, old_sent + n);
        proof {
            broadcast use Seq::lemma_flatten_push;
            assert(self.data@.subrange(0, old_sent + n) =~= self.data@.subrange(0, old_sent) + chunk);
        }
        self.sent = self.sent + n;
        self.accepted_chunks = Ghost(self.accepted_chunks@.push(chunk));
        assert(old(self).remaining().subrange(0, n as int) =~= chunk);
        assert(self.remaining() =~= old(self).remaining().subrange(
            n as int,
            old(self).remaining().len() as int,
        ));
        Ok(())
    }
}

/// Once a queue is drained, the chunks the transport accepted, joined in the
/// order they were written, are exactly the ciphertext the engine produced.
pub proof fn drained_writes_concatenate(q: &Outgoing)
    requires
        q.wf(),
        q.sent_len() == q.ciphertext().len(),
    ensures
        q.accepted().flatten() == q.ciphertext(),
        forall|i: int| 0 <= i < q.accepted().len() ==> #[trigger] q.accepted()[i].len() > 0,
{
    assert(q.ciphertext().subrange(0, q.ciphertext().len() as int) =~= q.ciphertext());
}

/// The tail of `s` from index `k` on.
fn slice_from(s: &[u8], k: usize) -> (r: &[u8])
    requires
        k <= s@.len(),
    ensures
        r@ == s@.subrange(k as int, s@.len() as int),
{
    s.split_at(k).1
}

} // verus!
