//! A pool of sample buffers for a streaming queue.
//!
//! The pool owns a fixed set of buffers. Each is free, held by the
//! application through a handle, or with the host. A buffer leaves the ready
//! queue when it is requested and comes back when its handle is released,
//! when the host refuses it, or when the host reports that it is done.

use vstd::prelude::*;
use std::collections::VecDeque;
use crate::error::{AudioUnitError, CAError, OSStatus};
use crate::stream_format::StreamFormat;
use crate::timestamp::TimeStamp;

verus! {

/// A region of samples with a fixed capacity and a length that can be set
/// anywhere within it.
pub struct AudioQueueBuffer<S> {
    data: Vec<S>,
    len: usize,
    free_on_drop: bool,
}

impl<S> View for AudioQueueBuffer<S> {
    type V = Seq<S>;

    /// The samples in use: the first `len` of the storage.
    open spec fn view(&self) -> Seq<S> {
        self.storage().take(self.spec_len() as int)
    }
}

impl<S> AudioQueueBuffer<S> {
    /// All the samples that the buffer has room for.
    pub closed spec fn storage(&self) -> Seq<S> {
        self.data@
    }

    /// The number of samples in use.
    pub closed spec fn spec_len(&self) -> nat {
        self.len as nat
    }

    /// The number of samples that the buffer has room for.
    pub open spec fn spec_capacity(&self) -> nat {
        self.storage().len()
    }

    /// Whether the storage is released with the buffer. A buffer that stands
    /// for memory of the host does not release it.
    pub closed spec fn frees_on_drop(&self) -> bool {
        self.free_on_drop
    }

    /// The length is within the capacity, and the capacity in bytes fits the
    /// 32 bits in which the host counts bytes.
    pub open spec fn wf(&self) -> bool {
        &&& self.spec_len() <= self.spec_capacity()
        &&& self.spec_capacity() * vstd::layout::size_of::<S>() <= u32::MAX
    }

    /// An owned buffer with room for `len` samples, none of them in use yet.
    pub fn new(len: usize) -> (r: Self) where S: Default
        requires
            len * vstd::layout::size_of::<S>() <= u32::MAX,
        ensures
            r.wf(),
            r.spec_capacity() == len,
            r.spec_len() == 0,
            r.frees_on_drop(),
            forall|i: int| 0 <= i < len ==> call_ensures(S::default, (), #[trigger] r.storage()[i]),
    {
        let mut data: Vec<S> = Vec::new();
        let mut i: usize = 0;
        while i < len
            invariant
                i <= len,
                data@.len() == i,
                forall|k: int| 0 <= k < i ==> call_ensures(S::default, (), #[trigger] data@[k]),
            decreases len - i,
        {
            data.push(S::default());
            i += 1;
        }
        AudioQueueBuffer { data, len: 0, free_on_drop: true }
    }

    /// A buffer that stands for memory of the host: `data` holds all that
    /// the memory has room for, and the first `len` samples are in use. A `len`
    /// beyond the capacity is clamped.
    pub fn borrowed(data: Vec<S>, len: usize) -> (r: Self)
        requires
            data@.len() * vstd::layout::size_of::<S>() <= u32::MAX,
        ensures
            r.wf(),
            r.storage() == data@,
            r.spec_len() == if len <= data@.len() { len as nat } else { data@.len() },
            !r.frees_on_drop(),
    {
        let len = if len <= data.len() { len } else { data.len() };
        AudioQueueBuffer { data, len, free_on_drop: false }
    }

    /// This buffer with `len` samples in use, or as many as it has room for
    /// where `len` is beyond that.
    pub closed spec fn resized(self, len: usize) -> Self {
        AudioQueueBuffer {
            data: self.data,
            len: if len <= self.data@.len() {
                len
            } else {
                self.data@.len() as usize
            },
            free_on_drop: self.free_on_drop,
        }
    }

    /// Sets the number of samples in use to `len`, or to the capacity where
    /// `len` is beyond it. The storage stays as it is.
    pub fn resize(&mut self, len: usize)
        requires
            old(self).wf(),
        ensures
            *final(self) == old(self).resized(len),
            final(self).wf(),
            final(self).spec_len() == if len <= old(self).spec_capacity() {
                len as nat
            } else {
                old(self).spec_capacity()
            },
            final(self).storage() == old(self).storage(),
            final(self).frees_on_drop() == old(self).frees_on_drop(),
    {
        let max = self.data.len();
        self.len = if len <= max { len } else { max };
    }

    /// The number of samples in use.
    pub fn len(&self) -> (r: usize)
        ensures
            r == self.spec_len(),
    {
        self.len
    }

    /// The number of samples that the buffer has room for.
    pub fn capacity(&self) -> (r: usize)
        ensures
            r == self.spec_capacity(),
    {
        self.data.len()
    }

    /// Whether the storage is released with the buffer.
    pub fn is_owned(&self) -> (r: bool)
        ensures
            r == self.frees_on_drop(),
    {
        self.free_on_drop
    }

    /// The number of bytes that the samples in use take.
    pub fn byte_size(&self) -> (r: u32)
        requires
            self.wf(),
        ensures
            r == self.spec_len() * vstd::layout::size_of::<S>(),
    {
        let size = core::mem::size_of::<S>();
        assert(self.len * size <= self.data@.len() * size) by (nonlinear_arith)
            requires
                self.len <= self.data@.len(),
                size >= 0,
        ;
        (self.len * size) as u32
    }

    /// The number of bytes that the buffer has room for.
    pub fn byte_capacity(&self) -> (r: u32)
        requires
            self.wf(),
        ensures
            r == self.spec_capacity() * vstd::layout::size_of::<S>(),
    {
        (self.data.len() * core::mem::size_of::<S>()) as u32
    }

    /// The samples in use.
    pub fn samples(&self) -> (r: &[S])
        requires
            self.wf(),
        ensures
            r@ == self@,
    {
        let whole = self.data.as_slice();
        let (head, _) = whole.split_at(self.len);
        head
    }

    /// The sample at `index`, to write to.
    pub fn samples_mut(&mut self, index: usize) -> (r: &mut S)
        requires
            old(self).wf(),
            index < old(self).spec_len(),
        ensures
            *r == old(self)@[index as int],
            final(self).wf(),
            final(self).storage() == old(self).storage().update(index as int, *final(r)),
            final(self).spec_len() == old(self).spec_len(),
            final(self).frees_on_drop() == old(self).frees_on_drop(),
    {
        &mut self.data[index]
    }
}

/// Resizing clamps the length to the capacity and touches nothing else, so
/// resizing twice to the same length is resizing once.
pub proof fn lemma_resize_clamps_and_is_idempotent<S>(buffer: AudioQueueBuffer<S>, len: usize)
    requires
        buffer.wf(),
    ensures
        buffer.resized(len).spec_len() == if len <= buffer.spec_capacity() {
            len as nat
        } else {
            buffer.spec_capacity()
        },
        buffer.resized(len).spec_capacity() == buffer.spec_capacity(),
        buffer.resized(len).storage() == buffer.storage(),
        buffer.resized(len).wf(),
        buffer.resized(len).resized(len) == buffer.resized(len),
{
}

/// Where a buffer of the pool stands.
#[derive(Copy, Clone, Debug, PartialEq, Eq, Structural)]
pub enum BufferState {
    /// In the ready queue.
    Free,
    /// Held by the application through a handle.
    Acquired,
    /// Handed to the host, which has not reported it done yet.
    Enqueued,
}

/// What teardown asks of the host, in the order in which it is asked.
#[derive(Copy, Clone, Debug, PartialEq, Eq, Structural)]
pub enum QueueCall {
    /// Stop the stream at once.
    Stop,
    /// Release the host's memory of the buffer with this index.
    FreeBuffer(usize),
    /// Dispose of the queue.
    Dispose,
}

/// The places of the buffers of a pool: where each one stands, and the queue
/// of the free ones.
pub struct Places {
    /// Where each buffer stands, by index.
    pub states: Seq<BufferState>,
    /// The indices of the free buffers, the one that is handed out next first.
    pub ready: Seq<usize>,
}

impl Places {
    /// The places of a new pool of `count` buffers: all free, queued by index.
    pub open spec fn fresh(count: nat) -> Places {
        Places {
            states: Seq::new(count, |i: int| BufferState::Free),
            ready: Seq::new(count, |i: int| i as usize),
        }
    }

    /// The number of buffers.
    pub open spec fn count(self) -> nat {
        self.states.len()
    }

    /// Every buffer is in exactly one place: the ready queue holds each free
    /// index once, and no index that is not free.
    pub open spec fn wf(self) -> bool {
        &&& self.ready.no_duplicates()
        &&& forall|k: int|
            0 <= k < self.ready.len() ==> (#[trigger] self.ready[k]) < self.count()
                && self.states[self.ready[k] as int] == BufferState::Free
        &&& forall|i: int|
            0 <= i < self.count() && #[trigger] self.states[i] == BufferState::Free
                ==> self.ready.contains(i as usize)
    }

    /// The index that the next request hands out, if a buffer is free.
    pub open spec fn next(self) -> Option<usize> {
        if self.ready.len() > 0 {
            Some(self.ready[0])
        } else {
            None
        }
    }

    /// The places after a request: the buffer at the head of the queue, if
    /// there is one, is held through a handle.
    pub open spec fn acquire(self) -> Places {
        if self.ready.len() > 0 {
            Places {
                states: self.states.update(self.ready[0] as int, BufferState::Acquired),
                ready: self.ready.drop_first(),
            }
        } else {
            self
        }
    }

    /// The places after the host has taken the buffer with `index`.
    pub open spec fn submit(self, index: usize) -> Places {
        Places { states: self.states.update(index as int, BufferState::Enqueued), ready: self.ready }
    }

    /// The places after the buffer with `index` has become free again: it
    /// stands behind those that were free before.
    pub open spec fn put_back(self, index: usize) -> Places {
        Places {
            states: self.states.update(index as int, BufferState::Free),
            ready: self.ready.push(index),
        }
    }

    /// The places after the host has reported the buffer with `index` done. A
    /// report for a buffer that is not with the host changes nothing.
    pub open spec fn complete(self, index: usize) -> Places {
        if index < self.count() && self.states[index as int] == BufferState::Enqueued {
            self.put_back(index)
        } else {
            self
        }
    }

    /// The places after `rounds` rounds of requesting a buffer and giving it
    /// to the host, with no report from the host in between.
    pub open spec fn fill(self, rounds: nat) -> Places
        decreases rounds,
    {
        if rounds == 0 || self.ready.len() == 0 {
            self
        } else {
            self.acquire().submit(self.ready[0]).fill((rounds - 1) as nat)
        }
    }

    /// The number of buffers that are not free: held through a handle or
    /// with the host.
    pub open spec fn outstanding(self) -> int {
        self.count() - self.ready.len()
    }
}

/// The right to one buffer of a pool, from the request until the buffer is
/// enqueued or released. It holds the index of the buffer and nothing else.
pub struct BorrowedAudioQueueBuffer {
    index: usize,
}

/// A pool of buffers for output.
pub struct AudioQueueOutput<S> {
    buffers: Vec<AudioQueueBuffer<S>>,
    states: Vec<BufferState>,
    ready: VecDeque<usize>,
    buffer_size: usize,
    running: bool,
}

impl BorrowedAudioQueueBuffer {
    /// The index of the buffer that the handle stands for.
    pub closed spec fn spec_index(&self) -> usize {
        self.index
    }

    /// The index of the buffer that the handle stands for.
    #[verifier::when_used_as_spec(spec_index)]
    pub fn index(&self) -> (r: usize)
        ensures
            r == self.spec_index(),
    {
        self.index
    }
}

proof fn lemma_drop_first_keeps(s: Seq<usize>, x: usize)
    requires
        s.len() > 0,
        s.contains(x),
        x != s[0],
    ensures
        s.drop_first().contains(x),
{
    let k = choose|k: int| 0 <= k < s.len() && s[k] == x;
    assert(s.drop_first()[k - 1] == x);
}

proof fn lemma_push_keeps(s: Seq<usize>, v: usize, x: usize)
    requires
        s.contains(x) || x == v,
    ensures
        s.push(v).contains(x),
{
    if x == v {
        assert(s.push(v)[s.len() as int] == x);
    } else {
        let k = choose|k: int| 0 <= k < s.len() && s[k] == x;
        assert(s.push(v)[k] == x);
    }
}

/// The places of a new pool are in order.
pub proof fn lemma_fresh_is_wf(count: nat)
    requires
        count <= usize::MAX,
    ensures
        Places::fresh(count).wf(),
        Places::fresh(count).count() == count,
        Places::fresh(count).outstanding() == 0,
{
    let p = Places::fresh(count);
    assert forall|i: int|
        0 <= i < p.count() && #[trigger] p.states[i] == BufferState::Free implies p.ready.contains(
        i as usize,
    ) by {
        assert(p.ready[i] == i as usize);
    }
}

/// A request keeps the places in order. Where a buffer is free, the index
/// that is handed out is held through a handle afterwards and is no longer in
/// the queue, so that no later request can hand it out again before it has
/// come back.
pub proof fn lemma_acquire(p: Places)
    requires
        p.wf(),
        p.count() <= usize::MAX,
    ensures
        p.acquire().wf(),
        p.acquire().count() == p.count(),
        p.next() matches Some(index) ==> {
            &&& index < p.count()
            &&& p.states[index as int] == BufferState::Free
            &&& p.acquire().states[index as int] == BufferState::Acquired
            &&& !p.acquire().ready.contains(index)
            &&& p.acquire().outstanding() == p.outstanding() + 1
        },
        p.next() is None ==> p.acquire() == p,
{
    if p.ready.len() > 0 {
        let index = p.ready[0];
        let q = p.acquire();
        // What is left of the queue is what came behind the head, and
        // differs from the head.
        assert forall|k: int| 0 <= k < q.ready.len() implies (#[trigger] q.ready[k]) < q.count()
            && q.states[q.ready[k] as int] == BufferState::Free && q.ready[k] != index by {
            assert(q.ready[k] == p.ready[k + 1]);
        }
        assert forall|i: int|
            0 <= i < q.count() && #[trigger] q.states[i]
                == BufferState::Free implies q.ready.contains(i as usize) by {
            lemma_drop_first_keeps(p.ready, i as usize);
        }
    }
}

/// Giving a held buffer to the host keeps the places in order, and the queue
/// as it is.
pub proof fn lemma_submit(p: Places, index: usize)
    requires
        p.wf(),
        index < p.count(),
        p.states[index as int] == BufferState::Acquired,
    ensures
        p.submit(index).wf(),
        p.submit(index).count() == p.count(),
        p.submit(index).ready == p.ready,
{
    // No entry of the queue is the buffer that changes: the entries are free.
    assert forall|k: int| 0 <= k < p.ready.len() implies (#[trigger] p.ready[k]) != index by {
        assert(p.states[p.ready[k] as int] == BufferState::Free);
    }
}

/// A buffer that is not free can become free again: the places stay in
/// order, and the buffer is in the queue at once, as its last entry.
pub proof fn lemma_put_back(p: Places, index: usize)
    requires
        p.wf(),
        index < p.count(),
        p.states[index as int] != BufferState::Free,
    ensures
        p.put_back(index).wf(),
        p.put_back(index).count() == p.count(),
        p.put_back(index).ready.contains(index),
        p.put_back(index).ready.last() == index,
        p.put_back(index).outstanding() == p.outstanding() - 1,
        p.ready.len() == 0 ==> p.put_back(index).next() == Some(index),
{
    let q = p.put_back(index);
    // The buffer is not in the queue yet: the entries of the queue are free.
    assert forall|k: int| 0 <= k < p.ready.len() implies (#[trigger] p.ready[k]) != index by {
        assert(p.states[p.ready[k] as int] == BufferState::Free);
    }
    assert forall|i: int|
        0 <= i < q.count() && #[trigger] q.states[i] == BufferState::Free implies q.ready.contains(
        i as usize,
    ) by {
        lemma_push_keeps(p.ready, index, i as usize);
    }
    assert(q.ready[p.ready.len() as int] == index);
}

/// A report from the host keeps the places in order, whatever index it
/// names. A buffer that was with the host is free afterwards.
pub proof fn lemma_complete(p: Places, index: usize)
    requires
        p.wf(),
    ensures
        p.complete(index).wf(),
        p.complete(index).count() == p.count(),
        index < p.count() && p.states[index as int] == BufferState::Enqueued
            ==> p.complete(index).ready.contains(index),
{
    if index < p.count() && p.states[index as int] == BufferState::Enqueued {
        lemma_put_back(p, index);
    }
}

/// A queue without duplicates whose entries are all below `bound` is no
/// longer than `bound`.
proof fn lemma_bounded_queue(ready: Seq<usize>, bound: nat)
    requires
        ready.no_duplicates(),
        forall|k: int| 0 <= k < ready.len() ==> (#[trigger] ready[k]) < bound,
    ensures
        ready.len() <= bound,
    decreases bound,
{
    if ready.len() > 0 && bound == 0 {
        assert(ready[0] < bound);
    } else if ready.len() > 0 {
        let top = (bound - 1) as usize;
        if ready.contains(top) {
            let k = choose|k: int| 0 <= k < ready.len() && ready[k] == top;
            let rest = ready.remove(k);
            // Without its one entry `top`, the queue is a queue below `top`.
            assert forall|j: int| 0 <= j < rest.len() implies (#[trigger] rest[j]) < bound - 1 by {
                let from = if j < k {
                    j
                } else {
                    j + 1
                };
                assert(rest[j] == ready[from] && ready[from] != ready[k]);
            }
            assert forall|i: int, j: int|
                0 <= i < rest.len() && 0 <= j < rest.len() && i != j implies rest[i]
                != rest[j] by {
                let a = if i < k {
                    i
                } else {
                    i + 1
                };
                let b = if j < k {
                    j
                } else {
                    j + 1
                };
                assert(rest[i] == ready[a] && rest[j] == ready[b]);
            }
            lemma_bounded_queue(rest, (bound - 1) as nat);
        } else {
            assert forall|j: int| 0 <= j < ready.len() implies (#[trigger] ready[j]) < bound
                - 1 by {
                assert(ready.contains(ready[j]));
            }
            lemma_bounded_queue(ready, (bound - 1) as nat);
        }
    }
}

/// The buffers that are not free are never more than the pool has.
pub proof fn lemma_outstanding_is_bounded(p: Places)
    requires
        p.wf(),
    ensures
        0 <= p.outstanding() <= p.count(),
{
    lemma_bounded_queue(p.ready, p.count());
}

/// Requests that are not answered by any return hand out different buffers.
/// After `rounds` rounds of requesting a buffer and giving it to the host,
/// with `rounds` no more than the number of free buffers, the buffers handed
/// out are the first `rounds` of the queue, in its order. No two of them are
/// the same, all of them are with the host, and the rest of the queue is
/// still free.
pub proof fn lemma_fill_hands_out_distinct_buffers(p: Places, rounds: nat)
    requires
        p.wf(),
        p.count() <= usize::MAX,
        rounds <= p.ready.len(),
    ensures
        p.fill(rounds).wf(),
        p.fill(rounds).count() == p.count(),
        p.fill(rounds).ready == p.ready.skip(rounds as int),
        p.fill(rounds).outstanding() == p.outstanding() + rounds,
        forall|i: int, j: int| 0 <= i < j < rounds ==> p.ready[i] != p.ready[j],
        forall|i: int|
            0 <= i < rounds ==> p.fill(rounds).states[(#[trigger] p.ready[i]) as int]
                == BufferState::Enqueued,
    decreases rounds,
{
    if rounds > 0 {
        let index = p.ready[0];
        lemma_acquire(p);
        lemma_submit(p.acquire(), index);
        let q = p.acquire().submit(index);
        lemma_fill_hands_out_distinct_buffers(q, (rounds - 1) as nat);
        let done = p.fill(rounds);
        assert forall|i: int| 0 <= i < rounds implies done.states[(#[trigger] p.ready[i]) as int]
            == BufferState::Enqueued by {
            if i == 0 {
                lemma_fill_keeps_what_is_not_free(q, (rounds - 1) as nat, index);
            } else {
                assert(p.ready[i] == q.ready[i - 1]);
            }
        }
    }
}

/// A new pool of `count` buffers hands out every buffer once: `count`
/// requests in a row, each buffer given to the host, hand out the indices
/// from zero up, all different, and leave no buffer free, so that the next
/// request has to wait.
pub proof fn lemma_fresh_pool_hands_out_every_buffer_once(count: nat)
    requires
        count <= usize::MAX,
    ensures
        ({
            let before = Places::fresh(count);
            let after = before.fill(count);
            &&& after.wf()
            &&& after.ready.len() == 0
            &&& after.next() is None
            &&& after.outstanding() == count
            &&& forall|i: int| 0 <= i < count ==> #[trigger] before.ready[i] == i
            &&& forall|i: int| 0 <= i < count ==> #[trigger] after.states[i] == BufferState::Enqueued
        }),
{
    let before = Places::fresh(count);
    lemma_fresh_is_wf(count);
    lemma_fill_hands_out_distinct_buffers(before, count);
    let after = before.fill(count);
    assert forall|i: int| 0 <= i < count implies #[trigger] after.states[i]
        == BufferState::Enqueued by {
        assert(after.states[before.ready[i] as int] == BufferState::Enqueued);
    }
}

/// Rounds of requesting and giving to the host change no buffer that is not
/// free.
proof fn lemma_fill_keeps_what_is_not_free(p: Places, rounds: nat, index: usize)
    requires
        p.wf(),
        p.count() <= usize::MAX,
        index < p.count(),
        p.states[index as int] != BufferState::Free,
    ensures
        p.fill(rounds).states[index as int] == p.states[index as int],
    decreases rounds,
{
    if rounds > 0 && p.ready.len() > 0 {
        let head = p.ready[0];
        lemma_acquire(p);
        lemma_submit(p.acquire(), head);
        lemma_fill_keeps_what_is_not_free(p.acquire().submit(head), (rounds - 1) as nat, index);
    }
}

/// Once every buffer of the pool is with the host, a request finds none, and
/// has to wait. The report that one of them is done makes that very buffer
/// the one that the next request hands out.
pub proof fn lemma_exhausted_pool_waits_for_a_report(p: Places, index: usize)
    requires
        p.wf(),
        p.ready.len() == 0,
        index < p.count(),
        p.states[index as int] == BufferState::Enqueued,
    ensures
        p.next() is None,
        p.acquire() == p,
        p.complete(index).wf(),
        p.complete(index).next() == Some(index),
{
    lemma_put_back(p, index);
}

/// A buffer that is given back unused is free at once: it is in the queue
/// again without any report from the host, and as many buffers are
/// outstanding as before the request.
pub proof fn lemma_released_buffer_is_free_at_once(p: Places)
    requires
        p.wf(),
        p.count() <= usize::MAX,
        p.ready.len() > 0,
    ensures
        ({
            let index = p.ready[0];
            let q = p.acquire().put_back(index);
            &&& q.wf()
            &&& q.ready == p.ready.drop_first().push(index)
            &&& q.ready.contains(index)
            &&& q.states == p.states
            &&& q.outstanding() == p.outstanding()
        }),
{
    let index = p.ready[0];
    lemma_acquire(p);
    lemma_put_back(p.acquire(), index);
}

impl<S> AudioQueueOutput<S> {
    /// The buffers, by index.
    pub closed spec fn buffers(&self) -> Seq<AudioQueueBuffer<S>> {
        self.buffers@
    }

    /// The places of the buffers.
    pub closed spec fn places(&self) -> Places {
        Places { states: self.states@, ready: self.ready@ }
    }

    /// The capacity of each buffer, in samples.
    pub closed spec fn spec_buffer_size(&self) -> usize {
        self.buffer_size
    }

    /// Whether the stream is running.
    pub closed spec fn spec_is_running(&self) -> bool {
        self.running
    }

    /// The number of buffers.
    pub open spec fn spec_len(&self) -> nat {
        self.buffers().len()
    }

    /// Whether `handle` stands for a buffer that this pool has handed out.
    pub open spec fn holds(&self, handle: &BorrowedAudioQueueBuffer) -> bool {
        &&& handle.spec_index() < self.spec_len()
        &&& self.places().states[handle.spec_index() as int] == BufferState::Acquired
    }

    /// The places are in order and speak of as many buffers as the pool has.
    /// The buffers are owned, each with the capacity that the pool was made
    /// with, which in bytes fits the 32 bits in which the host counts bytes.
    pub open spec fn wf(&self) -> bool {
        &&& self.places().wf()
        &&& self.places().count() == self.spec_len()
        &&& self.spec_len() <= usize::MAX
        &&& self.spec_buffer_size() * vstd::layout::size_of::<S>() <= u32::MAX
        &&& forall|i: int|
            0 <= i < self.spec_len() ==> {
                &&& (#[trigger] self.buffers()[i]).wf()
                &&& self.buffers()[i].frees_on_drop()
                &&& self.buffers()[i].spec_capacity() == self.spec_buffer_size()
            }
    }

    /// Whether all but the places of the buffers is as in `other`: the
    /// buffers themselves, their capacity, and whether the stream runs.
    pub open spec fn same_buffers(&self, other: &Self) -> bool {
        &&& self.buffers() == other.buffers()
        &&& self.spec_buffer_size() == other.spec_buffer_size()
        &&& self.spec_is_running() == other.spec_is_running()
    }

    /// A pool of `buffer_count` buffers with room for `buffer_size` samples
    /// each, all of them free and empty, for a stream of `format`. The pool is
    /// refused where a sample of `format` does not have the size of `S`.
    pub fn new(format: &StreamFormat, buffer_count: usize, buffer_size: usize) -> (r: Result<
        Self,
        CAError,
    >) where S: Default
        requires
            format.spec_description().is_supported(),
            buffer_size * vstd::layout::size_of::<S>() <= u32::MAX,
        ensures
            r is Ok <==> format.spec_description().sample_format()->0.spec_size_in_bytes()
                == vstd::layout::size_of::<S>(),
            r matches Err(e) ==> e == CAError::AudioUnitError(AudioUnitError::FormatNotSupported),
            r matches Ok(q) ==> {
                &&& q.wf()
                &&& q.spec_len() == buffer_count
                &&& q.spec_buffer_size() == buffer_size
                &&& !q.spec_is_running()
                &&& q.places() == Places::fresh(buffer_count as nat)
                &&& forall|i: int|
                    0 <= i < buffer_count ==> (#[trigger] q.buffers()[i]).spec_len() == 0
                &&& forall|i: int, k: int|
                    0 <= i < buffer_count && 0 <= k < buffer_size ==> call_ensures(
                        S::default,
                        (),
                        #[trigger] q.buffers()[i].storage()[k],
                    )
            },
    {
        if format.sample_format().size_in_bytes() != core::mem::size_of::<S>() {
            return Err(CAError::AudioUnitError(AudioUnitError::FormatNotSupported));
        }
        let mut buffers: Vec<AudioQueueBuffer<S>> = Vec::new();
        let mut states: Vec<BufferState> = Vec::new();
        let mut ready: VecDeque<usize> = VecDeque::new();
        let mut idx: usize = 0;
        while idx < buffer_count
            invariant
                idx <= buffer_count,
                buffer_size * vstd::layout::size_of::<S>() <= u32::MAX,
                buffers@.len() == idx,
                states@ == Seq::new(idx as nat, |i: int| BufferState::Free),
                ready@ == Seq::new(idx as nat, |i: int| i as usize),
                forall|i: int|
                    0 <= i < idx ==> {
                        &&& (#[trigger] buffers@[i]).wf()
                        &&& buffers@[i].frees_on_drop()
                        &&& buffers@[i].spec_capacity() == buffer_size
                        &&& buffers@[i].spec_len() == 0
                    },
                forall|i: int, k: int|
                    0 <= i < idx && 0 <= k < buffer_size ==> call_ensures(
                        S::default,
                        (),
                        #[trigger] buffers@[i].storage()[k],
                    ),
            decreases buffer_count - idx,
        {
            let buffer = AudioQueueBuffer::<S>::new(buffer_size);
            buffers.push(buffer);
            states.push(BufferState::Free);
            ready.push_back(idx);
            idx += 1;
        }
        proof {
            lemma_fresh_is_wf(buffer_count as nat);
        }
        Ok(AudioQueueOutput { buffers, states, ready, buffer_size, running: false })
    }

    /// The number of buffers.
    pub fn len(&self) -> (r: usize)
        ensures
            r == self.spec_len(),
    {
        self.buffers.len()
    }

    /// The capacity of each buffer, in samples.
    pub fn buffer_size(&self) -> (r: usize)
        ensures
            r == self.spec_buffer_size(),
    {
        self.buffer_size
    }

    /// The number of bytes that each buffer has room for: so much memory
    /// the host has to provide for one buffer.
    pub fn buffer_byte_size(&self) -> (r: u32)
        requires
            self.wf(),
        ensures
            r == self.spec_buffer_size() * vstd::layout::size_of::<S>(),
    {
        (self.buffer_size * core::mem::size_of::<S>()) as u32
    }

    /// Whether the stream is running.
    pub fn is_running(&self) -> (r: bool)
        ensures
            r == self.spec_is_running(),
    {
        self.running
    }

    /// The number of free buffers: so many requests succeed before one has
    /// to wait for the host.
    pub fn available(&self) -> (r: usize)
        ensures
            r == self.places().ready.len(),
    {
        self.ready.len()
    }

    /// The number of buffers that are not free.
    pub fn outstanding(&self) -> (r: usize)
        requires
            self.wf(),
        ensures
            r == self.places().outstanding(),
            r <= self.spec_len(),
    {
        proof {
            lemma_outstanding_is_bounded(self.places());
        }
        self.buffers.len() - self.ready.len()
    }

    /// Where the buffer with `index` stands.
    pub fn state(&self, index: usize) -> (r: BufferState)
        requires
            self.wf(),
            index < self.spec_len(),
        ensures
            r == self.places().states[index as int],
    {
        self.states[index]
    }

    /// Records what the host said to the request to start the stream: on
    /// success the stream runs, else nothing changes.
    pub fn start(&mut self, status: OSStatus) -> (r: Result<(), CAError>)
        requires
            old(self).wf(),
        ensures
            final(self).wf(),
            r is Ok <==> status == 0,
            r matches Err(e) ==> e.stands_for(status as int),
            final(self).buffers() == old(self).buffers(),
            final(self).spec_buffer_size() == old(self).spec_buffer_size(),
            final(self).places() == old(self).places(),
            final(self).spec_is_running() == (status == 0 || old(self).spec_is_running()),
    {
        CAError::from_os_status(status)?;
        self.running = true;
        Ok(())
    }

    /// Records what the host said to the request to stop the stream: on
    /// success the stream no longer runs, else nothing changes.
    pub fn stop(&mut self, status: OSStatus) -> (r: Result<(), CAError>)
        requires
            old(self).wf(),
        ensures
            final(self).wf(),
            r is Ok <==> status == 0,
            r matches Err(e) ==> e.stands_for(status as int),
            final(self).buffers() == old(self).buffers(),
            final(self).spec_buffer_size() == old(self).spec_buffer_size(),
            final(self).places() == old(self).places(),
            final(self).spec_is_running() == (status != 0 && old(self).spec_is_running()),
    {
        CAError::from_os_status(status)?;
        self.running = false;
        Ok(())
    }

    /// Hands out the buffer that has been free for longest, if one is free.
    /// Where none is, the caller has to wait until the host reports one done.
    pub fn request_buffer(&mut self) -> (r: Option<BorrowedAudioQueueBuffer>)
        requires
            old(self).wf(),
        ensures
            final(self).wf(),
            final(self).same_buffers(old(self)),
            final(self).places() == old(self).places().acquire(),
            match r {
                Some(handle) => old(self).places().next() == Some(handle.spec_index())
                    && final(self).holds(&handle),
                None => old(self).places().next() is None,
            },
    {
        proof {
            lemma_acquire(self.places());
        }
        match self.ready.pop_front() {
            None => None,
            Some(index) => {
                self.states[index] = BufferState::Acquired;
                Some(BorrowedAudioQueueBuffer { index })
            },
        }
    }

    /// The buffer that `handle` stands for.
    pub fn buffer(&self, handle: &BorrowedAudioQueueBuffer) -> (r: &AudioQueueBuffer<S>)
        requires
            self.wf(),
            self.holds(handle),
        ensures
            *r == self.buffers()[handle.spec_index() as int],
    {
        &self.buffers[handle.index]
    }

    /// The samples in use of the buffer that `handle` stands for.
    pub fn samples(&self, handle: &BorrowedAudioQueueBuffer) -> (r: &[S])
        requires
            self.wf(),
            self.holds(handle),
        ensures
            r@ == self.buffers()[handle.spec_index() as int]@,
    {
        self.buffers[handle.index].samples()
    }

    /// Sets the number of samples in use of the buffer that `handle` stands
    /// for to `len`, or to the capacity where `len` is beyond it.
    pub fn resize(&mut self, handle: &BorrowedAudioQueueBuffer, len: usize)
        requires
            old(self).wf(),
            old(self).holds(handle),
        ensures
            final(self).wf(),
            final(self).places() == old(self).places(),
            final(self).spec_buffer_size() == old(self).spec_buffer_size(),
            final(self).spec_is_running() == old(self).spec_is_running(),
            final(self).buffers() == old(self).buffers().update(
                handle.spec_index() as int,
                old(self).buffers()[handle.spec_index() as int].resized(len),
            ),
    {
        proof {
            lemma_resize_clamps_and_is_idempotent(self.buffers()[handle.spec_index() as int], len);
        }
        self.buffers[handle.index].resize(len);
    }

    /// The sample at `index` of the buffer that `handle` stands for, to
    /// write to.
    pub fn samples_mut(&mut self, handle: &BorrowedAudioQueueBuffer, index: usize) -> (r: &mut S)
        requires
            old(self).wf(),
            old(self).holds(handle),
            index < old(self).buffers()[handle.spec_index() as int].spec_len(),
        ensures
            *r == old(self).buffers()[handle.spec_index() as int]@[index as int],
            final(self).wf(),
            final(self).places() == old(self).places(),
            final(self).spec_buffer_size() == old(self).spec_buffer_size(),
            final(self).spec_is_running() == old(self).spec_is_running(),
            final(self).spec_len() == old(self).spec_len(),
            forall|i: int|
                0 <= i < old(self).spec_len() && i != handle.spec_index() ==> (
                #[trigger] final(self).buffers()[i]) == old(self).buffers()[i],
            ({
                let before = old(self).buffers()[handle.spec_index() as int];
                let after = final(self).buffers()[handle.spec_index() as int];
                &&& after.storage() == before.storage().update(index as int, *final(r))
                &&& after.spec_len() == before.spec_len()
            }),
    {
        self.buffers[handle.index].samples_mut(index)
    }

    /// Takes in the host's report that it is done with the buffer with
    /// `index`: the buffer is free again, behind those that were free before.
    /// A report for a buffer that is not with the host changes nothing.
    pub fn buffer_completed(&mut self, index: usize) -> (r: bool)
        requires
            old(self).wf(),
        ensures
            final(self).wf(),
            final(self).same_buffers(old(self)),
            final(self).places() == old(self).places().complete(index),
            r <==> index < old(self).spec_len() && old(self).places().states[index as int]
                == BufferState::Enqueued,
    {
        if index >= self.buffers.len() {
            return false;
        }
        match self.states[index] {
            BufferState::Enqueued => {
                self.put_back(index);
                true
            },
            _ => false,
        }
    }

    /// Makes the buffer with `index`, which is not free, free again.
    fn put_back(&mut self, index: usize)
        requires
            old(self).wf(),
            index < old(self).spec_len(),
            old(self).places().states[index as int] != BufferState::Free,
        ensures
            final(self).wf(),
            final(self).same_buffers(old(self)),
            final(self).places() == old(self).places().put_back(index),
    {
        proof {
            lemma_put_back(self.places(), index);
        }
        self.states[index] = BufferState::Free;
        self.ready.push_back(index);
    }

    /// What to ask of the host when the pool is given up, in order: to stop
    /// the stream, to release each buffer, then to dispose of the queue. None
    /// of the answers matters: each call is made whatever the one before said.
    pub fn teardown(self) -> (r: Vec<QueueCall>)
        ensures
            r@ == teardown_plan(self.spec_len()),
    {
        let mut calls: Vec<QueueCall> = Vec::new();
        calls.push(QueueCall::Stop);
        let n = self.buffers.len();
        let mut i: usize = 0;
        while i < n
            invariant
                i <= n,
                calls@ == seq![QueueCall::Stop] + Seq::new(
                    i as nat,
                    |k: int| QueueCall::FreeBuffer(k as usize),
                ),
            decreases n - i,
        {
            calls.push(QueueCall::FreeBuffer(i));
            i += 1;
        }
        calls.push(QueueCall::Dispose);
        calls
    }
}

/// What the teardown of a pool of `count` buffers asks of the host: to stop,
/// to release the buffers in the order of their indices, to dispose.
pub open spec fn teardown_plan(count: nat) -> Seq<QueueCall> {
    seq![QueueCall::Stop] + Seq::new(count, |k: int| QueueCall::FreeBuffer(k as usize)) + seq![
        QueueCall::Dispose,
    ]
}

impl BorrowedAudioQueueBuffer {
    /// Gives the buffer to the host, with what the host said to it. On
    /// success the buffer is with the host until the host reports it done.
    /// Where the host refused it, the buffer is free again.
    pub fn enqueue<S>(self, output: &mut AudioQueueOutput<S>, status: OSStatus) -> (r: Result<
        (),
        CAError,
    >)
        requires
            old(output).wf(),
            old(output).holds(&self),
        ensures
            final(output).wf(),
            final(output).same_buffers(old(output)),
            r is Ok <==> status == 0,
            r matches Err(e) ==> e.stands_for(status as int),
            final(output).places() == if status == 0 {
                old(output).places().submit(self.spec_index())
            } else {
                old(output).places().put_back(self.spec_index())
            },
    {
        match CAError::from_os_status(status) {
            Ok(()) => {
                proof {
                    lemma_submit(output.places(), self.index);
                }
                output.states[self.index] = BufferState::Enqueued;
                Ok(())
            },
            Err(e) => {
                output.put_back(self.index);
                Err(e)
            },
        }
    }

    /// Gives the buffer back unused: it is free again at once, behind those
    /// that were free before.
    pub fn release<S>(self, output: &mut AudioQueueOutput<S>)
        requires
            old(output).wf(),
            old(output).holds(&self),
        ensures
            final(output).wf(),
            final(output).same_buffers(old(output)),
            final(output).places() == old(output).places().put_back(self.spec_index()),
    {
        output.put_back(self.index);
    }
}

/// What an application does with the audio that the host has recorded.
pub trait InputCallback<S> {
    /// Whether the callback stands as it does after it has taken in
    /// `samples`, stamped `start_time`. A callback that keeps no record of
    /// what it takes in says yes to every question.
    open spec fn received(&self, start_time: TimeStamp, samples: Seq<S>) -> bool {
        true
    }

    /// Takes in the samples in use of `buffer`, recorded from `start_time`.
    fn audio_input(&mut self, start_time: TimeStamp, buffer: &AudioQueueBuffer<S>)
        requires
            buffer.wf(),
        ensures
            final(self).received(start_time, buffer@),
    ;
}

/// A boxed callback is a callback: it does what the one in the box does. With
/// it a queue can own a callback whose type it does not name.
impl<S> InputCallback<S> for Box<dyn InputCallback<S>> {
    open spec fn received(&self, start_time: TimeStamp, samples: Seq<S>) -> bool {
        (**self).received(start_time, samples)
    }

    fn audio_input(&mut self, start_time: TimeStamp, buffer: &AudioQueueBuffer<S>) {
        (**self).audio_input(start_time, buffer)
    }
}

/// A queue for input: it owns the callback of the application and hands it
/// what the host has recorded.
pub struct AudioQueueInput<S, C: InputCallback<S>> {
    callback: C,
    running: bool,
    _ph: core::marker::PhantomData<S>,
}

impl<S, C: InputCallback<S>> AudioQueueInput<S, C> {
    /// The callback of the application.
    pub closed spec fn callback(&self) -> C {
        self.callback
    }

    /// Whether the stream is running.
    pub closed spec fn spec_is_running(&self) -> bool {
        self.running
    }

    /// A queue that hands the audio of a stream of `format` to `callback`.
    /// The queue is refused where a sample of `format` does not have the size
    /// of `S`.
    pub fn new(format: &StreamFormat, callback: C) -> (r: Result<Self, CAError>)
        requires
            format.spec_description().is_supported(),
        ensures
            r is Ok <==> format.spec_description().sample_format()->0.spec_size_in_bytes()
                == vstd::layout::size_of::<S>(),
            r matches Err(e) ==> e == CAError::AudioUnitError(AudioUnitError::FormatNotSupported),
            r matches Ok(q) ==> q.callback() == callback && !q.spec_is_running(),
    {
        if format.sample_format().size_in_bytes() != core::mem::size_of::<S>() {
            return Err(CAError::AudioUnitError(AudioUnitError::FormatNotSupported));
        }
        Ok(AudioQueueInput { callback, running: false, _ph: core::marker::PhantomData })
    }

    /// Whether the stream is running.
    pub fn is_running(&self) -> (r: bool)
        ensures
            r == self.spec_is_running(),
    {
        self.running
    }

    /// Records what the host said to the request to start the stream: on
    /// success the stream runs, else nothing changes.
    pub fn start(&mut self, status: OSStatus) -> (r: Result<(), CAError>)
        ensures
            r is Ok <==> status == 0,
            r matches Err(e) ==> e.stands_for(status as int),
            final(self).callback() == old(self).callback(),
            final(self).spec_is_running() == (status == 0 || old(self).spec_is_running()),
    {
        CAError::from_os_status(status)?;
        self.running = true;
        Ok(())
    }

    /// Records what the host said to the request to stop the stream: on
    /// success the stream no longer runs, else nothing changes.
    pub fn stop(&mut self, status: OSStatus) -> (r: Result<(), CAError>)
        ensures
            r is Ok <==> status == 0,
            r matches Err(e) ==> e.stands_for(status as int),
            final(self).callback() == old(self).callback(),
            final(self).spec_is_running() == (status != 0 && old(self).spec_is_running()),
    {
        CAError::from_os_status(status)?;
        self.running = false;
        Ok(())
    }

    /// Hands to the callback what the host has recorded: the samples in use
    /// of `buffer`, with the time at which they start.
    pub fn dispatch(&mut self, start_time: TimeStamp, buffer: &AudioQueueBuffer<S>)
        requires
            buffer.wf(),
        ensures
            final(self).callback().received(start_time, buffer@),
            final(self).spec_is_running() == old(self).spec_is_running(),
    {
        self.callback.audio_input(start_time, buffer);
    }

    /// What to ask of the host when the queue is given up, in order: to stop
    /// the stream, then to dispose of the queue. The callback comes back to
    /// the caller, who lets go of it once the host has disposed of the queue
    /// and can call it no more.
    pub fn teardown(self) -> (r: (Vec<QueueCall>, C))
        ensures
            r.0@ == seq![QueueCall::Stop, QueueCall::Dispose],
            r.1 == self.callback(),
    {
        let mut calls: Vec<QueueCall> = Vec::new();
        calls.push(QueueCall::Stop);
        calls.push(QueueCall::Dispose);
        (calls, self.callback)
    }
}

} // verus!
