//! Buffer lists: several buffers of samples in one structure.
//!
//! A list holds its samples in one region and describes each buffer by the
//! number of its channels, its length in bytes, and the place in the region
//! where it starts. The buffers lie in the region one after the other, in
//! the order of the list, and fill it from end to end.

use vstd::prelude::*;
use vstd::arithmetic::div_mod::lemma_div_by_multiple;
use core::marker::PhantomData;

verus! {

/// The description of one buffer of a list.
#[derive(Debug)]
pub struct AudioBuffer<S> {
    channels: u32,
    data_byte_size: u32,
    offset: usize,
    _ph: PhantomData<S>,
}

impl<S> Clone for AudioBuffer<S> {
    fn clone(&self) -> (r: Self)
        ensures
            r == *self,
    {
        AudioBuffer {
            channels: self.channels,
            data_byte_size: self.data_byte_size,
            offset: self.offset,
            _ph: PhantomData,
        }
    }
}

impl<S> Copy for AudioBuffer<S> {

}

/// The number of whole samples of type `S` in `bytes` bytes. A type without
/// size has no samples.
pub open spec fn samples_in<S>(bytes: nat) -> nat {
    if vstd::layout::size_of::<S>() == 0 {
        0
    } else {
        bytes / vstd::layout::size_of::<S>()
    }
}

/// The number of whole samples of type `S` in `bytes` bytes.
pub fn sample_count<S>(bytes: u32) -> (r: usize)
    ensures
        r == samples_in::<S>(bytes as nat),
{
    let size = core::mem::size_of::<S>();
    if size == 0 {
        0
    } else {
        bytes as usize / size
    }
}

impl<S> AudioBuffer<S> {
    /// The number of interleaved channels.
    pub closed spec fn spec_channels(&self) -> u32 {
        self.channels
    }

    /// The length of the samples in bytes.
    pub closed spec fn spec_data_byte_size(&self) -> u32 {
        self.data_byte_size
    }

    /// Where the samples start in the region of the list, counted in samples.
    pub closed spec fn spec_offset(&self) -> usize {
        self.offset
    }

    /// The number of samples, from the length in bytes and the size of one
    /// sample.
    pub open spec fn spec_len(&self) -> nat {
        samples_in::<S>(self.spec_data_byte_size() as nat)
    }

    /// The number of frames: the samples shared out among the channels. A
    /// buffer without channels has no frames.
    pub open spec fn spec_frames(&self) -> nat {
        if self.spec_channels() == 0 {
            0
        } else {
            self.spec_len() / (self.spec_channels() as nat)
        }
    }

    /// Where the samples end in the region of the list.
    pub open spec fn spec_end(&self) -> int {
        self.spec_offset() + self.spec_len()
    }

    /// The number of interleaved channels.
    pub fn channels(&self) -> (r: usize)
        ensures
            r == self.spec_channels(),
    {
        self.channels as usize
    }

    /// The length of the samples in bytes.
    pub fn data_byte_size(&self) -> (r: u32)
        ensures
            r == self.spec_data_byte_size(),
    {
        self.data_byte_size
    }

    /// Where the samples start in the region of the list, counted in samples.
    pub fn offset(&self) -> (r: usize)
        ensures
            r == self.spec_offset(),
    {
        self.offset
    }

    /// The number of samples.
    pub fn len(&self) -> (r: usize)
        ensures
            r == self.spec_len(),
    {
        sample_count::<S>(self.data_byte_size)
    }

    /// The number of frames. Channels are interleaved, so that a frame holds
    /// one sample of each channel.
    pub fn frames(&self) -> (r: usize)
        ensures
            r == self.spec_frames(),
    {
        if self.channels == 0 {
            0
        } else {
            self.len() / (self.channels as usize)
        }
    }
}

/// A list of buffers over one region of samples. An owned list has made its
/// region itself; a borrowed one stands for memory of the host.
#[derive(Debug)]
pub struct AudioBufferList<S> {
    buffers: Vec<AudioBuffer<S>>,
    data: Vec<S>,
    owned: bool,
}

impl<S> AudioBufferList<S> {
    /// The descriptions of the buffers, in the order of the list.
    pub closed spec fn descriptors(&self) -> Seq<AudioBuffer<S>> {
        self.buffers@
    }

    /// The region that holds the samples of all the buffers.
    pub closed spec fn storage(&self) -> Seq<S> {
        self.data@
    }

    /// Whether the list has made its region itself.
    pub closed spec fn spec_is_owned(&self) -> bool {
        self.owned
    }

    /// The number of buffers.
    pub open spec fn spec_len(&self) -> nat {
        self.descriptors().len()
    }

    /// The samples of the buffer with `index`.
    pub open spec fn spec_samples(&self, index: int) -> Seq<S> {
        self.storage().subrange(
            self.descriptors()[index].spec_offset() as int,
            self.descriptors()[index].spec_end(),
        )
    }

    /// The buffers lie in the region one after the other and fill it: the
    /// first starts where the region starts, each next one where the one
    /// before it ends, and the last ends where the region ends. So no two
    /// buffers overlap, and no sample of the region is outside every buffer.
    /// The number of buffers fits the 32 bits in which the host counts them.
    pub open spec fn wf(&self) -> bool {
        &&& self.spec_len() <= u32::MAX
        &&& self.spec_len() == 0 ==> self.storage().len() == 0
        &&& self.spec_len() > 0 ==> self.descriptors()[0].spec_offset() == 0
            && self.descriptors()[self.spec_len() - 1].spec_end() == self.storage().len()
        &&& forall|i: int|
            0 <= i < self.spec_len() - 1 ==> (#[trigger] self.descriptors()[i]).spec_end()
                == self.descriptors()[i + 1].spec_offset()
    }

    /// The number of buffers.
    pub fn len(&self) -> (r: usize)
        ensures
            r == self.spec_len(),
    {
        self.buffers.len()
    }

    /// Whether the list has made its region itself.
    pub fn is_owned(&self) -> (r: bool)
        ensures
            r == self.spec_is_owned(),
    {
        self.owned
    }

    /// The number of samples in the region.
    pub fn capacity(&self) -> (r: usize)
        ensures
            r == self.storage().len(),
    {
        self.data.len()
    }

    /// The number of channels of the first buffer; zero for an empty list.
    pub fn channels(&self) -> (r: usize)
        ensures
            r == if self.spec_len() == 0 {
                0
            } else {
                self.descriptors()[0].spec_channels() as nat
            },
    {
        if self.buffers.len() == 0 {
            0
        } else {
            self.buffers[0].channels()
        }
    }

    /// The number of frames of the first buffer; zero for an empty list.
    pub fn frames(&self) -> (r: usize)
        ensures
            r == if self.spec_len() == 0 {
                0
            } else {
                self.descriptors()[0].spec_frames()
            },
    {
        if self.buffers.len() == 0 {
            0
        } else {
            self.buffers[0].frames()
        }
    }

    /// The descriptions of the buffers, in the order of the list.
    pub fn buffers(&self) -> (r: &[AudioBuffer<S>])
        ensures
            r@ == self.descriptors(),
    {
        self.buffers.as_slice()
    }

    /// An owned list of `buffers` buffers, each with room for `frames` frames
    /// of `channels` interleaved channels. For stereo with a buffer for each
    /// channel that is 2 buffers of 1 channel; for interleaved stereo, 1
    /// buffer of 2 channels. The region holds `buffers * channels * frames`
    /// samples, and is cut into `buffers` pieces of the same length. A list
    /// of no buffers is empty: it has no region, no channels and no frames.
    pub fn new(buffers: usize, channels: usize, frames: usize) -> (r: Self) where S: Default
        requires
            vstd::layout::size_of::<S>() > 0,
            buffers <= u32::MAX,
            channels <= u32::MAX,
            channels * frames * vstd::layout::size_of::<S>() <= u32::MAX,
            buffers * (channels * frames) <= usize::MAX,
        ensures
            r.wf(),
            r.spec_is_owned(),
            r.spec_len() == buffers,
            r.storage().len() == buffers * (channels * frames),
            forall|i: int|
                0 <= i < buffers ==> {
                    let d = #[trigger] r.descriptors()[i];
                    &&& d.spec_channels() == channels
                    &&& d.spec_data_byte_size() == channels * frames * vstd::layout::size_of::<S>()
                    &&& d.spec_offset() == i * (channels * frames)
                    &&& d.spec_len() == channels * frames
                    &&& channels > 0 ==> d.spec_frames() == frames
                },
            forall|k: int|
                0 <= k < r.storage().len() ==> call_ensures(
                    S::default,
                    (),
                    #[trigger] r.storage()[k],
                ),
    {
        let size = core::mem::size_of::<S>();
        assert(channels * frames <= channels * frames * size) by (nonlinear_arith)
            requires
                size >= 1,
                channels * frames >= 0,
        ;
        let samples_per_buffer = channels * frames;
        let bytes_per_buffer = samples_per_buffer * size;
        let samples_total = buffers * samples_per_buffer;
        proof {
            lemma_div_by_multiple(samples_per_buffer as int, size as int);
            if channels > 0 {
                assert(samples_per_buffer == frames * channels) by (nonlinear_arith)
                    requires
                        samples_per_buffer == channels * frames,
                ;
                lemma_div_by_multiple(frames as int, channels as int);
            }
        }

        let mut data: Vec<S> = Vec::new();
        let mut k: usize = 0;
        while k < samples_total
            invariant
                k <= samples_total,
                data@.len() == k,
                forall|j: int| 0 <= j < k ==> call_ensures(S::default, (), #[trigger] data@[j]),
            decreases samples_total - k,
        {
            data.push(S::default());
            k += 1;
        }

        let mut list: Vec<AudioBuffer<S>> = Vec::new();
        let mut offset: usize = 0;
        let mut i: usize = 0;
        while i < buffers
            invariant
                i <= buffers,
                samples_total == buffers * samples_per_buffer,
                samples_per_buffer == channels * frames,
                bytes_per_buffer == samples_per_buffer * size,
                bytes_per_buffer <= u32::MAX,
                channels <= u32::MAX,
                offset == i * samples_per_buffer,
                list@.len() == i,
                forall|j: int|
                    0 <= j < i ==> {
                        let d = #[trigger] list@[j];
                        &&& d.spec_channels() == channels
                        &&& d.spec_data_byte_size() == bytes_per_buffer
                        &&& d.spec_offset() == j * samples_per_buffer
                    },
            decreases buffers - i,
        {
            list.push(
                AudioBuffer {
                    channels: channels as u32,
                    data_byte_size: bytes_per_buffer as u32,
                    offset,
                    _ph: PhantomData,
                },
            );
            assert((i + 1) * samples_per_buffer == i * samples_per_buffer + samples_per_buffer
                && (i + 1) * samples_per_buffer <= buffers * samples_per_buffer)
                by (nonlinear_arith)
                requires
                    i < buffers,
                    samples_per_buffer >= 0,
            ;
            offset = offset + samples_per_buffer;
            i += 1;
        }
        let r = AudioBufferList { buffers: list, data, owned: true };
        proof {
            assert forall|j: int| 0 <= j < buffers implies (#[trigger] r.descriptors()[j]).spec_end()
                == (j + 1) * samples_per_buffer by {
                assert((j + 1) * samples_per_buffer == j * samples_per_buffer + samples_per_buffer)
                    by (nonlinear_arith);
            }
            if buffers == 0 {
                assert(samples_total == 0) by (nonlinear_arith)
                    requires
                        samples_total == buffers * samples_per_buffer,
                        buffers == 0,
                ;
            }
        }
        r
    }

    /// An empty list that stands for memory of the host. The buffers of the
    /// host are added one by one.
    pub fn borrow() -> (r: Self)
        ensures
            r.wf(),
            !r.spec_is_owned(),
            r.spec_len() == 0,
            r.storage().len() == 0,
    {
        AudioBufferList { buffers: Vec::new(), data: Vec::new(), owned: false }
    }

    /// Adds to a borrowed list a buffer of the host with `channels` channels
    /// that holds `samples`. The buffer lies behind those that the list has.
    pub fn push(&mut self, channels: u32, samples: Vec<S>)
        requires
            old(self).wf(),
            !old(self).spec_is_owned(),
            vstd::layout::size_of::<S>() > 0,
            old(self).spec_len() < u32::MAX,
            samples@.len() * vstd::layout::size_of::<S>() <= u32::MAX,
            old(self).storage().len() + samples@.len() <= usize::MAX,
        ensures
            final(self).wf(),
            !final(self).spec_is_owned(),
            final(self).storage() == old(self).storage() + samples@,
            final(self).spec_len() == old(self).spec_len() + 1,
            final(self).descriptors().drop_last() == old(self).descriptors(),
            ({
                let d = final(self).descriptors().last();
                &&& d.spec_channels() == channels
                &&& d.spec_data_byte_size() == samples@.len() * vstd::layout::size_of::<S>()
                &&& d.spec_offset() == old(self).storage().len()
                &&& d.spec_len() == samples@.len()
            }),
    {
        let size = core::mem::size_of::<S>();
        let count = samples.len();
        let offset = self.data.len();
        proof {
            lemma_div_by_multiple(count as int, size as int);
        }
        let mut samples = samples;
        self.data.append(&mut samples);
        self.buffers.push(
            AudioBuffer {
                channels,
                data_byte_size: (count * size) as u32,
                offset,
                _ph: PhantomData,
            },
        );
    }

    /// The samples of the buffer with `index`.
    pub fn samples(&self, index: usize) -> (r: &[S])
        requires
            self.wf(),
            index < self.spec_len(),
        ensures
            r@ == self.spec_samples(index as int),
    {
        proof {
            lemma_buffers_lie_in_order(self, index as int, self.spec_len() - 1);
        }
        let start = self.buffers[index].offset;
        let count = self.buffers[index].len();
        assert(self.data@.len() == self.data.len());
        &self.data[start..start + count]
    }

    /// The sample at `sample` of the buffer with `index`, to write to.
    pub fn samples_mut(&mut self, index: usize, sample: usize) -> (r: &mut S)
        requires
            old(self).wf(),
            index < old(self).spec_len(),
            sample < old(self).descriptors()[index as int].spec_len(),
        ensures
            *r == old(self).spec_samples(index as int)[sample as int],
            final(self).wf(),
            final(self).descriptors() == old(self).descriptors(),
            final(self).spec_is_owned() == old(self).spec_is_owned(),
            final(self).storage() == old(self).storage().update(
                old(self).descriptors()[index as int].spec_offset() + sample,
                *final(r),
            ),
    {
        proof {
            lemma_buffers_lie_in_order(self, index as int, self.spec_len() - 1);
        }
        let start = self.buffers[index].offset;
        assert(self.data@.len() == self.data.len());
        &mut self.data[start + sample]
    }

    /// The number of bytes that the host's form of the list takes, where the
    /// host's list with room for one buffer takes `list_bytes` bytes and the
    /// description of one buffer `buffer_bytes`: every buffer after the first
    /// takes room behind the host's list. Nothing where the number does not
    /// fit.
    pub fn header_byte_size(&self, list_bytes: usize, buffer_bytes: usize) -> (r: Option<usize>)
        ensures
            match r {
                Some(bytes) => bytes == header_bytes(self.spec_len(), list_bytes, buffer_bytes),
                None => header_bytes(self.spec_len(), list_bytes, buffer_bytes) > usize::MAX,
            },
    {
        let extra = if self.buffers.len() == 0 {
            0
        } else {
            self.buffers.len() - 1
        };
        match extra.checked_mul(buffer_bytes) {
            Some(tail) => list_bytes.checked_add(tail),
            None => None,
        }
    }
}

/// The number of bytes that the host's form of a list of `buffers` buffers
/// takes: the host's list has room for one buffer, and each further buffer
/// takes the room of one description more.
pub open spec fn header_bytes(buffers: nat, list_bytes: usize, buffer_bytes: usize) -> int {
    if buffers == 0 {
        list_bytes as int
    } else {
        list_bytes + (buffers - 1) * buffer_bytes
    }
}

/// A buffer ends no later than a buffer behind it.
proof fn lemma_ends_are_ordered<S>(list: &AudioBufferList<S>, i: int, j: int)
    requires
        list.wf(),
        0 <= i <= j < list.spec_len(),
    ensures
        list.descriptors()[i].spec_end() <= list.descriptors()[j].spec_end(),
        i < j ==> list.descriptors()[i].spec_end() <= list.descriptors()[j].spec_offset(),
    decreases j - i,
{
    if i < j {
        lemma_ends_are_ordered(list, i + 1, j);
    }
}

/// The buffers of a list lie in the region in the order of the list: a
/// buffer ends before one behind it starts, so no two buffers overlap, and
/// every buffer lies within the region.
pub proof fn lemma_buffers_lie_in_order<S>(list: &AudioBufferList<S>, i: int, j: int)
    requires
        list.wf(),
        0 <= i <= j < list.spec_len(),
    ensures
        i < j ==> list.descriptors()[i].spec_end() <= list.descriptors()[j].spec_offset(),
        list.descriptors()[i].spec_end() <= list.storage().len(),
        list.descriptors()[j].spec_end() <= list.storage().len(),
{
    lemma_ends_are_ordered(list, i, j);
    lemma_ends_are_ordered(list, i, list.spec_len() - 1);
    lemma_ends_are_ordered(list, j, list.spec_len() - 1);
}

/// Whether the sample at `place` of the region belongs to the buffer with
/// `index`.
pub open spec fn holds_sample<S>(list: &AudioBufferList<S>, index: int, place: int) -> bool {
    &&& 0 <= index < list.spec_len()
    &&& list.descriptors()[index].spec_offset() <= place < list.descriptors()[index].spec_end()
}

/// Every sample of the region belongs to exactly one buffer: the buffers
/// share out the whole region among them, and nothing twice.
pub proof fn lemma_every_sample_is_in_one_buffer<S>(list: &AudioBufferList<S>, place: int)
    requires
        list.wf(),
        0 <= place < list.storage().len(),
    ensures
        exists|i: int| holds_sample(list, i, place),
        forall|i: int, j: int|
            holds_sample(list, i, place) && holds_sample(list, j, place) ==> i == j,
{
    lemma_some_buffer_holds(list, place, list.spec_len() - 1);
    assert forall|i: int, j: int|
        holds_sample(list, i, place) && holds_sample(list, j, place) implies i == j by {
        if i < j {
            lemma_ends_are_ordered(list, i, j);
        } else if j < i {
            lemma_ends_are_ordered(list, j, i);
        }
    }
}

/// A sample that lies before the end of the buffer with `last` belongs to
/// that buffer or to one before it.
proof fn lemma_some_buffer_holds<S>(list: &AudioBufferList<S>, place: int, last: int)
    requires
        list.wf(),
        0 <= last < list.spec_len(),
        0 <= place < list.descriptors()[last].spec_end(),
    ensures
        exists|i: int| holds_sample(list, i, place),
    decreases last,
{
    if list.descriptors()[last].spec_offset() <= place {
        assert(holds_sample(list, last, place));
    } else {
        lemma_some_buffer_holds(list, place, last - 1);
    }
}

} // verus!
