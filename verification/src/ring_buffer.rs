//! Bounded FIFO of interleaved samples between the capture callback and the
//! render callback. Its model is the sequence of samples that wait to be read,
//! oldest first.

use vstd::prelude::*;

verus! {

/// Ring buffer of samples with a fixed capacity. Reads past the end of the
/// buffered samples give `silence`.
pub struct SpscRingBuffer<T> {
    data: Vec<T>,
    read: usize,
    len: usize,
    silence: T,
}

/// Contents after offering `samples` to a buffer holding `buffered` with room for
/// `capacity`: the samples that fit are appended, in order; the rest are dropped.
pub open spec fn after_push<T>(buffered: Seq<T>, capacity: nat, samples: Seq<T>) -> Seq<T> {
    buffered + samples.take(vstd::math::min(samples.len() as int, capacity - buffered.len()))
}

/// The `len` samples that a read of that many gives from a buffer holding
/// `buffered`: the oldest ones, then `silence` for the rest.
pub open spec fn read_block<T>(buffered: Seq<T>, len: int, silence: T) -> Seq<T> {
    let n = vstd::math::min(len, buffered.len() as int);
    buffered.take(n) + Seq::new((len - n) as nat, |k: int| silence)
}

/// Contents after a read of `len` samples from a buffer holding `buffered`.
pub open spec fn after_read<T>(buffered: Seq<T>, len: int) -> Seq<T> {
    buffered.skip(vstd::math::min(len, buffered.len() as int))
}

impl<T: Copy> View for SpscRingBuffer<T> {
    type V = Seq<T>;

    /// The buffered samples, oldest first.
    closed spec fn view(&self) -> Seq<T> {
        Seq::new(self.len as nat, |k: int| self.data@[self.slot(k)])
    }
}

impl<T: Copy> SpscRingBuffer<T> {
    /// Storage slot of the `k`-th oldest buffered sample.
    pub closed spec fn slot(&self, k: int) -> int {
        if self.read + k < self.data.len() {
            self.read + k
        } else {
            self.read + k - self.data.len()
        }
    }

    /// Maximum number of samples the buffer holds.
    pub closed spec fn spec_capacity(&self) -> nat {
        self.data.len() as nat
    }

    /// The value written where a read finds nothing buffered.
    pub closed spec fn spec_silence(&self) -> T {
        self.silence
    }

    /// Internal consistency of the storage and the read position.
    pub closed spec fn well_formed(&self) -> bool {
        &&& self.len <= self.data.len()
        &&& (self.data.len() == 0 ==> self.read == 0)
        &&& (self.data.len() > 0 ==> self.read < self.data.len())
    }

    /// An empty buffer that holds at most `capacity_samples` samples.
    pub fn new(capacity_samples: usize, silence: T) -> (rb: Self)
        ensures
            rb.well_formed(),
            rb@ == Seq::<T>::empty(),
            rb.spec_capacity() == capacity_samples,
            rb.spec_silence() == silence,
    {
        let mut data: Vec<T> = Vec::new();
        let mut i: usize = 0;
        while i < capacity_samples
            invariant
                i <= capacity_samples,
                data.len() == i,
            decreases capacity_samples - i,
        {
            data.push(silence);
            i = i + 1;
        }
        let rb = SpscRingBuffer { data, read: 0, len: 0, silence };
        assert(rb@ =~= Seq::<T>::empty());
        rb
    }

    /// Storage index of the `k`-th oldest sample (`k` may be the free slot after the last).
    fn slot_index(&self, k: usize) -> (i: usize)
        requires
            self.well_formed(),
            k <= self.len,
            k < self.data.len(),
        ensures
            i == self.slot(k as int),
            i < self.data.len(),
    {
        let cap = self.data.len();
        if k < cap - self.read {
            self.read + k
        } else {
            k - (cap - self.read)
        }
    }

    /// Appends samples until the buffer is full; returns how many were taken,
    /// always the first ones of `samples`.
    pub fn push(&mut self, samples: &[T]) -> (written: usize)
        requires
            old(self).well_formed(),
        ensures
            final(self).well_formed(),
            written == vstd::math::min(
                samples@.len() as int,
                old(self).spec_capacity() - old(self)@.len(),
            ),
            final(self)@ == after_push(old(self)@, old(self).spec_capacity(), samples@),
            final(self).spec_capacity() == old(self).spec_capacity(),
            final(self).spec_silence() == old(self).spec_silence(),
    {
        let n = samples.len();
        let cap = self.data.len();
        let mut written: usize = 0;
        while written < n && self.len < cap
            invariant
                self.well_formed(),
                n == samples@.len(),
                cap == self.data.len(),
                cap == old(self).data.len(),
                self.silence == old(self).silence,
                written <= n,
                self.len == old(self).len + written,
                self@ == old(self)@ + samples@.take(written as int),
            decreases n - written,
        {
            let ghost before = self@;
            let idx = self.slot_index(self.len);
            self.data[idx] = samples[written];
            self.len = self.len + 1;
            proof {
                assert forall|k: int| 0 <= k < before.len() implies self@[k] == before[k] by {
                    assert(self.slot(k) != idx);
                }
                assert(self@ =~= before.push(samples@[written as int]));
                assert(samples@.take(written + 1) =~= samples@.take(written as int).push(
                    samples@[written as int],
                ));
            }
            written = written + 1;
        }
        written
    }

    /// Moves the oldest samples into `out`, in order; positions past the buffered
    /// samples get silence. Returns how many samples were read.
    pub fn pop_into(&mut self, out: &mut [T]) -> (read_count: usize)
        requires
            old(self).well_formed(),
        ensures
            final(self).well_formed(),
            read_count == vstd::math::min(old(out)@.len() as int, old(self)@.len() as int),
            final(out)@.len() == old(out)@.len(),
            final(out)@ == read_block(old(self)@, old(out)@.len() as int, old(self).spec_silence()),
            final(self)@ == after_read(old(self)@, old(out)@.len() as int),
            final(self).spec_capacity() == old(self).spec_capacity(),
            final(self).spec_silence() == old(self).spec_silence(),
    {
        let n = out.len();
        let cap = self.data.len();
        let ghost start = self@;
        let mut i: usize = 0;
        let mut read_count: usize = 0;
        while i < n
            invariant
                self.well_formed(),
                n == out@.len(),
                n == old(out)@.len(),
                cap == self.data.len(),
                cap == old(self).data.len(),
                self.silence == old(self).silence,
                start == old(self)@,
                i <= n,
                read_count <= i,
                read_count <= start.len(),
                self.len == start.len() - read_count,
                read_count == i || self.len == 0,
                read_count == vstd::math::min(i as int, start.len() as int),
                self@ == start.skip(read_count as int),
                forall|k: int| 0 <= k < read_count ==> out@[k] == start[k],
                forall|k: int| read_count <= k < i ==> out@[k] == self.silence,
            decreases n - i,
        {
            if self.len == 0 {
                out[i] = self.silence;
            } else {
                let ghost before = self@;
                let ghost old_read = self.read as int;
                assert(before[0] == start[read_count as int]);
                let idx = self.slot_index(0);
                out[i] = self.data[idx];
                self.read = if self.read + 1 == cap {
                    0
                } else {
                    self.read + 1
                };
                self.len = self.len - 1;
                proof {
                    assert forall|k: int| 0 <= k < self.len implies self@[k] == before[k
                        + 1] by {
                        assert(self.slot(k) == (if old_read + k + 1 < cap {
                            old_read + k + 1
                        } else {
                            old_read + k + 1 - cap
                        }));
                    }
                    assert(self@ =~= before.skip(1));
                    assert(start.skip(read_count as int).skip(1) =~= start.skip(
                        read_count + 1,
                    ));
                }
                read_count = read_count + 1;
            }
            i = i + 1;
        }
        proof {
            let pad = Seq::new((n - read_count) as nat, |k: int| self.silence);
            assert(out@ =~= start.take(read_count as int) + pad);
            assert(out@ =~= read_block(start, n as int, self.silence));
        }
        read_count
    }

    /// Number of buffered samples.
    pub fn available(&self) -> (n: usize)
        requires
            self.well_formed(),
        ensures
            n == self@.len(),
    {
        self.len
    }

    /// Maximum number of samples the buffer holds.
    pub fn capacity(&self) -> (n: usize)
        ensures
            n == self.spec_capacity(),
    {
        self.data.len()
    }

    /// The value written where a read finds nothing buffered.
    pub fn silence(&self) -> (s: T)
        ensures
            s == self.spec_silence(),
    {
        self.silence
    }

    /// Drops every buffered sample.
    pub fn clear(&mut self)
        requires
            old(self).well_formed(),
        ensures
            final(self).well_formed(),
            final(self)@ == Seq::<T>::empty(),
            final(self).spec_capacity() == old(self).spec_capacity(),
            final(self).spec_silence() == old(self).spec_silence(),
    {
        self.len = 0;
        assert(self@ =~= Seq::<T>::empty());
    }
}

/// What is read gives back what was written, in order: after samples that fit
/// are written to a buffer, reading everything it holds yields the earlier
/// contents followed by those samples, and leaves it empty.
pub proof fn law_fifo_round_trip<T>(buffered: Seq<T>, capacity: nat, samples: Seq<T>, silence: T)
    requires
        buffered.len() + samples.len() <= capacity,
    ensures
        read_block(
            after_push(buffered, capacity, samples),
            (buffered.len() + samples.len()) as int,
            silence,
        ) == buffered + samples,
        after_read(after_push(buffered, capacity, samples), (buffered.len() + samples.len()) as int)
            == Seq::<T>::empty(),
{
    let all = after_push(buffered, capacity, samples);
    assert(samples.take(samples.len() as int) =~= samples);
    assert(all =~= buffered + samples);
    assert(read_block(all, all.len() as int, silence) =~= buffered + samples);
    assert(after_read(all, all.len() as int) =~= Seq::<T>::empty());
}

/// A full buffer takes nothing more, and a read from an empty buffer gives only
/// silence and leaves it empty.
pub proof fn law_full_and_empty<T>(buffered: Seq<T>, capacity: nat, samples: Seq<T>, len: nat, silence: T)
    requires
        buffered.len() == capacity,
    ensures
        after_push(buffered, capacity, samples) == buffered,
        read_block(Seq::<T>::empty(), len as int, silence) == Seq::new(len, |k: int| silence),
        after_read(Seq::<T>::empty(), len as int) == Seq::<T>::empty(),
{
    assert(after_push(buffered, capacity, samples) =~= buffered);
    assert(read_block(Seq::<T>::empty(), len as int, silence) =~= Seq::new(len, |k: int| silence));
    assert(after_read(Seq::<T>::empty(), len as int) =~= Seq::<T>::empty());
}

} // verus!
