//! The two ends of the oscilloscope: the ingest side, run from the audio
//! callback, cuts the raw stream into windows; the plot side, run from the
//! render loop, fetches the latest window.

use vstd::prelude::*;
use crate::interval::{WINDOW_LEN, capture_interval, interval_for};
use crate::window::{windows, pending, lemma_push};

verus! {

/// Consumer end: what the renderer draws from.
#[verifier::reject_recursive_types(T)]
pub struct Plot<T: Copy + Send> {
    consume_handle: triple_buffer::Output<[T; 512]>,
}

/// Producer end: accumulates raw samples into windows and publishes them.
#[verifier::reject_recursive_types(T)]
pub struct PlotIngest<T: Copy + Send> {
    publish_handle: triple_buffer::Input<[T; 512]>,
    buffer: Vec<T>,
    interval: u32,
    clock: u32,
    /// Every raw sample handed to `process` so far.
    stream: Ghost<Seq<T>>,
    /// Every window handed to the triple buffer so far, in order.
    sent: Ghost<Seq<Seq<T>>>,
}

/// Copies a full accumulation buffer into a window.
fn window_of<T: Copy>(buffer: &Vec<T>) -> (w: [T; 512])
    requires
        buffer@.len() == WINDOW_LEN,
    ensures
        w@ == buffer@,
{
    let mut w = [buffer[0]; 512];
    let mut i: usize = 1;
    while i < WINDOW_LEN
        invariant
            1 <= i <= WINDOW_LEN,
            buffer@.len() == WINDOW_LEN,
            w@.len() == WINDOW_LEN,
            forall|j: int| 0 <= j < i ==> w@[j] == buffer@[j],
        decreases WINDOW_LEN - i,
    {
        w[i] = buffer[i];
        i += 1;
    }
    assert(w@ =~= buffer@);
    w
}

impl<T: Copy + Send> PlotIngest<T> {
    /// The raw samples processed so far.
    pub closed spec fn samples(&self) -> Seq<T> {
        self.stream@
    }

    /// The windows published so far, oldest first.
    pub closed spec fn sent(&self) -> Seq<Seq<T>> {
        self.sent@
    }

    /// The capture interval this ingest was built with.
    pub closed spec fn cycle_len(&self) -> nat {
        self.interval as nat
    }

    /// The state agrees with the model of the samples seen so far.
    pub closed spec fn wf(&self) -> bool {
        let n = self.stream@.len();
        &&& self.interval as nat >= WINDOW_LEN as nat
        &&& self.clock as nat == n % (self.interval as nat)
        &&& self.buffer@ == pending(self.stream@, self.interval as nat)
        &&& self.sent@ == windows(self.stream@, self.interval as nat)
    }

    /// The capture interval, in raw samples.
    pub fn interval(&self) -> (r: u32)
        requires
            self.wf(),
        ensures
            r as nat == self.cycle_len(),
    {
        self.interval
    }

    /// Position in the current capture cycle: raw samples since it began.
    pub fn clock(&self) -> (r: u32)
        requires
            self.wf(),
        ensures
            r as nat == self.samples().len() % self.cycle_len(),
    {
        self.clock
    }

    /// Number of samples waiting in the accumulation buffer.
    pub fn buffered(&self) -> (r: usize)
        requires
            self.wf(),
        ensures
            r as nat == pending(self.samples(), self.cycle_len()).len(),
    {
        self.buffer.len()
    }

    /// Takes one raw sample.
    fn ingest(&mut self, sample: T)
        requires
            old(self).wf(),
        ensures
            final(self).wf(),
            final(self).samples() == old(self).samples().push(sample),
            final(self).cycle_len() == old(self).cycle_len(),
    {
        proof {
            lemma_push(self.stream@, sample, self.interval as nat);
        }
        if self.clock < WINDOW_LEN as u32 {
            self.buffer.push(sample);
            if self.buffer.len() == WINDOW_LEN {
                let window = window_of(&self.buffer);
                self.publish_handle.write(window);
                self.sent = Ghost(self.sent@.push(window@));
                self.buffer.clear();
            }
        }
        self.clock += 1;
        if self.clock == self.interval {
            self.clock = 0;
        }
        self.stream = Ghost(self.stream@.push(sample));
    }

    /// Feeds a chunk of raw samples. Chunk boundaries mean nothing: the
    /// windows published are those of the whole stream so far.
    pub fn process(&mut self, data: &[T])
        requires
            old(self).wf(),
        ensures
            final(self).wf(),
            final(self).cycle_len() == old(self).cycle_len(),
            final(self).samples() == old(self).samples() + data@,
            final(self).sent() == windows(final(self).samples(), final(self).cycle_len()),
    {
        let mut i: usize = 0;
        while i < data.len()
            invariant
                i <= data@.len(),
                self.wf(),
                self.cycle_len() == old(self).cycle_len(),
                self.samples() == old(self).samples() + data@.subrange(0, i as int),
            decreases data@.len() - i,
        {
            self.ingest(data[i]);
            proof {
                assert(data@.subrange(0, i + 1) =~= data@.subrange(0, i as int).push(data@[i as int]));
            }
            i += 1;
        }
        proof {
            assert(data@.subrange(0, i as int) =~= data@);
        }
    }
}

impl<T: Copy + Default + Send> Plot<T> {
    /// Builds both ends for a stream of `sample_rate` samples per second. The
    /// shared slot starts out holding a window of `T::default()` (silence);
    /// no sample has been seen and no window sent yet.
    pub fn new_and_receiver(sample_rate: u32) -> (r: (Self, PlotIngest<T>))
        ensures
            r.1.wf(),
            r.1.samples() == Seq::<T>::empty(),
            r.1.sent() == Seq::<Seq<T>>::empty(),
            r.1.cycle_len() == interval_for(sample_rate as nat),
    {
        let silence: T = T::default();
        let buffer = triple_buffer::TripleBuffer::new([silence; 512]);
        let (buf_in, buf_out) = buffer.split();
        let interval = capture_interval(sample_rate);
        let ingest = PlotIngest {
            publish_handle: buf_in,
            buffer: Vec::with_capacity(WINDOW_LEN),
            interval,
            clock: 0,
            stream: Ghost(Seq::empty()),
            sent: Ghost(Seq::empty()),
        };
        proof {
            assert(0nat % (interval as nat) == 0nat) by (nonlinear_arith)
                requires interval > 0;
            assert(ingest.buffer@ =~= pending(ingest.stream@, interval as nat));
            assert(ingest.sent@ =~= windows(ingest.stream@, interval as nat));
        }
        (Plot { consume_handle: buf_out }, ingest)
    }
}

impl<T: Copy + Send> Plot<T> {
    /// The latest window published by the ingest side, or the initial window
    /// if none has been published yet. Never blocks; which window that is
    /// depends on the producer thread's progress.
    pub fn read_latest(&mut self) -> (r: [T; 512]) {
        *self.consume_handle.read()
    }
}

} // verus!
