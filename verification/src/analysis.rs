//! Helpers for time domain and frequency analysis.

use vstd::prelude::*;

verus! {

/// Largest transform size, in samples.
pub const MAX_SAMPLES: usize = 32768;

/// Number of blocks that the ring holds: `MAX_SAMPLES / RENDER_QUANTUM_SIZE`.
pub const MAX_QUANTA: usize = 256;

/// The ring position that follows `i`.
pub open spec fn next_index(i: u8) -> u8 {
    if i == 255 {
        0u8
    } else {
        (i + 1) as u8
    }
}

/// The ring position reached from `i` after `n` steps.
pub open spec fn advance(i: u8, n: nat) -> u8
    decreases n,
{
    if n == 0 {
        i
    } else {
        next_index(advance(i, (n - 1) as nat))
    }
}

/// Number of steps from ring position `from` forward to `to`.
pub open spec fn ring_distance(from: u8, to: u8) -> int {
    if to >= from {
        to - from
    } else {
        to - from + 256
    }
}

/// Sample `j` of a readout of `size` samples from `history`, which lists the
/// retained blocks with the oldest first. The readout is the last `size`
/// samples received, in the order of their arrival, the newest at the end:
/// its sample `j` is sample `p` of all that is retained, where `p` counts
/// from the oldest. Where the readout asks for more than is retained, its
/// front is silence.
pub open spec fn time_sample(history: Seq<[u32; 128]>, size: int, j: int) -> u32 {
    let p = history.len() * 128 - size + j;
    if p >= 0 {
        history[p / 128][p % 128]
    } else {
        0u32
    }
}

/// What the ring retains of `history` once `data` has arrived.
pub open spec fn retained(history: Seq<[u32; 128]>, data: [u32; 128]) -> Seq<[u32; 128]> {
    if history.len() < 256 {
        history.push(data)
    } else {
        history.skip(1).push(data)
    }
}

/// Ring buffer for time domain analysis.
pub struct TimeAnalyser {
    buffer: Vec<[u32; 128]>,
    index: u8,
    previous_cycle_index: u8,
}

impl TimeAnalyser {
    /// The ring is at most `MAX_QUANTA` long, and while it grows the write
    /// position is its length.
    pub closed spec fn wf(&self) -> bool {
        &&& self.buffer@.len() <= 256
        &&& self.buffer@.len() < 256 ==> self.index as int == self.buffer@.len()
    }

    /// The retained blocks, oldest first.
    pub closed spec fn history(&self) -> Seq<[u32; 128]> {
        if self.buffer@.len() < 256 {
            self.buffer@
        } else {
            self.buffer@.subrange(self.index as int, 256) + self.buffer@.subrange(
                0,
                self.index as int,
            )
        }
    }

    /// The position that the next block is written to.
    pub closed spec fn index(&self) -> u8 {
        self.index
    }

    /// The write position at the last completed cycle.
    pub closed spec fn previous_cycle_index(&self) -> u8 {
        self.previous_cycle_index
    }

    /// Blocks received since the last completed cycle, counted on the ring.
    pub open spec fn pending(&self) -> int {
        ring_distance(self.previous_cycle_index(), self.index())
    }

    /// The ring never retains more than `MAX_QUANTA` blocks.
    pub proof fn lemma_history_is_bounded(&self)
        requires
            self.wf(),
        ensures
            self.history().len() <= MAX_QUANTA,
    {
    }

    /// Create a new, empty ring.
    pub fn new() -> (ring: Self)
        ensures
            ring.wf(),
            ring.history() == Seq::<[u32; 128]>::empty(),
            ring.index() == 0,
            ring.previous_cycle_index() == 0,
    {
        Self { buffer: Vec::with_capacity(MAX_QUANTA), index: 0, previous_cycle_index: 0 }
    }

    /// Add one block of samples to the ring; once the ring is full the oldest
    /// block leaves.
    pub fn add_data(&mut self, data: [u32; 128])
        requires
            old(self).wf(),
        ensures
            final(self).wf(),
            final(self).history() == retained(old(self).history(), data),
            final(self).index() == next_index(old(self).index()),
            final(self).previous_cycle_index() == old(self).previous_cycle_index(),
    {
        if self.buffer.len() < 256 {
            self.buffer.push(data);
        } else {
            self.buffer.set(self.index as usize, data);
        }
        self.index = self.index.wrapping_add(1);
        proof {
            assert(final(self).history() =~= retained(old(self).history(), data));
        }
    }

    /// Check if we have completed a full round of `fft_size` samples since the
    /// last completed round, and if so start counting anew.
    pub fn check_complete_cycle(&mut self, fft_size: usize) -> (complete: bool)
        requires
            old(self).wf(),
            fft_size > 0,
        ensures
            final(self).wf(),
            complete == ((old(self).pending() * 128) % (fft_size as int) == 0),
            final(self).history() == old(self).history(),
            final(self).index() == old(self).index(),
            final(self).previous_cycle_index() == if complete {
                old(self).index()
            } else {
                old(self).previous_cycle_index()
            },
    {
        let processed: u8 = self.index.wrapping_sub(self.previous_cycle_index);
        let processed_samples: usize = processed as usize * 128;
        if processed_samples % fft_size == 0 {
            self.previous_cycle_index = self.index;
            return true;
        }
        false
    }

    /// Position in the ring of the block that arrived `back` blocks before
    /// the newest.
    fn slot(&self, back: usize) -> (pos: usize)
        requires
            self.wf(),
            back < self.history().len(),
        ensures
            pos < self.buffer@.len(),
            self.buffer@[pos as int] == self.history()[self.history().len() - 1 - back],
    {
        let n: usize = self.buffer.len();
        if n < 256 {
            n - 1 - back
        } else {
            let newest: usize = self.index as usize + 255;
            (newest - back) % 256
        }
    }

    /// Read out the ring (at most `fft_size` samples): the first
    /// `min(fft_size, buffer.len())` slots of `buffer` receive the most
    /// recent samples, the newest at the end of them and silence in front
    /// where the ring holds fewer; the other slots are left as they are.
    pub fn get_float_time(&self, buffer: &mut Vec<u32>, fft_size: usize)
        requires
            self.wf(),
        ensures
            final(buffer)@.len() == old(buffer)@.len(),
            forall|j: int|
                0 <= j < old(buffer)@.len() ==> #[trigger] final(buffer)@[j] == if j < fft_size {
                    time_sample(
                        self.history(),
                        vstd::math::min(fft_size as int, old(buffer)@.len() as int),
                        j,
                    )
                } else {
                    old(buffer)@[j]
                },
    {
        let len: usize = buffer.len();
        let true_size: usize = if fft_size < len {
            fft_size
        } else {
            len
        };
        let held: usize = self.buffer.len();
        let total: usize = held * 128;
        // slots of silence in front, and retained samples that are too old
        let pad: usize = if true_size > total {
            true_size - total
        } else {
            0
        };
        let skip: usize = if total > true_size {
            total - true_size
        } else {
            0
        };
        let mut j: usize = 0;
        while j < true_size
            invariant
                self.wf(),
                held == self.history().len(),
                held <= 256,
                total == held * 128,
                len == old(buffer)@.len(),
                buffer@.len() == len,
                true_size == vstd::math::min(fft_size as int, len as int),
                pad as int == vstd::math::max(true_size - total, 0),
                skip as int == vstd::math::max(total - true_size, 0),
                j <= true_size,
                forall|k: int|
                    0 <= k < j ==> #[trigger] buffer@[k] == time_sample(
                        self.history(),
                        true_size as int,
                        k,
                    ),
                forall|k: int| j <= k < len ==> #[trigger] buffer@[k] == old(buffer)@[k],
            decreases true_size - j,
        {
            let value: u32 = if j < pad {
                0
            } else {
                let p: usize = skip + (j - pad);
                let back: usize = held - 1 - p / 128;
                let pos: usize = self.slot(back);
                self.buffer[pos][p % 128]
            };
            buffer.set(j, value);
            j += 1;
        }
    }
}

/// Number of magnitudes that a transform of `fft_size` samples yields.
pub open spec fn bin_count(fft_size: usize) -> int {
    fft_size / 2 + 1
}

/// `window` holds, slot by slot, what `coefficient` gives for a window of
/// `size` slots.
pub open spec fn is_window<W: Fn(usize, usize) -> u32>(
    window: Seq<u32>,
    size: usize,
    coefficient: W,
) -> bool {
    &&& window.len() == size
    &&& forall|i: int|
        0 <= i < size ==> coefficient.ensures((i as usize, size), #[trigger] window[i])
}

/// Window values for `size` slots: slot `i` holds `coefficient(i, size)`.
pub fn generate_blackman<W: Fn(usize, usize) -> u32>(size: usize, coefficient: W) -> (window:
    Vec<u32>)
    requires
        forall|i: usize| i < size ==> coefficient.requires((i, size)),
    ensures
        is_window(window@, size, coefficient),
{
    let mut window: Vec<u32> = Vec::new();
    let mut i: usize = 0;
    while i < size
        invariant
            i <= size,
            window@.len() == i,
            forall|i: usize| i < size ==> coefficient.requires((i, size)),
            forall|k: int| 0 <= k < i ==> coefficient.ensures((k as usize, size), #[trigger] window@[k]),
        decreases size - i,
    {
        let value: u32 = coefficient(i, size);
        window.push(value);
        i += 1;
    }
    window
}

/// Makes `buffer` hold `len` silent samples, in the space it already has
/// where that is enough.
fn fill_with_silence(buffer: &mut Vec<u32>, len: usize)
    ensures
        final(buffer)@.len() == len,
        forall|i: int| 0 <= i < len ==> #[trigger] final(buffer)@[i] == 0,
{
    buffer.clear();
    let mut i: usize = 0;
    while i < len
        invariant
            i <= len,
            buffer@.len() == i,
            forall|k: int| 0 <= k < i ==> #[trigger] buffer@[k] == 0,
        decreases len - i,
    {
        buffer.push(0);
        i += 1;
    }
}

/// A buffer of `len` silent samples.
fn silence(len: usize) -> (buffer: Vec<u32>)
    ensures
        buffer@.len() == len,
        forall|i: int| 0 <= i < len ==> #[trigger] buffer@[i] == 0,
{
    let mut buffer: Vec<u32> = Vec::new();
    fill_with_silence(&mut buffer, len);
    buffer
}

/// Analyser kernel for time domain and frequency data.
///
/// The kernel keeps the ring of received blocks, the window table, the
/// windowed input and the magnitudes of the last transform, and the smoothed
/// magnitudes. The arithmetic on samples comes from the caller as functions
/// on bit patterns.
pub struct Analyser {
    time: TimeAnalyser,
    fft_input: Vec<u32>,
    fft_output: Vec<u32>,
    current_fft_size: usize,
    previous_block: Vec<u32>,
    blackman: Vec<u32>,
}

impl Analyser {
    /// The ring is well formed, and the window table and the smoothed
    /// magnitudes have the lengths that go with the current transform size.
    pub closed spec fn wf(&self) -> bool {
        &&& self.time.wf()
        &&& self.blackman@.len() == self.current_fft_size
        &&& self.previous_block@.len() == bin_count(self.current_fft_size)
    }

    /// The time domain ring.
    pub closed spec fn time(&self) -> TimeAnalyser {
        self.time
    }

    /// The transform size of the last frequency pass.
    pub closed spec fn fft_size(&self) -> usize {
        self.current_fft_size
    }

    /// The window table.
    pub closed spec fn window(&self) -> Seq<u32> {
        self.blackman@
    }

    /// The windowed samples that the last transform was given.
    pub closed spec fn input(&self) -> Vec<u32> {
        self.fft_input
    }

    /// The magnitudes that the last transform returned.
    pub closed spec fn spectrum(&self) -> Vec<u32> {
        self.fft_output
    }

    /// The smoothed magnitudes.
    pub closed spec fn smoothed(&self) -> Seq<u32> {
        self.previous_block@
    }

    /// Create a new analyser kernel: an empty ring, a window table of
    /// `initial_fft_size` slots and smoothed magnitudes that are all zero.
    pub fn new<W: Fn(usize, usize) -> u32>(
        initial_fft_size: usize,
        coefficient: W,
    ) -> (analyser: Self)
        requires
            forall|i: usize| i < initial_fft_size ==> coefficient.requires((i, initial_fft_size)),
        ensures
            analyser.wf(),
            analyser.time().wf(),
            analyser.time().history() == Seq::<[u32; 128]>::empty(),
            analyser.time().index() == 0,
            analyser.time().previous_cycle_index() == 0,
            analyser.fft_size() == initial_fft_size,
            is_window(analyser.window(), initial_fft_size, coefficient),
            analyser.input()@.len() == initial_fft_size,
            forall|j: int| 0 <= j < initial_fft_size ==> #[trigger] analyser.input()@[j] == 0,
            analyser.spectrum()@.len() == 0,
            analyser.smoothed().len() == bin_count(initial_fft_size),
            forall|k: int|
                0 <= k < bin_count(initial_fft_size) ==> #[trigger] analyser.smoothed()[k] == 0,
    {
        let fft_input = silence(initial_fft_size);
        let previous_block = silence(initial_fft_size / 2 + 1);
        let blackman = generate_blackman(initial_fft_size, coefficient);
        Self {
            time: TimeAnalyser::new(),
            fft_input,
            fft_output: Vec::new(),
            current_fft_size: initial_fft_size,
            previous_block,
            blackman,
        }
    }

    /// The transform size of the last frequency pass.
    pub fn current_fft_size(&self) -> (size: usize)
        ensures
            size == self.fft_size(),
    {
        self.current_fft_size
    }

    /// Add samples to the ring buffer.
    pub fn add_data(&mut self, data: [u32; 128])
        requires
            old(self).wf(),
        ensures
            final(self).wf(),
            final(self).time().wf(),
            final(self).time().history() == retained(old(self).time().history(), data),
            final(self).time().index() == next_index(old(self).time().index()),
            final(self).time().previous_cycle_index() == old(self).time().previous_cycle_index(),
            final(self).fft_size() == old(self).fft_size(),
            final(self).window() == old(self).window(),
            final(self).input() == old(self).input(),
            final(self).spectrum() == old(self).spectrum(),
            final(self).smoothed() == old(self).smoothed(),
    {
        self.time.add_data(data);
    }

    /// Read out the time domain ring buffer (at most `fft_size` samples).
    pub fn get_float_time(&self, buffer: &mut Vec<u32>, fft_size: usize)
        requires
            self.wf(),
        ensures
            final(buffer)@.len() == old(buffer)@.len(),
            forall|j: int|
                0 <= j < old(buffer)@.len() ==> #[trigger] final(buffer)@[j] == if j < fft_size {
                    time_sample(
                        self.time().history(),
                        vstd::math::min(fft_size as int, old(buffer)@.len() as int),
                        j,
                    )
                } else {
                    old(buffer)@[j]
                },
    {
        self.time.get_float_time(buffer, fft_size);
    }

    /// Check if we have completed a full round of `fft_size` samples.
    pub fn check_complete_cycle(&mut self, fft_size: usize) -> (complete: bool)
        requires
            old(self).wf(),
            fft_size > 0,
        ensures
            final(self).wf(),
            final(self).time().wf(),
            complete == ((old(self).time().pending() * 128) % (fft_size as int) == 0),
            final(self).time().history() == old(self).time().history(),
            final(self).time().index() == old(self).time().index(),
            final(self).time().previous_cycle_index() == if complete {
                old(self).time().index()
            } else {
                old(self).time().previous_cycle_index()
            },
            final(self).fft_size() == old(self).fft_size(),
            final(self).window() == old(self).window(),
            final(self).input() == old(self).input(),
            final(self).spectrum() == old(self).spectrum(),
            final(self).smoothed() == old(self).smoothed(),
    {
        self.time.check_complete_cycle(fft_size)
    }

    /// Copy the frequency data: slot `k` of `buffer`, for `k` below both its
    /// length and the number of magnitudes, receives `decibels` of smoothed
    /// magnitude `k` and the transform size; the other slots are left as they
    /// are.
    pub fn get_float_frequency<D: Fn(u32, usize) -> u32>(&self, buffer: &mut Vec<u32>, decibels: D)
        requires
            self.wf(),
            forall|k: int|
                0 <= k < old(buffer)@.len() && k < bin_count(self.fft_size())
                    ==> decibels.requires((#[trigger] self.smoothed()[k], self.fft_size())),
        ensures
            final(buffer)@.len() == old(buffer)@.len(),
            forall|k: int|
                0 <= k < old(buffer)@.len() && k < bin_count(self.fft_size())
                    ==> decibels.ensures(
                    (self.smoothed()[k], self.fft_size()),
                    #[trigger] final(buffer)@[k],
                ),
            forall|k: int|
                bin_count(self.fft_size()) <= k < old(buffer)@.len()
                    ==> #[trigger] final(buffer)@[k] == old(buffer)@[k],
    {
        let bins: usize = self.current_fft_size / 2 + 1;
        let len: usize = buffer.len();
        let count: usize = if bins < len {
            bins
        } else {
            len
        };
        let mut k: usize = 0;
        while k < count
            invariant
                self.wf(),
                bins == bin_count(self.fft_size()),
                len == old(buffer)@.len(),
                buffer@.len() == len,
                count <= bins,
                count <= len,
                k <= count,
                forall|i: int|
                    0 <= i < len && i < bin_count(self.fft_size()) ==> decibels.requires(
                        (#[trigger] self.smoothed()[i], self.fft_size()),
                    ),
                forall|i: int|
                    0 <= i < k ==> decibels.ensures(
                        (self.smoothed()[i], self.fft_size()),
                        #[trigger] buffer@[i],
                    ),
                forall|i: int| k <= i < len ==> #[trigger] buffer@[i] == old(buffer)@[i],
            decreases count - k,
        {
            let value: u32 = decibels(self.previous_block[k], self.current_fft_size);
            buffer.set(k, value);
            k += 1;
        }
    }

    /// Calculate the frequency data.
    ///
    /// Where `fft_size` differs from the size of the last pass, the smoothed
    /// magnitudes start again from zero and the window table is made anew
    /// from `coefficient`. The latest `fft_size` time samples are read out,
    /// each is combined with its window value by `multiply`, `transform`
    /// turns the windowed samples into magnitudes, and `smooth` folds each
    /// magnitude into the smoothed one of the same slot.
    pub fn calculate_float_frequency<W, M, T, S>(
        &mut self,
        fft_size: usize,
        coefficient: W,
        multiply: M,
        transform: T,
        smooth: S,
    ) where
        W: Fn(usize, usize) -> u32,
        M: Fn(u32, u32) -> u32,
        T: Fn(&Vec<u32>) -> Vec<u32>,
        S: Fn(u32, u32) -> u32,

        requires
            old(self).wf(),
            old(self).fft_size() != fft_size ==> forall|i: usize|
                i < fft_size ==> coefficient.requires((i, fft_size)),
            forall|window: Seq<u32>, j: int|
                window_of_pass(
                    window,
                    old(self).window(),
                    old(self).fft_size(),
                    fft_size,
                    coefficient,
                ) && 0 <= j < fft_size ==> multiply.requires(
                    (
                        time_sample(old(self).time().history(), fft_size as int, j),
                        #[trigger] window[j],
                    ),
                ),
            forall|samples: &Vec<u32>, window: Seq<u32>|
                window_of_pass(
                    window,
                    old(self).window(),
                    old(self).fft_size(),
                    fft_size,
                    coefficient,
                ) && #[trigger] is_windowed(
                    samples@,
                    old(self).time().history(),
                    fft_size,
                    window,
                    multiply,
                ) ==> transform.requires((samples,)),
            forall|samples: &Vec<u32>, window: Seq<u32>, spectrum: Vec<u32>, k: int|
                window_of_pass(
                    window,
                    old(self).window(),
                    old(self).fft_size(),
                    fft_size,
                    coefficient,
                ) && #[trigger] is_windowed(
                    samples@,
                    old(self).time().history(),
                    fft_size,
                    window,
                    multiply,
                ) && #[trigger] transform.ensures((samples,), spectrum) && 0 <= k < bin_count(
                    fft_size,
                ) && k < spectrum@.len() ==> smooth.requires(
                    (
                        smoothing_base(old(self).smoothed(), old(self).fft_size(), fft_size, k),
                        #[trigger] spectrum@[k],
                    ),
                ),
        ensures
            final(self).wf(),
            final(self).time() == old(self).time(),
            final(self).fft_size() == fft_size,
            if old(self).fft_size() == fft_size {
                final(self).window() == old(self).window()
            } else {
                is_window(final(self).window(), fft_size, coefficient)
            },
            final(self).input()@.len() == fft_size,
            forall|j: int|
                0 <= j < fft_size ==> multiply.ensures(
                    (
                        time_sample(old(self).time().history(), fft_size as int, j),
                        final(self).window()[j],
                    ),
                    #[trigger] final(self).input()@[j],
                ),
            transform.ensures((&final(self).input(),), final(self).spectrum()),
            final(self).smoothed().len() == bin_count(fft_size),
            forall|k: int|
                0 <= k < bin_count(fft_size) && k < final(self).spectrum()@.len() ==> smooth.ensures(
                    (
                        smoothing_base(old(self).smoothed(), old(self).fft_size(), fft_size, k),
                        final(self).spectrum()@[k],
                    ),
                    #[trigger] final(self).smoothed()[k],
                ),
            forall|k: int|
                final(self).spectrum()@.len() <= k < bin_count(fft_size)
                    ==> #[trigger] final(self).smoothed()[k] == smoothing_base(
                    old(self).smoothed(),
                    old(self).fft_size(),
                    fft_size,
                    k,
                ),
    {
        // reset state after resizing
        if self.current_fft_size != fft_size {
            fill_with_silence(&mut self.previous_block, fft_size / 2 + 1);
            self.blackman = generate_blackman(fft_size, coefficient);
            self.current_fft_size = fft_size;
        }
        let ghost base = self.previous_block@;
        let ghost window = self.blackman@;
        proof {
            assert(window_of_pass(
                window,
                old(self).window(),
                old(self).fft_size(),
                fft_size,
                coefficient,
            ));
        }

        // put time domain data in the transform's input
        let mut input: Vec<u32> = Vec::new();
        core::mem::swap(&mut input, &mut self.fft_input);
        fill_with_silence(&mut input, fft_size);
        self.time.get_float_time(&mut input, fft_size);
        let ghost samples = input@;

        // window
        let mut j: usize = 0;
        while j < fft_size
            invariant
                j <= fft_size,
                input@.len() == fft_size,
                samples.len() == fft_size,
                self.blackman@.len() == fft_size,
                self.blackman@ == window,
                forall|i: int|
                    0 <= i < fft_size ==> multiply.requires((samples[i], #[trigger] window[i])),
                forall|i: int|
                    0 <= i < j ==> multiply.ensures(
                        (samples[i], self.blackman@[i]),
                        #[trigger] input@[i],
                    ),
                forall|i: int| j <= i < fft_size ==> #[trigger] input@[i] == samples[i],
            decreases fft_size - j,
        {
            let value: u32 = multiply(input[j], self.blackman[j]);
            input.set(j, value);
            j += 1;
        }
        self.fft_input = input;
        proof {
            assert(is_windowed(
                self.fft_input@,
                old(self).time().history(),
                fft_size,
                window,
                multiply,
            ));
        }

        // calculate frequency data
        self.fft_output = transform(&self.fft_input);
        proof {
            assert(transform.ensures((&self.fft_input,), self.fft_output));
            assert forall|i: int|
                0 <= i < bin_count(fft_size) && i < self.fft_output@.len() implies smooth.requires(
                (base[i], #[trigger] self.fft_output@[i]),
            ) by {
                assert(base[i] == smoothing_base(
                    old(self).smoothed(),
                    old(self).fft_size(),
                    fft_size,
                    i,
                ));
            }
        }

        // smoothing over time
        let bins: usize = fft_size / 2 + 1;
        let produced: usize = self.fft_output.len();
        let count: usize = if produced < bins {
            produced
        } else {
            bins
        };
        let ghost transformed = *self;
        let mut k: usize = 0;
        while k < count
            invariant
                k <= count,
                count <= bins,
                count <= produced,
                produced == self.fft_output@.len(),
                self.time == transformed.time,
                self.fft_input == transformed.fft_input,
                self.fft_output == transformed.fft_output,
                self.blackman == transformed.blackman,
                self.current_fft_size == transformed.current_fft_size,
                bins == bin_count(fft_size),
                base.len() == bins,
                self.previous_block@.len() == bins,
                forall|i: int|
                    0 <= i < bins && i < produced ==> smooth.requires(
                        (base[i], #[trigger] self.fft_output@[i]),
                    ),
                forall|i: int|
                    0 <= i < k ==> smooth.ensures(
                        (base[i], self.fft_output@[i]),
                        #[trigger] self.previous_block@[i],
                    ),
                forall|i: int| k <= i < bins ==> #[trigger] self.previous_block@[i] == base[i],
            decreases count - k,
        {
            let value: u32 = smooth(self.previous_block[k], self.fft_output[k]);
            self.previous_block.set(k, value);
            k += 1;
        }
    }
}

/// `window` can be the window table of a frequency pass of `fft_size`
/// samples: the table of the last pass where the size is the same, else a
/// table that `coefficient` gives for the new size.
pub open spec fn window_of_pass<W: Fn(usize, usize) -> u32>(
    window: Seq<u32>,
    previous: Seq<u32>,
    previous_size: usize,
    fft_size: usize,
    coefficient: W,
) -> bool {
    if previous_size == fft_size {
        window == previous
    } else {
        is_window(window, fft_size, coefficient)
    }
}

/// `input` holds the readout of `fft_size` samples from `history`, each
/// sample combined with its value of `window` by `multiply`.
pub open spec fn is_windowed<M: Fn(u32, u32) -> u32>(
    input: Seq<u32>,
    history: Seq<[u32; 128]>,
    fft_size: usize,
    window: Seq<u32>,
    multiply: M,
) -> bool {
    &&& input.len() == fft_size
    &&& forall|j: int|
        0 <= j < fft_size ==> multiply.ensures(
            (time_sample(history, fft_size as int, j), window[j]),
            #[trigger] input[j],
        )
}

/// The smoothed magnitude of slot `k` that a frequency pass of `fft_size`
/// samples starts from: the one of the last pass where the size is the same,
/// zero where it has changed.
pub open spec fn smoothing_base(previous: Seq<u32>, previous_size: usize, fft_size: usize, k: int) -> u32 {
    if previous_size == fft_size {
        previous[k]
    } else {
        0u32
    }
}

/// Counting on the ring: one more block makes one more pending, modulo
/// `MAX_QUANTA`.
pub proof fn lemma_pending_counts_blocks(previous: u8, index: u8)
    ensures
        ring_distance(previous, next_index(index)) == (ring_distance(previous, index) + 1) % 256,
        ring_distance(index, index) == 0,
        0 <= ring_distance(previous, index) < 256,
{
}

/// A readout of `blocks` whole blocks from a history that holds as many is the
/// last `blocks` blocks of the history in the order of their arrival, the
/// newest at the end.
pub proof fn lemma_readout_of_whole_blocks(history: Seq<[u32; 128]>, blocks: int, j: int)
    requires
        0 <= blocks <= history.len(),
        0 <= j < blocks * 128,
    ensures
        time_sample(history, blocks * 128, j) == history[history.len() - blocks + j / 128][j % 128],
{
    let p = history.len() * 128 - blocks * 128 + j;
    assert(p == (history.len() - blocks) * 128 + j);
    assert(p / 128 == history.len() - blocks + j / 128);
    assert(p % 128 == j % 128);
}

/// A readout ends with the newest sample received.
pub proof fn lemma_readout_ends_with_newest(history: Seq<[u32; 128]>, size: int)
    requires
        history.len() > 0,
        size >= 1,
    ensures
        time_sample(history, size, size - 1) == history.last()[127],
{
    let p = history.len() * 128 - 1;
    assert(p == (history.len() - 1) * 128 + 127);
    assert(p / 128 == history.len() - 1);
    assert(p % 128 == 127);
}

/// Where the history holds fewer blocks than a readout of whole blocks asks
/// for, the front of the readout is silence.
pub proof fn lemma_readout_pads_with_silence(history: Seq<[u32; 128]>, blocks: int, j: int)
    requires
        history.len() < blocks,
        0 <= j < (blocks - history.len()) * 128,
    ensures
        time_sample(history, blocks * 128, j) == 0,
{
}

/// What the ring retains of `history` once the blocks of `arrived` have
/// come in, one after the other.
pub open spec fn retained_all(history: Seq<[u32; 128]>, arrived: Seq<[u32; 128]>) -> Seq<
    [u32; 128],
>
    decreases arrived.len(),
{
    if arrived.len() == 0 {
        history
    } else {
        retained(retained_all(history, arrived.drop_last()), arrived.last())
    }
}

/// The last `MAX_QUANTA` blocks of `blocks`, or all of them where they are
/// fewer.
pub open spec fn latest(blocks: Seq<[u32; 128]>) -> Seq<[u32; 128]> {
    if blocks.len() <= 256 {
        blocks
    } else {
        blocks.subrange(blocks.len() - 256, blocks.len() as int)
    }
}

/// The ring holds the last `MAX_QUANTA` blocks received, in the order of
/// their arrival.
pub proof fn lemma_ring_holds_latest(history: Seq<[u32; 128]>, arrived: Seq<[u32; 128]>)
    requires
        history.len() <= 256,
    ensures
        retained_all(history, arrived) == latest(history + arrived),
    decreases arrived.len(),
{
    if arrived.len() == 0 {
        assert(history + arrived =~= history);
    } else {
        let before = arrived.drop_last();
        lemma_ring_holds_latest(history, before);
        assert(history + arrived =~= (history + before).push(arrived.last()));
        assert(retained(latest(history + before), arrived.last()) =~= latest(
            (history + before).push(arrived.last()),
        ));
    }
}

/// Ring wrap: `MAX_QUANTA` steps bring the write position back to where it
/// was.
pub proof fn lemma_ring_wrap(i: u8)
    ensures
        advance(i, 256) == i,
{
    lemma_advance_is_modular(i, 256);
}

/// `n` steps on the ring add `n` modulo `MAX_QUANTA`.
pub proof fn lemma_advance_is_modular(i: u8, n: nat)
    ensures
        advance(i, n) as int == (i + n) % 256,
    decreases n,
{
    if n > 0 {
        lemma_advance_is_modular(i, (n - 1) as nat);
    }
}

} // verus!
