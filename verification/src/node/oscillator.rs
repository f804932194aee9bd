//! The oscillator: waveform kinds, periodic wave descriptors, and the
//! messages that pass from the control half of a node to its render half.

use std::sync::atomic::{AtomicU32, Ordering};
use std::sync::Arc;
use vstd::prelude::*;

verus! {

/// Bit pattern of the single-precision number 1.
pub const ONE: u32 = 0x3F80_0000;

/// Bit pattern of the single-precision number 440, the frequency of an
/// oscillator that is given none.
pub const DEFAULT_FREQUENCY: u32 = 0x43DC_0000;

/// Number of messages that the queue between the two halves of a node
/// holds, and so the most that the render half takes in for one block.
pub const MESSAGE_QUEUE_CAPACITY: usize = 1;

/// Waveform of an oscillator.
#[derive(Debug, Copy, Clone, PartialEq, Eq, Structural)]
pub enum OscillatorType {
    Sine,
    Square,
    Sawtooth,
    Triangle,
    Custom,
}

/// The number that stands for a waveform where a single word is shared.
pub open spec fn code_of(type_: OscillatorType) -> u32 {
    match type_ {
        OscillatorType::Sine => 0,
        OscillatorType::Square => 1,
        OscillatorType::Sawtooth => 2,
        OscillatorType::Triangle => 3,
        OscillatorType::Custom => 4,
    }
}

/// The waveform that a number stands for.
pub open spec fn type_of(code: u32) -> OscillatorType
    recommends
        code <= 4,
{
    if code == 0 {
        OscillatorType::Sine
    } else if code == 1 {
        OscillatorType::Square
    } else if code == 2 {
        OscillatorType::Sawtooth
    } else if code == 3 {
        OscillatorType::Triangle
    } else {
        OscillatorType::Custom
    }
}

impl Default for OscillatorType {
    fn default() -> (type_: Self)
        ensures
            type_ == OscillatorType::Sine,
    {
        OscillatorType::Sine
    }
}

impl OscillatorType {
    /// The waveform that `i` stands for.
    pub fn from(i: u32) -> (type_: Self)
        requires
            i <= 4,
        ensures
            type_ == type_of(i),
    {
        match i {
            0 => OscillatorType::Sine,
            1 => OscillatorType::Square,
            2 => OscillatorType::Sawtooth,
            3 => OscillatorType::Triangle,
            _ => OscillatorType::Custom,
        }
    }

    /// The number that stands for this waveform.
    pub fn code(self) -> (code: u32)
        ensures
            code == code_of(self),
            code <= 4,
    {
        match self {
            OscillatorType::Sine => 0,
            OscillatorType::Square => 1,
            OscillatorType::Sawtooth => 2,
            OscillatorType::Triangle => 3,
            OscillatorType::Custom => 4,
        }
    }
}

/// A waveform survives the way through its number.
pub proof fn lemma_type_round_trip(type_: OscillatorType)
    ensures
        code_of(type_) <= 4,
        type_of(code_of(type_)) == type_,
{
}

/// A number up to 4 survives the way through its waveform.
pub proof fn lemma_code_round_trip(code: u32)
    requires
        code <= 4,
    ensures
        code_of(type_of(code)) == code,
{
}

/// Number of slots of the sine table.
pub const TABLE_LENGTH: usize = 2048;

/// The two neighbouring slots of the sine table that a lookup at the integer
/// position `idx` interpolates between: `idx` and its successor, both taken
/// around the table.
pub fn table_slots(idx: usize) -> (slots: (usize, usize))
    ensures
        slots.0 == idx % 2048,
        slots.1 == (idx + 1) % 2048,
        slots.0 < TABLE_LENGTH,
        slots.1 < TABLE_LENGTH,
{
    let lower: usize = idx % TABLE_LENGTH;
    let upper: usize = if lower + 1 == TABLE_LENGTH {
        0
    } else {
        lower + 1
    };
    (lower, upper)
}

/// Why a periodic wave cannot be built from the given coefficients.
#[derive(Debug, Copy, Clone, PartialEq, Eq, Structural)]
pub enum RangeError {
    /// The real field holds fewer than 2 coefficients.
    RealTooShort,
    /// The imag field holds fewer than 2 coefficients.
    ImagTooShort,
    /// The real and imag fields differ in length.
    LengthMismatch,
}

impl RangeError {
    /// The error in words.
    pub fn message(&self) -> (text: &'static str)
        ensures
            text@ == range_error_text(*self)@,
    {
        match self {
            RangeError::RealTooShort => "RangeError: Real field length should be at least 2",
            RangeError::ImagTooShort => "RangeError: Imag field length should be at least 2",
            RangeError::LengthMismatch => "RangeError: Imag and real field length should be equal",
        }
    }
}

/// The words that go with each range error.
pub open spec fn range_error_text(error: RangeError) -> &'static str {
    match error {
        RangeError::RealTooShort => "RangeError: Real field length should be at least 2",
        RangeError::ImagTooShort => "RangeError: Imag field length should be at least 2",
        RangeError::LengthMismatch => "RangeError: Imag and real field length should be equal",
    }
}

/// Options for constructing a periodic wave.
pub struct PeriodicWaveOptions {
    /// The cosine terms of the Fourier series. Index 0 is the DC offset: it
    /// has to be given and is not taken into account. The following elements
    /// are the fundamental and the harmonics.
    pub real: Vec<u32>,
    /// The sine terms of the Fourier series. Index 0 is not taken into
    /// account. The following elements are the fundamental and the harmonics.
    pub imag: Vec<u32>,
    /// Whether the peak normalization of the waveform is switched off.
    pub disable_normalization: bool,
}

/// The shape that the coefficients of a periodic wave must have, and the
/// error that each failure gives, in the order in which they are looked for.
pub open spec fn shape_error(cosines: Seq<u32>, sines: Seq<u32>) -> Option<RangeError> {
    if cosines.len() < 2 {
        Some(RangeError::RealTooShort)
    } else if sines.len() < 2 {
        Some(RangeError::ImagTooShort)
    } else if cosines.len() != sines.len() {
        Some(RangeError::LengthMismatch)
    } else {
        None
    }
}

/// A shape is accepted exactly where both fields hold the same number of
/// coefficients, at least 2.
pub proof fn lemma_accepted_shapes(cosines: Seq<u32>, sines: Seq<u32>)
    ensures
        shape_error(cosines, sines).is_none() <==> (cosines.len() == sines.len() && cosines.len()
            >= 2),
{
}

/// The wave is the fundamental alone: real `[0, 1]`, imag `[0, 0]`,
/// normalized.
pub open spec fn is_fundamental(wave: PeriodicWave) -> bool {
    &&& wave.real_terms() == seq![0u32, ONE]
    &&& wave.imag_terms() == seq![0u32, 0u32]
    &&& !wave.normalization_disabled()
}

/// The coefficients of a custom periodic waveform.
#[derive(Debug)]
pub struct PeriodicWave {
    real: Vec<u32>,
    imag: Vec<u32>,
    disable_normalization: bool,
}

impl Clone for PeriodicWave {
    /// A wave with the same coefficients and the same normalization.
    fn clone(&self) -> (copy: Self)
        ensures
            copy.real_terms() == self.real_terms(),
            copy.imag_terms() == self.imag_terms(),
            copy.normalization_disabled() == self.normalization_disabled(),
    {
        proof {
            use_type_invariant(self);
        }
        let cosines = self.real.clone();
        let sines = self.imag.clone();
        proof {
            assert(cosines@ =~= self.real@);
            assert(sines@ =~= self.imag@);
        }
        Self { real: cosines, imag: sines, disable_normalization: self.disable_normalization }
    }
}

impl PeriodicWave {
    /// The cosine terms.
    pub closed spec fn real_terms(&self) -> Seq<u32> {
        self.real@
    }

    /// The sine terms.
    pub closed spec fn imag_terms(&self) -> Seq<u32> {
        self.imag@
    }

    /// Whether the peak normalization is switched off.
    pub closed spec fn normalization_disabled(&self) -> bool {
        self.disable_normalization
    }

    /// Both fields hold the same number of coefficients, at least 2.
    pub open spec fn wf(&self) -> bool {
        shape_error(self.real_terms(), self.imag_terms()).is_none()
    }

    /// Held by every value of the type: the shape is an accepted one.
    #[verifier::type_invariant]
    spec fn shaped(&self) -> bool {
        shape_error(self.real@, self.imag@).is_none()
    }

    /// The wave that a renderer starts from where it is given none: the
    /// fundamental alone, with real `[0, 1]` and imag `[0, 0]`, normalized.
    pub fn fundamental() -> (wave: Self)
        ensures
            is_fundamental(wave),
            wave.wf(),
    {
        let mut cosines: Vec<u32> = Vec::new();
        cosines.push(0);
        cosines.push(ONE);
        let mut sines: Vec<u32> = Vec::new();
        sines.push(0);
        sines.push(0);
        proof {
            assert(cosines@ =~= seq![0u32, ONE]);
            assert(sines@ =~= seq![0u32, 0u32]);
        }
        Self { real: cosines, imag: sines, disable_normalization: false }
    }

    /// The coefficients harmonic by harmonic: pair `k` holds the cosine and
    /// the sine term of harmonic `k`.
    pub fn coefficients(&self) -> (pairs: Vec<(u32, u32)>)
        ensures
            self.wf(),
            pairs@.len() == self.real_terms().len(),
            pairs@.len() == self.imag_terms().len(),
            forall|k: int|
                0 <= k < pairs@.len() ==> #[trigger] pairs@[k] == (
                    self.real_terms()[k],
                    self.imag_terms()[k],
                ),
    {
        proof {
            use_type_invariant(self);
        }
        let len: usize = self.real.len();
        let mut pairs: Vec<(u32, u32)> = Vec::new();
        let mut k: usize = 0;
        while k < len
            invariant
                k <= len,
                len == self.real@.len(),
                len == self.imag@.len(),
                pairs@.len() == k,
                forall|i: int|
                    0 <= i < k ==> #[trigger] pairs@[i] == (self.real@[i], self.imag@[i]),
            decreases len - k,
        {
            pairs.push((self.real[k], self.imag[k]));
            k += 1;
        }
        pairs
    }

    /// Returns a periodic wave with the coefficients of `options`, or the
    /// range error of their shape. Without options the wave is the plain
    /// sine: real `[0, 0]`, imag `[0, 1]`, normalized.
    pub fn new(options: Option<PeriodicWaveOptions>) -> (built: Result<Self, RangeError>)
        ensures
            match options {
                Some(given) => match shape_error(given.real@, given.imag@) {
                    Some(error) => built == Err::<Self, RangeError>(error),
                    None => built.is_ok() && built.unwrap().real_terms() == given.real@
                        && built.unwrap().imag_terms() == given.imag@
                        && built.unwrap().normalization_disabled() == given.disable_normalization,
                },
                None => built.is_ok() && built.unwrap().real_terms() == seq![0u32, 0u32]
                    && built.unwrap().imag_terms() == seq![0u32, ONE]
                    && !built.unwrap().normalization_disabled(),
            },
            built.is_ok() ==> built.unwrap().wf(),
    {
        match options {
            Some(given) => {
                if given.real.len() < 2 {
                    Err(RangeError::RealTooShort)
                } else if given.imag.len() < 2 {
                    Err(RangeError::ImagTooShort)
                } else if given.real.len() != given.imag.len() {
                    Err(RangeError::LengthMismatch)
                } else {
                    Ok(
                        Self {
                            real: given.real,
                            imag: given.imag,
                            disable_normalization: given.disable_normalization,
                        },
                    )
                }
            },
            None => {
                let mut cosines: Vec<u32> = Vec::new();
                cosines.push(0);
                cosines.push(0);
                let mut sines: Vec<u32> = Vec::new();
                sines.push(0);
                sines.push(ONE);
                proof {
                    assert(cosines@ =~= seq![0u32, 0u32]);
                    assert(sines@ =~= seq![0u32, ONE]);
                }
                Ok(Self { real: cosines, imag: sines, disable_normalization: false })
            },
        }
    }

    /// The cosine terms.
    pub fn real_coefficients(&self) -> (terms: &Vec<u32>)
        ensures
            terms@ == self.real_terms(),
            self.wf(),
    {
        proof {
            use_type_invariant(self);
        }
        &self.real
    }

    /// The sine terms.
    pub fn imag_coefficients(&self) -> (terms: &Vec<u32>)
        ensures
            terms@ == self.imag_terms(),
            self.wf(),
    {
        proof {
            use_type_invariant(self);
        }
        &self.imag
    }

    /// Whether the peak normalization is switched off.
    pub fn disable_normalization(&self) -> (disabled: bool)
        ensures
            disabled == self.normalization_disabled(),
    {
        self.disable_normalization
    }
}

/// Message from the control half of an oscillator to its render half.
#[derive(Debug)]
pub enum OscMsg {
    /// A new descriptor for the custom waveform.
    PeriodicWaveMsg(PeriodicWave),
}

/// Why a message did not reach the queue.
#[derive(Debug, Copy, Clone, PartialEq, Eq, Structural)]
pub enum ChannelError {
    /// The queue holds as many messages as it can: send again later.
    QueueFull,
    /// The other half of the node is gone.
    Disconnected,
}

/// The sending end of a channel of `crossbeam_channel`.
#[verifier::external_type_specification]
#[verifier::external_body]
#[verifier::reject_recursive_types(T)]
pub struct ExSender<T>(crossbeam_channel::Sender<T>);

/// The receiving end of a channel of `crossbeam_channel`.
#[verifier::external_type_specification]
#[verifier::external_body]
#[verifier::reject_recursive_types(T)]
pub struct ExReceiver<T>(crossbeam_channel::Receiver<T>);

/// Calls `crossbeam_channel::bounded`, which makes a channel that holds up to
/// `capacity` messages and hands out its two ends. It fails on a capacity too
/// large to lay the channel out; the bound keeps far below that. Nothing is
/// claimed of the ends.
#[verifier::external_body]
fn message_queue(capacity: usize) -> (ends: (
    crossbeam_channel::Sender<OscMsg>,
    crossbeam_channel::Receiver<OscMsg>,
))
    requires
        capacity <= 65536,
{
    crossbeam_channel::bounded(capacity)
}

/// Calls `Sender::try_send`, which puts the message into the channel without
/// blocking or says why it could not. Whether there is room depends on the
/// receiving side, so nothing is claimed of the outcome.
#[verifier::external_body]
fn try_send(sender: &crossbeam_channel::Sender<OscMsg>, msg: OscMsg) -> (sent: Result<
    (),
    ChannelError,
>)
{
    match sender.try_send(msg) {
        Ok(()) => Ok(()),
        Err(crossbeam_channel::TrySendError::Full(_)) => Err(ChannelError::QueueFull),
        Err(crossbeam_channel::TrySendError::Disconnected(_)) => Err(ChannelError::Disconnected),
    }
}

/// Calls `Receiver::try_recv`, which takes the oldest waiting message out of
/// the channel without blocking, or reports that none waits or that the
/// sending side is gone; both reports come back as `None`. What waits depends
/// on the sending side, so nothing is claimed of the outcome.
#[verifier::external_body]
fn try_recv(receiver: &crossbeam_channel::Receiver<OscMsg>) -> (received: Option<OscMsg>) {
    receiver.try_recv().ok()
}

/// Options for constructing an oscillator.
#[derive(Debug)]
pub struct OscillatorOptions {
    /// The waveform.
    pub type_: OscillatorType,
    /// The frequency in hertz, as the bit pattern of a single-precision number.
    pub frequency: u32,
    /// The detuning in cents, as the bit pattern of a single-precision number.
    pub detune: u32,
    /// The descriptor of the custom waveform, if any.
    pub periodic_wave: Option<PeriodicWave>,
}

impl Default for OscillatorOptions {
    fn default() -> (options: Self)
        ensures
            options.type_ == OscillatorType::Sine,
            options.frequency == DEFAULT_FREQUENCY,
            options.detune == 0,
            options.periodic_wave.is_none(),
    {
        OscillatorOptions {
            type_: OscillatorType::Sine,
            frequency: DEFAULT_FREQUENCY,
            detune: 0,
            periodic_wave: None,
        }
    }
}

/// What the render half does for one block.
#[derive(Debug, Copy, Clone, PartialEq, Eq, Structural)]
pub enum RenderPlan {
    /// The block is silence.
    Silence,
    /// Generate one block of the waveform `type_`. Where `rebuild` is set, a
    /// new descriptor has arrived and the custom wavetable is built from it
    /// before the block is generated.
    Generate { type_: OscillatorType, rebuild: bool },
}

/// The waveform to generate for one block, if any: none while the source is
/// not playing, and none for a word that stands for no waveform.
pub open spec fn waveform_to_render(active: bool, code: u32) -> Option<OscillatorType> {
    if active && code <= 4 {
        Some(type_of(code))
    } else {
        None
    }
}

/// The descriptor in force once `received` has been taken from the queue.
pub open spec fn wave_after(wave: PeriodicWave, received: Option<OscMsg>) -> PeriodicWave {
    match received {
        Some(OscMsg::PeriodicWaveMsg(descriptor)) => descriptor,
        None => wave,
    }
}

/// The plan for a block of waveform `type_` once `received` has been taken
/// from the queue.
pub open spec fn plan_after(type_: OscillatorType, received: Option<OscMsg>) -> RenderPlan {
    RenderPlan::Generate { type_, rebuild: received.is_some() }
}

/// The descriptor in force once the messages of `received` have been taken
/// from the queue, in the order of their arrival.
pub open spec fn wave_after_all(wave: PeriodicWave, received: Seq<OscMsg>) -> PeriodicWave
    decreases received.len(),
{
    if received.len() == 0 {
        wave
    } else {
        wave_after(wave_after_all(wave, received.drop_last()), Some(received.last()))
    }
}

/// The plan for a block of waveform `type_` once the messages of `received`
/// have been taken from the queue.
pub open spec fn plan_after_all(type_: OscillatorType, received: Seq<OscMsg>) -> RenderPlan {
    RenderPlan::Generate { type_, rebuild: received.len() > 0 }
}

/// A block of `len` silent samples: every bit of it is zero.
pub open spec fn silent_block(len: nat) -> Seq<u32> {
    Seq::new(len, |i: int| 0u32)
}

/// Makes every sample of `output` silent.
pub fn make_silent(output: &mut Vec<u32>)
    ensures
        final(output)@ == silent_block(old(output)@.len()),
{
    let len: usize = output.len();
    let mut i: usize = 0;
    while i < len
        invariant
            i <= len,
            output@.len() == len,
            forall|k: int| 0 <= k < i ==> #[trigger] output@[k] == 0,
        decreases len - i,
    {
        output.set(i, 0);
        i += 1;
    }
    proof {
        assert(output@ =~= silent_block(len as nat));
    }
}

/// Decides whether a block is generated, and of which waveform, given
/// whether the source is playing and the shared word of the waveform.
pub fn waveform_for_block(active: bool, code: u32) -> (waveform: Option<OscillatorType>)
    ensures
        waveform == waveform_to_render(active, code),
{
    if active && code <= 4 {
        Some(OscillatorType::from(code))
    } else {
        None
    }
}

/// Control half of an oscillator: the waveform in force, the word through
/// which the render half reads it, and the sending end of the queue to the
/// render half.
pub struct OscillatorNode {
    type_: OscillatorType,
    frequency: u32,
    detune: u32,
    shared_type: Arc<AtomicU32>,
    sender: crossbeam_channel::Sender<OscMsg>,
}

/// Render half of an oscillator: the word through which it reads the
/// waveform, the receiving end of the queue, and the descriptor of the custom
/// waveform in force.
pub struct OscillatorRenderer {
    shared_type: Arc<AtomicU32>,
    receiver: crossbeam_channel::Receiver<OscMsg>,
    wave: PeriodicWave,
}

impl OscillatorNode {
    /// The waveform in force.
    pub closed spec fn kind(&self) -> OscillatorType {
        self.type_
    }

    /// The value that the frequency parameter was made with.
    pub closed spec fn frequency_value(&self) -> u32 {
        self.frequency
    }

    /// The value that the detune parameter was made with.
    pub closed spec fn detune_value(&self) -> u32 {
        self.detune
    }

    /// Returns the two halves of an oscillator, joined by a queue of
    /// `MESSAGE_QUEUE_CAPACITY` messages. The control half has the waveform
    /// and the parameter values of the options. The render half has their
    /// descriptor, or the fundamental where they hold none.
    pub fn new(options: OscillatorOptions) -> (halves: (Self, OscillatorRenderer))
        ensures
            halves.0.kind() == options.type_,
            halves.0.frequency_value() == options.frequency,
            halves.0.detune_value() == options.detune,
            match options.periodic_wave {
                Some(wave) => halves.1.wave() == wave,
                None => is_fundamental(halves.1.wave()),
            },
    {
        let shared_type = Arc::new(AtomicU32::new(options.type_.code()));
        let render_type = shared_type.clone();
        let (sender, receiver) = message_queue(MESSAGE_QUEUE_CAPACITY);
        let wave = match options.periodic_wave {
            Some(wave) => wave,
            None => PeriodicWave::fundamental(),
        };
        (
            OscillatorNode {
                type_: options.type_,
                frequency: options.frequency,
                detune: options.detune,
                shared_type,
                sender,
            },
            OscillatorRenderer { shared_type: render_type, receiver, wave },
        )
    }

    /// Returns the value in hertz that the frequency parameter was made
    /// with, as the bit pattern of a single-precision number.
    pub fn frequency(&self) -> (value: u32)
        ensures
            value == self.frequency_value(),
    {
        self.frequency
    }

    /// Returns the value in cents that the detune parameter was made with,
    /// as the bit pattern of a single-precision number.
    pub fn detune(&self) -> (value: u32)
        ensures
            value == self.detune_value(),
    {
        self.detune
    }

    /// Returns the oscillator type.
    pub fn type_(&self) -> (type_: OscillatorType)
        ensures
            type_ == self.kind(),
    {
        self.type_
    }

    /// Set the oscillator type, and publish it to the render half.
    pub fn set_type(&mut self, type_: OscillatorType)
        ensures
            final(self).kind() == type_,
            final(self).frequency_value() == old(self).frequency_value(),
            final(self).detune_value() == old(self).detune_value(),
    {
        self.type_ = type_;
        self.shared_type.store(type_.code(), Ordering::SeqCst);
    }

    /// Set the oscillator type to custom and send the descriptor to the
    /// render half, without blocking. The type is custom afterwards whether
    /// or not the queue took the message.
    pub fn set_periodic_wave(&mut self, periodic_wave: PeriodicWave) -> (sent: Result<
        (),
        ChannelError,
    >)
        ensures
            final(self).kind() == OscillatorType::Custom,
            final(self).frequency_value() == old(self).frequency_value(),
            final(self).detune_value() == old(self).detune_value(),
    {
        self.set_type(OscillatorType::Custom);
        try_send(&self.sender, OscMsg::PeriodicWaveMsg(periodic_wave))
    }
}

impl OscillatorRenderer {
    /// The descriptor of the custom waveform in force.
    pub closed spec fn wave(&self) -> PeriodicWave {
        self.wave
    }

    /// The descriptor of the custom waveform in force.
    pub fn periodic_wave(&self) -> (wave: &PeriodicWave)
        ensures
            *wave == self.wave(),
    {
        &self.wave
    }

    /// Takes in what came from the queue: a descriptor replaces the one in
    /// force. Returns the plan for a block of waveform `type_`.
    pub fn receive(&mut self, type_: OscillatorType, received: Option<OscMsg>) -> (plan: RenderPlan)
        ensures
            final(self).wave() == wave_after(old(self).wave(), received),
            plan == plan_after(type_, received),
    {
        match received {
            Some(OscMsg::PeriodicWaveMsg(descriptor)) => {
                self.wave = descriptor;
                RenderPlan::Generate { type_, rebuild: true }
            },
            None => RenderPlan::Generate { type_, rebuild: false },
        }
    }

    /// Plans one block and renders it where it is silence. A source that is
    /// not playing gives silence, and so does a shared word that stands for
    /// no waveform; both leave the queue and the descriptor alone, and every
    /// sample of `output` becomes zero. Otherwise the queue is drained: the
    /// messages that wait are taken in the order of their arrival, each
    /// through `receive`, until none waits or as many have been taken as the
    /// queue holds, so that the block ends whatever the control half sends
    /// meanwhile. `output` is then left for the generator to fill.
    pub fn process(&mut self, active: bool, output: &mut Vec<u32>) -> (plan: RenderPlan)
        ensures
            !active ==> plan == RenderPlan::Silence,
            plan == RenderPlan::Silence ==> final(self).wave() == old(self).wave(),
            plan == RenderPlan::Silence ==> final(output)@ == silent_block(old(output)@.len()),
            plan != RenderPlan::Silence ==> final(output)@ == old(output)@,
            plan != RenderPlan::Silence ==> exists|type_: OscillatorType, received: Seq<OscMsg>|
                received.len() <= MESSAGE_QUEUE_CAPACITY && plan == plan_after_all(type_, received)
                    && final(self).wave() == wave_after_all(old(self).wave(), received),
    {
        let code = self.shared_type.load(Ordering::SeqCst);
        match waveform_for_block(active, code) {
            None => {
                make_silent(output);
                RenderPlan::Silence
            },
            Some(type_) => {
                let mut rebuild: bool = false;
                let ghost mut taken: Seq<OscMsg> = Seq::empty();
                let mut count: usize = 0;
                while count < MESSAGE_QUEUE_CAPACITY
                    invariant
                        count <= MESSAGE_QUEUE_CAPACITY,
                        taken.len() == count,
                        rebuild == (taken.len() > 0),
                        self.wave() == wave_after_all(old(self).wave(), taken),
                    decreases MESSAGE_QUEUE_CAPACITY - count,
                {
                    let received = try_recv(&self.receiver);
                    if received.is_none() {
                        break;
                    }
                    let ghost before = taken;
                    proof {
                        taken = taken.push(received.unwrap());
                        assert(taken.drop_last() =~= before);
                    }
                    self.receive(type_, received);
                    rebuild = true;
                    count += 1;
                }
                let plan = RenderPlan::Generate { type_, rebuild };
                proof {
                    assert(plan == plan_after_all(type_, taken));
                }
                plan
            },
        }
    }

    /// Whether the renderer goes on producing output after its input has
    /// gone silent: an oscillator has no input and always does.
    pub fn tail_time(&self) -> (tail: bool)
        ensures
            tail,
    {
        true
    }
}

} // verus!
