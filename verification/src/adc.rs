//! The analog sampling driver: one-shot conversions on a selected input.
//!
//! The converter synchronises most of its registers across two clock
//! domains. After a write to such a register the synchronisation-busy bit
//! must be read clear before the next access; the scripts below hold that
//! read wherever the hardware asks for it.
//!
//! Result averaging is not offered: the converter is set up for single
//! samples only.

use crate::sequencer::{Access, Poll, Run, Sequencer, Verdict};
use crate::sequencer::{lemma_after_all_keeps_wf, lemma_writes_once_in_order};
use vstd::prelude::*;

verus! {

/// The two factory calibration constants of the converter, as the
/// calibration store holds them.
#[derive(Clone, Copy, PartialEq, Eq, Debug, Structural)]
pub struct Calibration {
    /// Linearity calibration.
    pub linearity: u8,
    /// Bias calibration.
    pub bias: u8,
}

/// The voltage reference of the converter.
#[derive(Clone, Copy, PartialEq, Eq, Debug, Structural)]
pub enum Reference {
    /// Internal 1.0 V.
    Int1V,
    /// Internal, analog supply divided by 1.48.
    IntVcc0,
    /// Internal, half the analog supply.
    IntVcc1,
    /// External reference A.
    ArefA,
    /// External reference B.
    ArefB,
}

/// The gain applied to the input.
#[derive(Clone, Copy, PartialEq, Eq, Debug, Structural)]
pub enum Gain {
    X1,
    X2,
    X4,
    X8,
    X16,
    /// One half.
    Div2,
}

/// The divider between the generic clock and the converter's clock.
#[derive(Clone, Copy, PartialEq, Eq, Debug, Structural)]
pub enum Prescaler {
    Div4,
    Div8,
    Div16,
    Div32,
    Div64,
    Div128,
    Div256,
    Div512,
}

/// The positive inputs that the driver samples.
#[derive(Clone, Copy, PartialEq, Eq, Debug, Structural)]
pub enum PositiveInput {
    /// Analog input pin 0.
    Pin0,
    /// Analog input pin 2.
    Pin2,
    /// Analog input pin 3.
    Pin3,
}

/// One access to the converter, its bus-clock gate or its clock source.
#[derive(Clone, Copy, PartialEq, Eq, Debug, Structural)]
pub enum AdcOp {
    /// Power manager: set the converter's bit in the bus-clock mask.
    EnableBusClock,
    /// Calibration register: write both constants.
    WriteCalibration(Calibration),
    /// Clock controller: route a generic clock generator to the converter.
    /// The reply is `Bit(true)` where one was available.
    AttachClock,
    /// Reference control: write the reference selection.
    WriteReference(Reference),
    /// Input control: write the whole register, with the given gain, the
    /// negative input on internal ground and the positive input on pin 0.
    WriteInputControl(Gain),
    /// Control B: write the prescaler.
    WritePrescaler(Prescaler),
    /// Input control: change the positive input and nothing else.
    SelectInput(PositiveInput),
    /// Control A: write the enable bit.
    WriteEnable(bool),
    /// Software trigger: start a conversion.
    StartConversion,
    /// Interrupt flags: clear result-ready.
    ClearResultReady,
    /// Status: read the synchronisation-busy bit.
    ReadSyncBusy,
    /// Interrupt flags: read result-ready.
    ReadResultReady,
    /// Result: read the conversion result.
    ReadResult,
}

/// What an access to the converter returned.
#[derive(Clone, Copy, PartialEq, Eq, Debug, Structural)]
pub enum AdcReply {
    /// A write was made; it returns nothing.
    Done,
    /// The bit that was read, or whether a clock generator was attached.
    Bit(bool),
    /// The result register as read.
    Sample(u16),
}

/// Why the converter could not be set up.
#[derive(Clone, Copy, PartialEq, Eq, Debug, Structural)]
pub enum AdcError {
    /// No generic clock generator was left for the converter.
    ClockUnavailable,
}

impl Access for AdcOp {
    type Reply = AdcReply;

    /// A wait is settled by the value it waits for and by nothing else, the
    /// result read by a sample. A missing clock generator aborts. A write
    /// has nothing to wait for.
    open spec fn verdict(self, reply: AdcReply) -> Verdict {
        match self {
            AdcOp::ReadSyncBusy => if reply == AdcReply::Bit(false) {
                Verdict::Proceed
            } else {
                Verdict::Repeat
            },
            AdcOp::ReadResultReady => if reply == AdcReply::Bit(true) {
                Verdict::Proceed
            } else {
                Verdict::Repeat
            },
            AdcOp::ReadResult => if reply is Sample {
                Verdict::Proceed
            } else {
                Verdict::Repeat
            },
            AdcOp::AttachClock => match reply {
                AdcReply::Bit(true) => Verdict::Proceed,
                AdcReply::Bit(false) => Verdict::Abort,
                _ => Verdict::Repeat,
            },
            _ => Verdict::Proceed,
        }
    }

    fn judge(self, reply: AdcReply) -> (v: Verdict) {
        match self {
            AdcOp::ReadSyncBusy => match reply {
                AdcReply::Bit(false) => Verdict::Proceed,
                _ => Verdict::Repeat,
            },
            AdcOp::ReadResultReady => match reply {
                AdcReply::Bit(true) => Verdict::Proceed,
                _ => Verdict::Repeat,
            },
            AdcOp::ReadResult => match reply {
                AdcReply::Sample(_) => Verdict::Proceed,
                _ => Verdict::Repeat,
            },
            AdcOp::AttachClock => match reply {
                AdcReply::Bit(true) => Verdict::Proceed,
                AdcReply::Bit(false) => Verdict::Abort,
                _ => Verdict::Repeat,
            },
            _ => Verdict::Proceed,
        }
    }
}

/// The accesses that set the converter up, in order: the bus-clock gate,
/// the calibration, the clock generator, the reference (half the supply,
/// with half gain to make up for it) and the prescaler (32).
pub open spec fn setup_script(calibration: Calibration) -> Seq<AdcOp> {
    Seq::empty()
        .push(AdcOp::EnableBusClock)
        .push(AdcOp::WriteCalibration(calibration))
        .push(AdcOp::ReadSyncBusy)
        .push(AdcOp::AttachClock)
        .push(AdcOp::ReadSyncBusy)
        .push(AdcOp::WriteReference(Reference::IntVcc1))
        .push(AdcOp::WriteInputControl(Gain::Div2))
        .push(AdcOp::ReadSyncBusy)
        .push(AdcOp::WritePrescaler(Prescaler::Div32))
        .push(AdcOp::ReadSyncBusy)
}

/// The accesses of one conversion on `input`, in order. The first
/// conversion after the input changes still measures the previous input:
/// it is started and dropped, and the second is the one that is read.
pub open spec fn conversion_script(input: PositiveInput) -> Seq<AdcOp> {
    Seq::empty()
        .push(AdcOp::ReadSyncBusy)
        .push(AdcOp::SelectInput(input))
        .push(AdcOp::ReadSyncBusy)
        .push(AdcOp::WriteEnable(true))
        .push(AdcOp::ReadSyncBusy)
        .push(AdcOp::StartConversion)
        .push(AdcOp::ClearResultReady)
        .push(AdcOp::ReadSyncBusy)
        .push(AdcOp::StartConversion)
        .push(AdcOp::ReadResultReady)
        .push(AdcOp::ReadResult)
        .push(AdcOp::WriteEnable(false))
        .push(AdcOp::ReadSyncBusy)
}

/// Where a conversion stands.
#[derive(Clone, Copy, PartialEq, Eq, Debug, Structural)]
pub enum Phase {
    /// The converter is disabled: the conversion has not enabled it yet, or
    /// has disabled it again.
    Disabled,
    /// The converter is enabled for the conversion that is dropped.
    Discard,
    /// The conversion that is read has been started.
    Measure,
}

/// The phase of a conversion of which `cursor` accesses are settled. The
/// converter is enabled by the fourth access of `conversion_script`, the
/// conversion that is read is started by the ninth, and the twelfth
/// disables the converter.
pub open spec fn phase_at(cursor: nat) -> Phase {
    if cursor <= 3 {
        Phase::Disabled
    } else if cursor <= 8 {
        Phase::Discard
    } else if cursor <= 11 {
        Phase::Measure
    } else {
        Phase::Disabled
    }
}

/// Where `conversion_script` reads the result.
pub const RESULT_AT: usize = 10;

/// The input that a channel number stands for. Numbers above 2 stand for
/// the first input.
pub open spec fn input_of(pos: u8) -> PositiveInput {
    if pos == 1 {
        PositiveInput::Pin2
    } else if pos == 2 {
        PositiveInput::Pin3
    } else {
        PositiveInput::Pin0
    }
}

/// Adds the wait for the registers to be synchronised.
fn wait_for_sync(script: &mut Vec<AdcOp>)
    ensures
        final(script)@ == old(script)@.push(AdcOp::ReadSyncBusy),
{
    script.push(AdcOp::ReadSyncBusy);
}

/// Adds the write that opens the bus-clock gate of the converter.
fn enable_adc_apb(script: &mut Vec<AdcOp>)
    ensures
        final(script)@ == old(script)@.push(AdcOp::EnableBusClock),
{
    script.push(AdcOp::EnableBusClock);
}

/// Adds the write of the calibration constants, and the wait after it.
fn set_calibration(script: &mut Vec<AdcOp>, calibration: Calibration)
    ensures
        final(script)@ == old(script)@.push(AdcOp::WriteCalibration(calibration)).push(
            AdcOp::ReadSyncBusy,
        ),
{
    script.push(AdcOp::WriteCalibration(calibration));
    wait_for_sync(script);
}

/// Adds the write of the prescaler, and the wait after it.
fn set_prescaler(script: &mut Vec<AdcOp>, prescaler: Prescaler)
    ensures
        final(script)@ == old(script)@.push(AdcOp::WritePrescaler(prescaler)).push(
            AdcOp::ReadSyncBusy,
        ),
{
    script.push(AdcOp::WritePrescaler(prescaler));
    wait_for_sync(script);
}

/// Adds the writes of the reference and of the gain, and the wait after
/// them.
fn set_references(script: &mut Vec<AdcOp>, reference: Reference, gain: Gain)
    ensures
        final(script)@ == old(script)@.push(AdcOp::WriteReference(reference)).push(
            AdcOp::WriteInputControl(gain),
        ).push(AdcOp::ReadSyncBusy),
{
    script.push(AdcOp::WriteReference(reference));
    script.push(AdcOp::WriteInputControl(gain));
    wait_for_sync(script);
}

/// Adds the write that disables the converter, and the wait after it.
fn disable(script: &mut Vec<AdcOp>)
    ensures
        final(script)@ == old(script)@.push(AdcOp::WriteEnable(false)).push(AdcOp::ReadSyncBusy),
{
    script.push(AdcOp::WriteEnable(false));
    wait_for_sync(script);
}

/// Adds the write that enables the converter, and the wait after it.
fn enable(script: &mut Vec<AdcOp>)
    ensures
        final(script)@ == old(script)@.push(AdcOp::WriteEnable(true)).push(AdcOp::ReadSyncBusy),
{
    script.push(AdcOp::WriteEnable(true));
    wait_for_sync(script);
}

/// The accesses of one conversion on `input`.
fn read(input: PositiveInput) -> (script: Vec<AdcOp>)
    ensures
        script@ == conversion_script(input),
{
    let mut script: Vec<AdcOp> = Vec::new();
    wait_for_sync(&mut script);
    script.push(AdcOp::SelectInput(input));
    wait_for_sync(&mut script);
    enable(&mut script);
    script.push(AdcOp::StartConversion);
    script.push(AdcOp::ClearResultReady);
    wait_for_sync(&mut script);
    script.push(AdcOp::StartConversion);
    script.push(AdcOp::ReadResultReady);
    script.push(AdcOp::ReadResult);
    disable(&mut script);
    script
}

/// What the driver knows of a converter that is set up.
#[derive(Clone, Copy, PartialEq, Eq, Debug, Structural)]
pub struct AdcConfig {
    /// The calibration constants that were written.
    pub calibration: Calibration,
    pub reference: Reference,
    pub gain: Gain,
    pub prescaler: Prescaler,
    /// The positive input that is selected.
    pub input: PositiveInput,
}

/// The settings of a converter fresh from its setup.
pub open spec fn configured(calibration: Calibration) -> AdcConfig {
    AdcConfig {
        calibration,
        reference: Reference::IntVcc1,
        gain: Gain::Div2,
        prescaler: Prescaler::Div32,
        input: PositiveInput::Pin0,
    }
}

/// A converter that is set up and, between conversions, disabled.
#[derive(PartialEq, Eq, Debug)]
pub struct Adc {
    config: AdcConfig,
}

impl View for Adc {
    type V = AdcConfig;

    closed spec fn view(&self) -> AdcConfig {
        self.config
    }
}

/// The setup of a converter, under way.
pub struct AdcSetup {
    sequencer: Sequencer<AdcOp>,
    calibration: Calibration,
}

impl View for AdcSetup {
    type V = Run<AdcOp>;

    closed spec fn view(&self) -> Run<AdcOp> {
        self.sequencer@
    }
}

/// One conversion, under way.
pub struct Conversion {
    sequencer: Sequencer<AdcOp>,
    input: PositiveInput,
    sample: u16,
}

impl View for Conversion {
    type V = Run<AdcOp>;

    closed spec fn view(&self) -> Run<AdcOp> {
        self.sequencer@
    }
}

impl Adc {
    /// Begins the setup of a converter with the calibration constants read
    /// from the calibration store. Nothing has been accessed yet: the setup
    /// that is returned says what to do.
    pub fn new(calibration: Calibration) -> (setup: AdcSetup)
        ensures
            setup@ == Run::start(setup_script(calibration)),
            setup.calibration() == calibration,
    {
        let mut script: Vec<AdcOp> = Vec::new();
        enable_adc_apb(&mut script);
        set_calibration(&mut script, calibration);
        script.push(AdcOp::AttachClock);
        wait_for_sync(&mut script);
        set_references(&mut script, Reference::IntVcc1, Gain::Div2);
        set_prescaler(&mut script, Prescaler::Div32);
        AdcSetup { sequencer: Sequencer::new(script), calibration }
    }

    /// Begins a conversion on the input that `pos` stands for, and notes
    /// that input as the selected one.
    pub fn read_sync(&mut self, pos: u8) -> (conversion: Conversion)
        ensures
            conversion@ == Run::start(conversion_script(input_of(pos))),
            conversion.input() == input_of(pos),
            final(self)@ == (AdcConfig { input: input_of(pos), ..old(self)@ }),
    {
        let input = match pos {
            1 => PositiveInput::Pin2,
            2 => PositiveInput::Pin3,
            _ => PositiveInput::Pin0,
        };
        self.config.input = input;
        Conversion { sequencer: Sequencer::new(read(input)), input, sample: 0 }
    }

    /// The settings of the converter.
    pub fn config(&self) -> (config: AdcConfig)
        ensures
            config == self@,
    {
        self.config
    }
}

impl AdcSetup {
    #[verifier::type_invariant]
    spec fn inv(self) -> bool {
        self.sequencer@.script == setup_script(self.calibration)
    }

    /// The calibration constants that this setup writes.
    pub closed spec fn calibration(&self) -> Calibration {
        self.calibration
    }

    /// What to do next: an access to make, or, once the setup is over, its
    /// outcome. The outcome is the converter where every access was
    /// settled, and the error where no clock generator could be attached.
    pub fn poll(&self) -> (next: Poll<AdcOp, Result<Adc, AdcError>>)
        ensures
            self@.wf(),
            self@.script == setup_script(self.calibration()),
            match next {
                Poll::Perform(access) => self@.pending() == Some(access),
                Poll::Ready(Err(error)) => self@.aborted && error == AdcError::ClockUnavailable,
                Poll::Ready(Ok(adc)) => self@.finished() && adc@ == configured(self.calibration()),
            },
    {
        proof {
            use_type_invariant(self);
        }
        match self.sequencer.pending() {
            Some(access) => Poll::Perform(access),
            None => if self.sequencer.is_aborted() {
                Poll::Ready(Err(AdcError::ClockUnavailable))
            } else {
                Poll::Ready(
                    Ok(
                        Adc {
                            config: AdcConfig {
                                calibration: self.calibration,
                                reference: Reference::IntVcc1,
                                gain: Gain::Div2,
                                prescaler: Prescaler::Div32,
                                input: PositiveInput::Pin0,
                            },
                        },
                    ),
                )
            },
        }
    }

    /// Takes the reply to the access that `poll` asked for.
    pub fn report(self, reply: AdcReply) -> (next: Self)
        ensures
            next@ == self@.after(reply),
            next.calibration() == self.calibration(),
    {
        proof {
            use_type_invariant(&self);
        }
        let AdcSetup { sequencer, calibration } = self;
        AdcSetup { sequencer: sequencer.report(reply), calibration }
    }
}

impl Conversion {
    #[verifier::type_invariant]
    spec fn inv(self) -> bool {
        &&& self.sequencer@.wf()
        &&& self.sequencer@.script == conversion_script(self.input)
        &&& !self.sequencer@.aborted
        &&& self.sequencer@.cursor() > RESULT_AT ==> self.sequencer@.answers[RESULT_AT as int]
            == AdcReply::Sample(self.sample)
    }

    /// The input that is converted.
    pub closed spec fn input(&self) -> PositiveInput {
        self.input
    }

    /// What to do next: an access to make, or, once the conversion is over,
    /// the sample: the result register as it was read.
    pub fn poll(&self) -> (next: Poll<AdcOp, u16>)
        ensures
            self@.wf(),
            self@.script == conversion_script(self.input()),
            !self@.aborted,
            match next {
                Poll::Perform(access) => self@.pending() == Some(access),
                Poll::Ready(sample) => self@.finished() && self@.answers[RESULT_AT as int]
                    == AdcReply::Sample(sample),
            },
    {
        proof {
            use_type_invariant(self);
        }
        match self.sequencer.pending() {
            Some(access) => Poll::Perform(access),
            None => Poll::Ready(self.sample),
        }
    }

    /// Where the conversion stands.
    pub fn phase(&self) -> (phase: Phase)
        ensures
            phase == phase_at(self@.cursor()),
    {
        let cursor = self.sequencer.cursor();
        if cursor <= 3 {
            Phase::Disabled
        } else if cursor <= 8 {
            Phase::Discard
        } else if cursor <= 11 {
            Phase::Measure
        } else {
            Phase::Disabled
        }
    }

    /// Takes the reply to the access that `poll` asked for.
    pub fn report(self, reply: AdcReply) -> (next: Self)
        ensures
            next@ == self@.after(reply),
            next.input() == self.input(),
    {
        proof {
            use_type_invariant(&self);
        }
        let Conversion { sequencer, input, sample } = self;
        let sample = match (sequencer.pending(), reply) {
            (Some(AdcOp::ReadResult), AdcReply::Sample(value)) => value,
            _ => sample,
        };
        Conversion { sequencer: sequencer.report(reply), input, sample }
    }
}

/// The accesses that start a conversion.
pub open spec fn is_start() -> spec_fn(AdcOp) -> bool {
    |access: AdcOp| access is StartConversion
}

/// The writes of the enable bit.
pub open spec fn is_enable_write() -> spec_fn(AdcOp) -> bool {
    |access: AdcOp| access is WriteEnable
}

/// The writes of the calibration register.
pub open spec fn is_calibration_write() -> spec_fn(AdcOp) -> bool {
    |access: AdcOp| access is WriteCalibration
}

/// How many conversions `accesses` start.
pub open spec fn conversions_started(accesses: Seq<AdcOp>) -> nat {
    accesses.filter(is_start()).len()
}

/// Whether the converter is enabled once `accesses` are made: what the last
/// write of the enable bit among them wrote, and `before` if there is none.
pub open spec fn enabled_after(accesses: Seq<AdcOp>, before: bool) -> bool {
    let writes = accesses.filter(is_enable_write());
    if writes.len() == 0 {
        before
    } else {
        writes.last() == AdcOp::WriteEnable(true)
    }
}

/// The writes to the registers that the converter synchronises across its
/// clock domains: control A, control B, input control and the software
/// trigger.
pub open spec fn is_synchronised_write(access: AdcOp) -> bool {
    ||| access is WriteEnable
    ||| access is WritePrescaler
    ||| access is WriteInputControl
    ||| access is SelectInput
    ||| access is StartConversion
}

/// The reads that a script waits with.
pub open spec fn is_wait(access: AdcOp) -> bool {
    access is ReadSyncBusy || access is ReadResultReady
}

/// No two writes to synchronised registers stand in `script` without a
/// wait between them.
pub open spec fn waits_between_writes(script: Seq<AdcOp>) -> bool {
    forall|i: int, j: int|
        0 <= i < j < script.len() && is_synchronised_write(#[trigger] script[i])
            && is_synchronised_write(#[trigger] script[j]) ==> exists|k: int|
            i < k < j && is_wait(#[trigger] script[k])
}

/// Both scripts wait between any two writes to synchronised registers, and
/// a conversion begins with a wait. With the sequencer, which does not go
/// past a wait that is not answered, no such write is made while an earlier
/// one is still being synchronised.
pub proof fn lemma_scripts_wait_between_writes(calibration: Calibration, input: PositiveInput)
    ensures
        waits_between_writes(setup_script(calibration)),
        waits_between_writes(conversion_script(input)),
        conversion_script(input).first() == AdcOp::ReadSyncBusy,
{
    let setup = setup_script(calibration);
    assert forall|i: int, j: int|
        0 <= i < j < setup.len() && is_synchronised_write(#[trigger] setup[i])
            && is_synchronised_write(#[trigger] setup[j]) implies exists|k: int|
        i < k < j && is_wait(#[trigger] setup[k]) by {
        assert(is_wait(setup[7]));
    }
    let conversion = conversion_script(input);
    assert forall|i: int, j: int|
        0 <= i < j < conversion.len() && is_synchronised_write(#[trigger] conversion[i])
            && is_synchronised_write(#[trigger] conversion[j]) implies exists|k: int|
        i < k < j && is_wait(#[trigger] conversion[k]) by {
        let k = if i == 5 {
            7
        } else {
            i + 1
        };
        assert(is_wait(conversion[k]));
    }
}

/// In every state that replies can bring about, each settled wait holds
/// the value that it waited for, and the settled request for a clock a
/// grant. As an access is pending only when all before it are settled, no
/// access behind a wait is made before the hardware has answered the wait.
pub proof fn lemma_waits_are_answered(script: Seq<AdcOp>, replies: Seq<AdcReply>, position: int)
    requires
        0 <= position < Run::start(script).after_all(replies).cursor(),
    ensures
        ({
            let ended = Run::start(script).after_all(replies);
            let answer = ended.answers[position];
            &&& position < script.len()
            &&& script[position] is ReadSyncBusy ==> answer == AdcReply::Bit(false)
            &&& script[position] is ReadResultReady ==> answer == AdcReply::Bit(true)
            &&& script[position] is ReadResult ==> answer is Sample
            &&& script[position] is AttachClock ==> answer == AdcReply::Bit(true)
        }),
{
    lemma_after_all_keeps_wf(Run::start(script), replies);
}

/// The writes of the enable bit among the first `cursor` accesses of a
/// conversion: none before the converter is enabled, the one that enables
/// it while it converts, and both once it is disabled again.
proof fn lemma_enable_writes_by_phase(input: PositiveInput, cursor: int)
    requires
        0 <= cursor <= conversion_script(input).len(),
    ensures
        conversion_script(input).take(cursor).filter(is_enable_write()) == match phase_at(
            cursor as nat,
        ) {
            Phase::Disabled => if cursor <= 3 {
                Seq::empty()
            } else {
                Seq::empty().push(AdcOp::WriteEnable(true)).push(AdcOp::WriteEnable(false))
            },
            _ => Seq::empty().push(AdcOp::WriteEnable(true)),
        },
{
    broadcast use Seq::lemma_filter_push;

    reveal_with_fuel(Seq::filter, 1);
    let script = conversion_script(input);
    let kind = is_enable_write();
    let reached = script.take(cursor);
    let three = Seq::empty().push(AdcOp::ReadSyncBusy).push(AdcOp::SelectInput(input)).push(
        AdcOp::ReadSyncBusy,
    );
    let four = three.push(AdcOp::WriteEnable(true));
    let eleven = four.push(AdcOp::ReadSyncBusy).push(AdcOp::StartConversion).push(
        AdcOp::ClearResultReady,
    ).push(AdcOp::ReadSyncBusy).push(AdcOp::StartConversion).push(AdcOp::ReadResultReady).push(
        AdcOp::ReadResult,
    );
    let twelve = eleven.push(AdcOp::WriteEnable(false));
    if cursor <= 3 {
        reached.lemma_filter_monotone(three, kind);
    } else if cursor <= 11 {
        four.lemma_filter_monotone(reached, kind);
        reached.lemma_filter_monotone(eleven, kind);
    } else {
        twelve.lemma_filter_monotone(reached, kind);
        reached.lemma_filter_monotone(script, kind);
    }
}

/// The starts of a conversion among the first `cursor` accesses of a
/// conversion: one from the sixth access on and two from the ninth.
proof fn lemma_starts_by_cursor(input: PositiveInput, cursor: int)
    requires
        0 <= cursor <= conversion_script(input).len(),
    ensures
        conversion_script(input).take(cursor).filter(is_start()).len() == if cursor <= 5 {
            0int
        } else if cursor <= 8 {
            1int
        } else {
            2int
        },
{
    broadcast use Seq::lemma_filter_push;

    reveal_with_fuel(Seq::filter, 1);
    let script = conversion_script(input);
    let kind = is_start();
    let reached = script.take(cursor);
    let five = Seq::empty().push(AdcOp::ReadSyncBusy).push(AdcOp::SelectInput(input)).push(
        AdcOp::ReadSyncBusy,
    ).push(AdcOp::WriteEnable(true)).push(AdcOp::ReadSyncBusy);
    let six = five.push(AdcOp::StartConversion);
    let eight = six.push(AdcOp::ClearResultReady).push(AdcOp::ReadSyncBusy);
    let nine = eight.push(AdcOp::StartConversion);
    if cursor <= 5 {
        reached.lemma_filter_monotone(five, kind);
    } else if cursor <= 8 {
        six.lemma_filter_monotone(reached, kind);
        reached.lemma_filter_monotone(eight, kind);
    } else {
        nine.lemma_filter_monotone(reached, kind);
        reached.lemma_filter_monotone(script, kind);
    }
}

/// Whatever the converter answers and however long it is polled, a
/// conversion on any channel keeps the converter enabled exactly while it
/// is in one of its two converting phases, and has then started one
/// conversion or two: one that is dropped, from the sixth access on, and
/// one that is read, from the ninth.
pub proof fn lemma_conversion_follows_its_phases(pos: u8, replies: Seq<AdcReply>)
    ensures
        ({
            let begun = Run::start(conversion_script(input_of(pos)));
            let cursor = begun.after_all(replies).cursor();
            let made = begun.performed(replies);
            &&& enabled_after(made, false) == (phase_at(cursor) != Phase::Disabled)
            &&& conversions_started(made) == if cursor <= 5 {
                0nat
            } else if cursor <= 8 {
                1nat
            } else {
                2nat
            }
        }),
{
    let script = conversion_script(input_of(pos));
    let begun = Run::start(script);
    let cursor = begun.after_all(replies).cursor() as int;
    lemma_writes_once_in_order(begun, replies, is_start());
    lemma_writes_once_in_order(begun, replies, is_enable_write());
    lemma_enable_writes_by_phase(input_of(pos), cursor);
    lemma_starts_by_cursor(input_of(pos), cursor);
}

/// Whatever the converter answers and however long it is polled, a
/// conversion on any channel starts at most two conversions. One that runs
/// to its end has started exactly two, has found the registers
/// synchronised after the first and the result ready after the second, and
/// leaves the converter disabled, whether it found it enabled or not.
pub proof fn lemma_conversion_starts_twice_and_disables(
    pos: u8,
    replies: Seq<AdcReply>,
    before: bool,
)
    ensures
        ({
            let begun = Run::start(conversion_script(input_of(pos)));
            let ended = begun.after_all(replies);
            let made = begun.performed(replies);
            &&& conversions_started(made) <= 2
            &&& ended.finished() ==> {
                &&& conversions_started(made) == 2
                &&& ended.answers[7] == AdcReply::Bit(false)
                &&& ended.answers[9] == AdcReply::Bit(true)
                &&& !enabled_after(made, before)
            }
        }),
{
    let script = conversion_script(input_of(pos));
    let begun = Run::start(script);
    let ended = begun.after_all(replies);
    lemma_conversion_follows_its_phases(pos, replies);
    lemma_after_all_keeps_wf(begun, replies);
    if ended.finished() {
        lemma_waits_are_answered(script, replies, 7);
        lemma_waits_are_answered(script, replies, 9);
        lemma_writes_once_in_order(begun, replies, is_enable_write());
        lemma_enable_writes_by_phase(input_of(pos), script.len() as int);
    }
}

/// Whatever the converter answers, its setup writes the calibration
/// register at most once, and only with the constants that the setup was
/// begun with. A setup that has got as far as the clock generator has
/// written it exactly once.
pub proof fn lemma_setup_writes_calibration_once(calibration: Calibration, replies: Seq<AdcReply>)
    ensures
        ({
            let begun = Run::start(setup_script(calibration));
            let ended = begun.after_all(replies);
            let written = begun.performed(replies).filter(is_calibration_write());
            &&& written.len() <= 1
            &&& written.len() == 1 ==> written[0] == AdcOp::WriteCalibration(calibration)
            &&& ended.cursor() >= 2 ==> written.len() == 1
            &&& ended.finished() || ended.aborted ==> written.len() == 1
        }),
{
    broadcast use Seq::lemma_filter_push;

    reveal_with_fuel(Seq::filter, 1);
    let script = setup_script(calibration);
    let kind = is_calibration_write();
    let begun = Run::start(script);
    let ended = begun.after_all(replies);
    lemma_after_all_keeps_wf(begun, replies);
    lemma_writes_once_in_order(begun, replies, kind);
    let reached = script.take(ended.cursor() as int);
    let two = Seq::empty().push(AdcOp::EnableBusClock).push(AdcOp::WriteCalibration(calibration));
    reached.lemma_filter_monotone(script, kind);
    if ended.cursor() >= 2 {
        two.lemma_filter_monotone(reached, kind);
    }
    if ended.aborted {
        lemma_setup_aborts_at_clock(calibration, replies);
    }
}

/// A setup is aborted only by the clock controller: when it is, everything
/// before the clock generator is settled and nothing after it.
pub proof fn lemma_setup_aborts_at_clock(calibration: Calibration, replies: Seq<AdcReply>)
    requires
        Run::start(setup_script(calibration)).after_all(replies).aborted,
    ensures
        Run::start(setup_script(calibration)).after_all(replies).cursor() == 3,
    decreases replies.len(),
{
    let begun = Run::start(setup_script(calibration));
    if replies.len() > 0 {
        let before = begun.after_all(replies.drop_last());
        lemma_after_all_keeps_wf(begun, replies.drop_last());
        if before.aborted {
            lemma_setup_aborts_at_clock(calibration, replies.drop_last());
        }
    }
}

} // verus!
