//! The watchdog timer: set up once, always on, and cleared by the program
//! for as long as it is alive.

use crate::sequencer::{Access, Poll, Run, Sequencer, Verdict};
use vstd::prelude::*;

verus! {

/// The key that, written to the clear register, restarts the timer.
pub const CLEAR_KEY: u8 = 0xA5;

/// The divider of the clock generator that feeds the watchdog.
pub const CLOCK_DIVIDER: u16 = 32;

/// The number of clock cycles after which the watchdog resets the chip.
#[derive(Clone, Copy, PartialEq, Eq, Debug, Structural)]
pub enum TimeoutPeriod {
    Cycles8,
    Cycles16,
    Cycles32,
    Cycles64,
    Cycles128,
    Cycles256,
    Cycles512,
    Cycles1K,
    Cycles2K,
    Cycles4K,
    Cycles8K,
    Cycles16K,
}

/// One access to the watchdog or to the clock controller on its behalf.
#[derive(Clone, Copy, PartialEq, Eq, Debug, Structural)]
pub enum WatchdogOp {
    /// Clock controller: set generator 3 to the ultra-low-power 32 kHz
    /// oscillator, divided by the given number. The reply is `Bit(true)`
    /// where the generator was free.
    ConfigureClock(u16),
    /// Clock controller: route that generator to the watchdog. The reply is
    /// `Bit(true)` where the watchdog had no clock yet.
    AttachClock,
    /// Status: read the synchronisation-busy bit.
    ReadSyncBusy,
    /// Configuration: change the timeout period and nothing else.
    WritePeriod(TimeoutPeriod),
    /// Control: set the always-on bit.
    SetAlwaysOn,
    /// Clear: write the given key.
    WriteClear(u8),
}

/// What an access returned.
#[derive(Clone, Copy, PartialEq, Eq, Debug, Structural)]
pub enum WatchdogReply {
    /// A write was made; it returns nothing.
    Done,
    /// The bit that was read, or whether the clock controller did as asked.
    Bit(bool),
}

/// Why the watchdog could not be set up.
#[derive(Clone, Copy, PartialEq, Eq, Debug, Structural)]
pub enum WatchdogError {
    /// The clock controller had no generator or no clock left to give.
    ClockUnavailable,
}

impl Access for WatchdogOp {
    type Reply = WatchdogReply;

    /// A wait for synchronisation is settled when the bit is read clear. A
    /// request to the clock controller is settled when it is granted and
    /// aborts when it is refused. A write has nothing to wait for.
    open spec fn verdict(self, reply: WatchdogReply) -> Verdict {
        match self {
            WatchdogOp::ReadSyncBusy => if reply == WatchdogReply::Bit(false) {
                Verdict::Proceed
            } else {
                Verdict::Repeat
            },
            WatchdogOp::ConfigureClock(_) | WatchdogOp::AttachClock => match reply {
                WatchdogReply::Bit(true) => Verdict::Proceed,
                WatchdogReply::Bit(false) => Verdict::Abort,
                WatchdogReply::Done => Verdict::Repeat,
            },
            _ => Verdict::Proceed,
        }
    }

    fn judge(self, reply: WatchdogReply) -> (v: Verdict) {
        match self {
            WatchdogOp::ReadSyncBusy => match reply {
                WatchdogReply::Bit(false) => Verdict::Proceed,
                _ => Verdict::Repeat,
            },
            WatchdogOp::ConfigureClock(_) | WatchdogOp::AttachClock => match reply {
                WatchdogReply::Bit(true) => Verdict::Proceed,
                WatchdogReply::Bit(false) => Verdict::Abort,
                WatchdogReply::Done => Verdict::Repeat,
            },
            _ => Verdict::Proceed,
        }
    }
}

/// The accesses that set the watchdog up, in order: its clock, the timeout
/// period and the always-on mode.
pub open spec fn setup_script(timeout_period: TimeoutPeriod) -> Seq<WatchdogOp> {
    Seq::empty()
        .push(WatchdogOp::ConfigureClock(CLOCK_DIVIDER))
        .push(WatchdogOp::AttachClock)
        .push(WatchdogOp::ReadSyncBusy)
        .push(WatchdogOp::WritePeriod(timeout_period))
        .push(WatchdogOp::SetAlwaysOn)
        .push(WatchdogOp::ReadSyncBusy)
}

/// The accesses that restart the timer.
pub open spec fn clear_script() -> Seq<WatchdogOp> {
    Seq::empty().push(WatchdogOp::WriteClear(CLEAR_KEY)).push(WatchdogOp::ReadSyncBusy)
}

/// A watchdog that is set up and running.
#[derive(PartialEq, Eq, Debug)]
pub struct WatchdogTimer {
    timeout_period: TimeoutPeriod,
}

impl View for WatchdogTimer {
    type V = TimeoutPeriod;

    closed spec fn view(&self) -> TimeoutPeriod {
        self.timeout_period
    }
}

/// The setup of a watchdog, under way.
pub struct WatchdogSetup {
    sequencer: Sequencer<WatchdogOp>,
    timeout_period: TimeoutPeriod,
}

impl View for WatchdogSetup {
    type V = Run<WatchdogOp>;

    closed spec fn view(&self) -> Run<WatchdogOp> {
        self.sequencer@
    }
}

impl WatchdogSetup {
    #[verifier::type_invariant]
    spec fn inv(self) -> bool {
        self.sequencer@.script == setup_script(self.timeout_period)
    }

    /// The timeout period that this setup writes.
    pub closed spec fn timeout_period(&self) -> TimeoutPeriod {
        self.timeout_period
    }

    /// What to do next: an access to make, or, once the setup is over, its
    /// outcome. The outcome is the watchdog where every access was
    /// settled, and the error where the clock controller refused.
    pub fn poll(&self) -> (next: Poll<WatchdogOp, Result<WatchdogTimer, WatchdogError>>)
        ensures
            self@.wf(),
            self@.script == setup_script(self.timeout_period()),
            match next {
                Poll::Perform(access) => self@.pending() == Some(access),
                Poll::Ready(Err(error)) => self@.aborted && error
                    == WatchdogError::ClockUnavailable,
                Poll::Ready(Ok(watchdog)) => self@.finished() && watchdog@
                    == self.timeout_period(),
            },
    {
        proof {
            use_type_invariant(self);
        }
        match self.sequencer.pending() {
            Some(access) => Poll::Perform(access),
            None => if self.sequencer.is_aborted() {
                Poll::Ready(Err(WatchdogError::ClockUnavailable))
            } else {
                Poll::Ready(Ok(WatchdogTimer { timeout_period: self.timeout_period }))
            },
        }
    }

    /// Takes the reply to the access that `poll` asked for.
    pub fn report(self, reply: WatchdogReply) -> (next: Self)
        ensures
            next@ == self@.after(reply),
            next.timeout_period() == self.timeout_period(),
    {
        proof {
            use_type_invariant(&self);
        }
        let WatchdogSetup { sequencer, timeout_period } = self;
        WatchdogSetup { sequencer: sequencer.report(reply), timeout_period }
    }
}

impl WatchdogTimer {
    /// Begins the setup of the watchdog with the given timeout. Nothing has
    /// been accessed yet: the setup that is returned says what to do.
    pub fn new(timeout_period: TimeoutPeriod) -> (setup: WatchdogSetup)
        ensures
            setup@ == Run::start(setup_script(timeout_period)),
            setup.timeout_period() == timeout_period,
    {
        let mut script: Vec<WatchdogOp> = Vec::new();
        script.push(WatchdogOp::ConfigureClock(CLOCK_DIVIDER));
        script.push(WatchdogOp::AttachClock);
        script.push(WatchdogOp::ReadSyncBusy);
        script.push(WatchdogOp::WritePeriod(timeout_period));
        script.push(WatchdogOp::SetAlwaysOn);
        script.push(WatchdogOp::ReadSyncBusy);
        WatchdogSetup { sequencer: Sequencer::new(script), timeout_period }
    }

    /// Begins a restart of the timer: the key is written and the write is
    /// waited for.
    pub fn clear(&mut self) -> (restart: Sequencer<WatchdogOp>)
        ensures
            restart@ == Run::start(clear_script()),
            *final(self) == *old(self),
    {
        let mut script: Vec<WatchdogOp> = Vec::new();
        script.push(WatchdogOp::WriteClear(CLEAR_KEY));
        script.push(WatchdogOp::ReadSyncBusy);
        Sequencer::new(script)
    }

    /// The timeout period that the watchdog runs with.
    pub fn timeout_period(&self) -> (timeout_period: TimeoutPeriod)
        ensures
            timeout_period == self@,
    {
        self.timeout_period
    }
}

} // verus!
