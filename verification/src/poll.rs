//! The cadence of the poll loop.
//!
//! The loop alternates between observing the public addresses, which ends in
//! handing a snapshot to every worker, and sleeping for the configured
//! interval. It begins with an observation where the settings ask for an
//! update upon start, and with a sleep where they do not. It never ends.

use vstd::prelude::*;
use crate::data::Settings;

verus! {

/// What the poll loop does next.
#[derive(Clone, Copy, Debug, PartialEq, Eq, Structural)]
pub enum PollStep {
    /// Observe both address families and hand the snapshot to every worker.
    Observe,
    /// Sleep for this many milliseconds.
    Sleep(u64),
}

/// The poll loop between two steps.
pub struct PollLoop {
    interval: u64,
    observe_next: bool,
}

/// The poll loop as a mathematical value: the interval, and whether an
/// observation or a sleep comes next.
pub ghost struct PollLoopView {
    pub interval: u64,
    pub observe_next: bool,
}

impl PollLoopView {
    /// The loop as the settings start it.
    pub open spec fn start(settings: Settings) -> PollLoopView {
        PollLoopView { interval: settings.ip_poll, observe_next: settings.update_upon_start }
    }

    /// The step that the loop takes next.
    pub open spec fn step(self) -> PollStep {
        if self.observe_next {
            PollStep::Observe
        } else {
            PollStep::Sleep(self.interval)
        }
    }

    /// The loop after its next step.
    pub open spec fn advance(self) -> PollLoopView {
        PollLoopView { observe_next: !self.observe_next, ..self }
    }

    /// The loop after `n` steps.
    pub open spec fn after(self, n: nat) -> PollLoopView
        decreases n,
    {
        if n == 0 {
            self
        } else {
            self.after((n - 1) as nat).advance()
        }
    }
}

impl View for PollLoop {
    type V = PollLoopView;

    closed spec fn view(&self) -> PollLoopView {
        PollLoopView { interval: self.interval, observe_next: self.observe_next }
    }
}

impl PollLoop {
    /// The loop as the settings start it.
    pub fn new(settings: &Settings) -> (poll: PollLoop)
        ensures
            poll@ == PollLoopView::start(*settings),
    {
        PollLoop { interval: settings.ip_poll, observe_next: settings.update_upon_start }
    }

    /// Hands out the next step and moves past it.
    pub fn next(&mut self) -> (step: PollStep)
        ensures
            step == old(self)@.step(),
            final(self)@ == old(self)@.advance(),
    {
        let step = if self.observe_next {
            PollStep::Observe
        } else {
            PollStep::Sleep(self.interval)
        };
        self.observe_next = !self.observe_next;
        step
    }
}

/// Observations and sleeps alternate for ever, every sleep lasts the
/// configured interval, and the first step is an observation exactly when the
/// settings ask for an update upon start.
pub proof fn law_cadence(settings: Settings, n: nat)
    ensures
        PollLoopView::start(settings).after(n).step() == if (n % 2 == 0)
            == settings.update_upon_start {
            PollStep::Observe
        } else {
            PollStep::Sleep(settings.ip_poll)
        },
        PollLoopView::start(settings).after(n).interval == settings.ip_poll,
    decreases n,
{
    if n > 0 {
        law_cadence(settings, (n - 1) as nat);
    }
}

} // verus!
