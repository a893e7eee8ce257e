//! The cyclic exchange with the devices.
//!
//! Once the link is open, a task exchanges the process data in every cycle. A [`Cycle`] decides what
//! the task does next: it performs [`Cycle::action`], reports the outcome to [`Cycle::step`], and
//! goes on until the exchange has finished.

use vstd::pervasive::unreached;
use vstd::prelude::*;

use crate::error::BusError;
use crate::frame::{InputFrame, TxMessage};
use crate::option::TimerStrategy;
use crate::sleep::{wait_for, Wait};
use crate::time::{max_nanos, Duration, Instant};

verus! {

/// How far a cycle has come.
#[derive(Debug)]
pub enum CyclePhase {
    CheckOpen,
    MarkStart,
    Exchange { started: Instant },
    ReadInputs { deadline: Instant },
    StoreInputs { deadline: Instant, frames: Vec<InputFrame> },
    Poll { deadline: Instant },
    LoadOutputs { deadline: Instant, tx: Vec<TxMessage> },
    Wait { deadline: Instant },
    Sleep(Duration),
    Spin { deadline: Instant },
    /// The link was closed.
    Finished,
    /// The exchange failed.
    Failed(BusError),
}

/// What to do next.
#[derive(Debug)]
pub enum CycleAction<'a> {
    /// Ask whether the link is open.
    CheckOpen,
    /// Read the clock.
    ReadClock,
    /// Exchange the process data.
    Exchange,
    /// Read the input frames of all devices.
    ReadInputs,
    /// Store the given input frames, one per device.
    StoreInputs(&'a Vec<InputFrame>),
    /// Take a transmission out of the send buffer, if one is there.
    Poll,
    /// Load the given transmission into the outputs of all devices.
    LoadOutputs(&'a Vec<TxMessage>),
    /// Sleep for a span.
    Sleep(Duration),
    /// Spin once.
    Spin,
    /// Nothing is left to do.
    Finish,
}

/// The outcome of an action.
#[derive(Debug)]
pub enum CycleEvent {
    /// The action succeeded and has no result.
    Done,
    /// Whether the link is open.
    Open(bool),
    /// What the clock reads.
    Clock(Instant),
    /// The time until the next cycle after an exchange.
    NextCycle(Duration),
    /// The main device failed.
    Bus(BusError),
    /// The input frames of all devices.
    Inputs(Vec<InputFrame>),
    /// The transmission that was taken out of the send buffer, if any.
    Taken(Option<Vec<TxMessage>>),
}

/// What a cyclic exchange goes by.
#[derive(Clone, Copy, Debug)]
pub struct CycleConfig {
    /// How to wait for the next cycle.
    pub strategy: TimerStrategy,
    /// Number of devices.
    pub devices: usize,
}

/// Whether `event` is a possible outcome of the action of `phase`: there is an input frame for each
/// device, a transmission has a message for each device, and the deadline that follows from an
/// exchange is representable.
pub open spec fn accepts(config: CycleConfig, phase: CyclePhase, event: CycleEvent) -> bool {
    match event {
        CycleEvent::Done => match phase {
            CyclePhase::StoreInputs { .. }
            | CyclePhase::LoadOutputs { .. }
            | CyclePhase::Sleep(_)
            | CyclePhase::Spin { .. } => true,
            _ => false,
        },
        CycleEvent::Open(_) => phase is CheckOpen,
        CycleEvent::Clock(_) => phase is MarkStart || phase is Wait,
        CycleEvent::NextCycle(wait) => match phase {
            CyclePhase::Exchange { started } => started@ + wait@ <= max_nanos(),
            _ => false,
        },
        CycleEvent::Bus(_) => phase is Exchange,
        CycleEvent::Inputs(frames) => phase is ReadInputs && frames@.len() == config.devices,
        CycleEvent::Taken(taken) => phase is Poll && (taken matches Some(tx) ==> config.devices
            <= tx@.len()),
    }
}

/// Where a cycle goes on an event.
pub open spec fn next(config: CycleConfig, phase: CyclePhase, event: CycleEvent) -> CyclePhase {
    match (phase, event) {
        (CyclePhase::CheckOpen, CycleEvent::Open(open)) => if open {
            CyclePhase::MarkStart
        } else {
            CyclePhase::Finished
        },
        (CyclePhase::MarkStart, CycleEvent::Clock(now)) => CyclePhase::Exchange { started: now },
        (CyclePhase::Exchange { .. }, CycleEvent::Bus(e)) => CyclePhase::Failed(e),
        (CyclePhase::Exchange { started }, CycleEvent::NextCycle(wait)) => CyclePhase::ReadInputs {
            deadline: Instant::of(started@ + wait@),
        },
        (CyclePhase::ReadInputs { deadline }, CycleEvent::Inputs(frames)) =>
            CyclePhase::StoreInputs { deadline, frames },
        (CyclePhase::StoreInputs { deadline, .. }, CycleEvent::Done) => CyclePhase::Poll {
            deadline,
        },
        (CyclePhase::Poll { deadline }, CycleEvent::Taken(taken)) => match taken {
            Some(tx) => CyclePhase::LoadOutputs { deadline, tx },
            None => CyclePhase::Wait { deadline },
        },
        (CyclePhase::LoadOutputs { deadline, .. }, CycleEvent::Done) => CyclePhase::Wait {
            deadline,
        },
        (CyclePhase::Wait { deadline }, CycleEvent::Clock(now)) => match wait_for(
            config.strategy,
            deadline@,
            now@,
        ) {
            Wait::Over => CyclePhase::CheckOpen,
            Wait::Sleep(span) => CyclePhase::Sleep(span),
            Wait::Spin => CyclePhase::Spin { deadline },
        },
        (CyclePhase::Sleep(_), CycleEvent::Done) => CyclePhase::CheckOpen,
        (CyclePhase::Spin { deadline }, CycleEvent::Done) => CyclePhase::Wait { deadline },
        _ => phase,
    }
}

/// The action whose outcome a phase waits for.
pub open spec fn action_of<'a>(phase: &'a CyclePhase) -> CycleAction<'a> {
    match phase {
        CyclePhase::CheckOpen => CycleAction::CheckOpen,
        CyclePhase::MarkStart | CyclePhase::Wait { .. } => CycleAction::ReadClock,
        CyclePhase::Exchange { .. } => CycleAction::Exchange,
        CyclePhase::ReadInputs { .. } => CycleAction::ReadInputs,
        CyclePhase::StoreInputs { frames, .. } => CycleAction::StoreInputs(frames),
        CyclePhase::Poll { .. } => CycleAction::Poll,
        CyclePhase::LoadOutputs { tx, .. } => CycleAction::LoadOutputs(tx),
        CyclePhase::Sleep(span) => CycleAction::Sleep(*span),
        CyclePhase::Spin { .. } => CycleAction::Spin,
        CyclePhase::Finished | CyclePhase::Failed(_) => CycleAction::Finish,
    }
}

/// A cyclic exchange.
#[derive(Debug)]
pub struct Cycle {
    pub config: CycleConfig,
    pub phase: CyclePhase,
}

impl Cycle {
    /// Begins a cyclic exchange.
    pub fn new(config: CycleConfig) -> (cycle: Cycle)
        ensures
            cycle == (Cycle { config, phase: CyclePhase::CheckOpen }),
    {
        Cycle { config, phase: CyclePhase::CheckOpen }
    }

    /// What to do next.
    pub fn action(&self) -> (action: CycleAction<'_>)
        ensures
            action == action_of(&self.phase),
    {
        match &self.phase {
            CyclePhase::CheckOpen => CycleAction::CheckOpen,
            CyclePhase::MarkStart | CyclePhase::Wait { .. } => CycleAction::ReadClock,
            CyclePhase::Exchange { .. } => CycleAction::Exchange,
            CyclePhase::ReadInputs { .. } => CycleAction::ReadInputs,
            CyclePhase::StoreInputs { frames, .. } => CycleAction::StoreInputs(frames),
            CyclePhase::Poll { .. } => CycleAction::Poll,
            CyclePhase::LoadOutputs { tx, .. } => CycleAction::LoadOutputs(tx),
            CyclePhase::Sleep(span) => CycleAction::Sleep(*span),
            CyclePhase::Spin { .. } => CycleAction::Spin,
            CyclePhase::Finished | CyclePhase::Failed(_) => CycleAction::Finish,
        }
    }

    /// Whether `event` is a possible outcome of the current action.
    pub fn accepts(&self, event: &CycleEvent) -> (accepted: bool)
        ensures
            accepted == accepts(self.config, self.phase, *event),
    {
        match event {
            CycleEvent::Done => matches!(
                &self.phase,
                CyclePhase::StoreInputs { .. }
                | CyclePhase::LoadOutputs { .. }
                | CyclePhase::Sleep(_)
                | CyclePhase::Spin { .. }
            ),
            CycleEvent::Open(_) => matches!(&self.phase, CyclePhase::CheckOpen),
            CycleEvent::Clock(_) => matches!(
                &self.phase,
                CyclePhase::MarkStart | CyclePhase::Wait { .. }
            ),
            CycleEvent::NextCycle(wait) => match &self.phase {
                CyclePhase::Exchange { started } => started.checked_add(*wait).is_some(),
                _ => false,
            },
            CycleEvent::Bus(_) => matches!(&self.phase, CyclePhase::Exchange { .. }),
            CycleEvent::Inputs(frames) => matches!(&self.phase, CyclePhase::ReadInputs { .. })
                && frames.len() == self.config.devices,
            CycleEvent::Taken(taken) => matches!(&self.phase, CyclePhase::Poll { .. })
                && match taken {
                Some(tx) => self.config.devices <= tx.len(),
                None => true,
            },
        }
    }

    /// Goes on with the outcome of the current action.
    pub fn step(&mut self, event: CycleEvent)
        requires
            accepts(old(self).config, old(self).phase, event),
        ensures
            final(self).config == old(self).config,
            final(self).phase == next(old(self).config, old(self).phase, event),
    {
        let phase = match (&self.phase, event) {
            (CyclePhase::CheckOpen, CycleEvent::Open(open)) => if open {
                CyclePhase::MarkStart
            } else {
                CyclePhase::Finished
            },
            (CyclePhase::MarkStart, CycleEvent::Clock(now)) => CyclePhase::Exchange {
                started: now,
            },
            (CyclePhase::Exchange { .. }, CycleEvent::Bus(e)) => CyclePhase::Failed(e),
            (CyclePhase::Exchange { started }, CycleEvent::NextCycle(wait)) =>
                CyclePhase::ReadInputs { deadline: started.plus(wait) },
            (CyclePhase::ReadInputs { deadline }, CycleEvent::Inputs(frames)) =>
                CyclePhase::StoreInputs { deadline: *deadline, frames },
            (CyclePhase::StoreInputs { deadline, .. }, CycleEvent::Done) => CyclePhase::Poll {
                deadline: *deadline,
            },
            (CyclePhase::Poll { deadline }, CycleEvent::Taken(taken)) => match taken {
                Some(tx) => CyclePhase::LoadOutputs { deadline: *deadline, tx },
                None => CyclePhase::Wait { deadline: *deadline },
            },
            (CyclePhase::LoadOutputs { deadline, .. }, CycleEvent::Done) => CyclePhase::Wait {
                deadline: *deadline,
            },
            (CyclePhase::Wait { deadline }, CycleEvent::Clock(now)) => {
                match self.config.strategy.sleep_until(*deadline, now) {
                    Wait::Over => CyclePhase::CheckOpen,
                    Wait::Sleep(span) => CyclePhase::Sleep(span),
                    Wait::Spin => CyclePhase::Spin { deadline: *deadline },
                }
            },
            (CyclePhase::Sleep(_), CycleEvent::Done) => CyclePhase::CheckOpen,
            (CyclePhase::Spin { deadline }, CycleEvent::Done) => CyclePhase::Wait {
                deadline: *deadline,
            },
            _ => unreached(),
        };
        self.phase = phase;
    }
}

} // verus!
