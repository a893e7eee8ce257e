//! What a cyclic exchange asks for, outcome by outcome.

use vstd::prelude::*;

use crate::cycle::{accepts, action_of, next, CycleAction, CycleConfig, CycleEvent, CyclePhase};
use crate::error::BusError;
use crate::frame::{InputFrame, TxMessage};
use crate::option::TimerStrategy;
use crate::time::{max_nanos, Duration, Instant};

verus! {

/// A cycle begins with the question whether the link is open. If it is not, the exchange is over;
/// if it is, the clock is read and the process data are exchanged. A failed exchange ends it all
/// with that failure.
pub proof fn law_open_link_exchanges(config: CycleConfig, started: Instant, e: BusError)
    ensures
        action_of(&CyclePhase::CheckOpen) is CheckOpen,
        accepts(config, CyclePhase::CheckOpen, CycleEvent::Open(false)),
        next(config, CyclePhase::CheckOpen, CycleEvent::Open(false)) is Finished,
        action_of(&CyclePhase::Finished) is Finish,
        accepts(config, CyclePhase::CheckOpen, CycleEvent::Open(true)),
        next(config, CyclePhase::CheckOpen, CycleEvent::Open(true)) is MarkStart,
        action_of(&CyclePhase::MarkStart) is ReadClock,
        accepts(config, CyclePhase::MarkStart, CycleEvent::Clock(started)),
        next(config, CyclePhase::MarkStart, CycleEvent::Clock(started)) == (CyclePhase::Exchange {
            started,
        }),
        action_of(&CyclePhase::Exchange { started }) is Exchange,
        accepts(config, CyclePhase::Exchange { started }, CycleEvent::Bus(e)),
        next(config, CyclePhase::Exchange { started }, CycleEvent::Bus(e)) == CyclePhase::Failed(e),
        action_of(&CyclePhase::Failed(e)) is Finish,
{
}

/// After a successful exchange the inputs of all devices are read and stored as they were read, and
/// the send buffer is looked at. The transmission taken, if any, is loaded as it was taken, and the
/// clock is read. All the while the deadline is the start of the cycle plus the wait that the
/// exchange asked for.
pub proof fn law_inputs_are_stored_and_outputs_loaded(
    config: CycleConfig,
    started: Instant,
    wait: Duration,
    frames: Vec<InputFrame>,
    tx: Vec<TxMessage>,
)
    requires
        started@ + wait@ <= max_nanos(),
        frames@.len() == config.devices,
        config.devices <= tx@.len(),
    ensures
        accepts(config, CyclePhase::Exchange { started }, CycleEvent::NextCycle(wait)),
        ({
            let read = next(config, CyclePhase::Exchange { started }, CycleEvent::NextCycle(wait));
            let store = next(config, read, CycleEvent::Inputs(frames));
            let poll = next(config, store, CycleEvent::Done);
            let load = next(config, poll, CycleEvent::Taken(Some(tx)));
            let loaded = next(config, load, CycleEvent::Done);
            let idle = next(config, poll, CycleEvent::Taken(None));
            &&& action_of(&read) is ReadInputs
            &&& accepts(config, read, CycleEvent::Inputs(frames))
            &&& action_of(&store) matches CycleAction::StoreInputs(stored) && *stored == frames
            &&& accepts(config, store, CycleEvent::Done)
            &&& action_of(&poll) is Poll
            &&& accepts(config, poll, CycleEvent::Taken(Some(tx)))
            &&& accepts(config, poll, CycleEvent::Taken(None))
            &&& action_of(&load) matches CycleAction::LoadOutputs(taken) && *taken == tx
            &&& accepts(config, load, CycleEvent::Done)
            &&& loaded matches CyclePhase::Wait { deadline } && deadline@ == started@ + wait@
            &&& idle matches CyclePhase::Wait { deadline } && deadline@ == started@ + wait@
            &&& action_of(&loaded) is ReadClock
            &&& action_of(&idle) is ReadClock
        }),
{
    broadcast use Instant::lemma_of;

}

/// What a task is told to do while it waits takes it to the deadline. From the deadline on, the next
/// cycle begins. Before it, the sleeping task is told to sleep exactly the time that is left, after
/// which the next cycle begins; the spinning task is told to spin and to read the clock again, with
/// the same deadline.
pub proof fn law_wait_takes_to_the_deadline(config: CycleConfig, deadline: Instant, now: Instant)
    requires
        deadline@ <= max_nanos(),
    ensures
        accepts(config, CyclePhase::Wait { deadline }, CycleEvent::Clock(now)),
        action_of(&CyclePhase::Wait { deadline }) is ReadClock,
        ({
            let after = next(config, CyclePhase::Wait { deadline }, CycleEvent::Clock(now));
            if deadline@ <= now@ {
                after is CheckOpen
            } else {
                match config.strategy {
                    TimerStrategy::Sleep => {
                        &&& action_of(&after) matches CycleAction::Sleep(span) && now@ + span@
                            == deadline@
                        &&& accepts(config, after, CycleEvent::Done)
                        &&& next(config, after, CycleEvent::Done) is CheckOpen
                    },
                    TimerStrategy::BusyWait => {
                        &&& action_of(&after) is Spin
                        &&& accepts(config, after, CycleEvent::Done)
                        &&& next(config, after, CycleEvent::Done) == (CyclePhase::Wait { deadline })
                    },
                }
            }
        }),
{
    broadcast use Duration::lemma_of;

}

/// The outcomes that each action can have. There is one input frame per device, a transmission has
/// a message for every device, and what has ended has no outcome.
pub proof fn law_outcomes_of_actions(config: CycleConfig, phase: CyclePhase, event: CycleEvent)
    ensures
        match action_of(&phase) {
            CycleAction::CheckOpen => accepts(config, phase, event) <==> event is Open,
            CycleAction::ReadClock => accepts(config, phase, event) <==> event is Clock,
            CycleAction::Exchange => accepts(config, phase, event) ==> event is Bus
                || event is NextCycle,
            CycleAction::ReadInputs => accepts(config, phase, event) <==> (
            event matches CycleEvent::Inputs(frames) && frames@.len() == config.devices),
            CycleAction::Poll => accepts(config, phase, event) <==> (
            event matches CycleEvent::Taken(taken) && (taken matches Some(tx) ==> tx@.len()
                >= config.devices)),
            CycleAction::StoreInputs(_)
            | CycleAction::LoadOutputs(_)
            | CycleAction::Sleep(_)
            | CycleAction::Spin => accepts(config, phase, event) <==> event is Done,
            CycleAction::Finish => !accepts(config, phase, event),
        },
{
}

/// An exchange is taken as successful exactly if the end of its cycle is representable.
pub proof fn law_exchange_needs_a_deadline(config: CycleConfig, started: Instant, wait: Duration)
    ensures
        accepts(config, CyclePhase::Exchange { started }, CycleEvent::NextCycle(wait)) <==> started@
            + wait@ <= max_nanos(),
{
}

/// From a successful exchange on, every step keeps the deadline, whatever it is, and every action
/// carries what was decided or read before it.
pub proof fn law_deadline_and_data_are_kept(
    config: CycleConfig,
    deadline: Instant,
    frames: Vec<InputFrame>,
    tx: Vec<TxMessage>,
    span: Duration,
)
    ensures
        action_of(&CyclePhase::ReadInputs { deadline }) is ReadInputs,
        next(config, CyclePhase::ReadInputs { deadline }, CycleEvent::Inputs(frames)) == (
        CyclePhase::StoreInputs { deadline, frames }),
        action_of(&CyclePhase::StoreInputs { deadline, frames }) == CycleAction::StoreInputs(
            &frames,
        ),
        next(config, CyclePhase::StoreInputs { deadline, frames }, CycleEvent::Done) == (
        CyclePhase::Poll { deadline }),
        action_of(&CyclePhase::Poll { deadline }) is Poll,
        next(config, CyclePhase::Poll { deadline }, CycleEvent::Taken(None)) == (
        CyclePhase::Wait { deadline }),
        next(config, CyclePhase::Poll { deadline }, CycleEvent::Taken(Some(tx))) == (
        CyclePhase::LoadOutputs { deadline, tx }),
        action_of(&CyclePhase::LoadOutputs { deadline, tx }) == CycleAction::LoadOutputs(&tx),
        next(config, CyclePhase::LoadOutputs { deadline, tx }, CycleEvent::Done) == (
        CyclePhase::Wait { deadline }),
        action_of(&CyclePhase::Sleep(span)) == CycleAction::Sleep(span),
        next(config, CyclePhase::Sleep(span), CycleEvent::Done) is CheckOpen,
        action_of(&CyclePhase::Spin { deadline }) is Spin,
        next(config, CyclePhase::Spin { deadline }, CycleEvent::Done) == (CyclePhase::Wait {
            deadline,
        }),
{
}

} // verus!
