//! What a startup asks for, outcome by outcome.
//!
//! Each law takes a startup at some point and says, for every outcome of the action it has asked
//! for, where that leads and what is asked for next, in plain numbers.

use vstd::prelude::*;

use crate::error::{BusError, EtherCrabError};
use crate::frame::{EC_INPUT_FRAME_SIZE, EC_OUTPUT_FRAME_SIZE, MAX_FRAMES, MAX_SLAVES};
use crate::startup::{
    accepts, action_of, next, possible, run, run_from, Action, Alignment, Event, Phase, Round,
    StartupConfig, StartupState, AVERAGE_PERIOD,
};
use crate::startup_laws::lemma_each_event_is_possible;
use crate::time::{max_nanos, Duration, Instant};

verus! {

/// A startup splits the storage, starts the network task, leaves the network alone for 200 ms and
/// looks for the devices, in this order. It gives up if the storage was split before or if the
/// interface cannot be opened, and tells which.
pub proof fn law_network_is_started(config: StartupConfig, text: String)
    ensures
        action_of(Phase::SplitStorage) is SplitStorage,
        accepts(config, Phase::SplitStorage, Event::Done),
        next(config, Phase::SplitStorage, Event::Done) is StartTxRx,
        accepts(config, Phase::SplitStorage, Event::StorageTaken),
        next(config, Phase::SplitStorage, Event::StorageTaken) == Phase::Failed(
            EtherCrabError::PduStorageError,
        ),
        action_of(Phase::StartTxRx) is StartTxRx,
        accepts(config, Phase::StartTxRx, Event::Done),
        next(config, Phase::StartTxRx, Event::Done) is Settle,
        accepts(config, Phase::StartTxRx, Event::Io(text)),
        next(config, Phase::StartTxRx, Event::Io(text)) == Phase::Failed(
            EtherCrabError::IoError(text),
        ),
        action_of(Phase::Settle) matches Action::Sleep(span) && span@ == 200_000_000,
        accepts(config, Phase::Settle, Event::Done),
        next(config, Phase::Settle, Event::Done) is InitGroup,
        action_of(Phase::InitGroup) is InitGroup,
{
    broadcast use Duration::lemma_of;

}

/// A group of devices is taken exactly if every device is named "AUTD" and there are as many as the
/// geometry has. One other name is enough to refuse it, whatever the number; otherwise the refusal
/// tells both numbers.
pub proof fn law_group_is_judged(config: StartupConfig, names: Vec<String>)
    requires
        names@.len() <= 16,
    ensures
        accepts(config, Phase::InitGroup, Event::Group(names)),
        (exists|i: int| 0 <= i < names@.len() && #[trigger] names@[i]@ != "AUTD"@) ==> next(
            config,
            Phase::InitGroup,
            Event::Group(names),
        ) == Phase::Failed(EtherCrabError::DeviceNotFound),
        (forall|i: int| 0 <= i < names@.len() ==> #[trigger] names@[i]@ == "AUTD"@) ==> match next(
            config,
            Phase::InitGroup,
            Event::Group(names),
        ) {
            Phase::EnableSync0 { devices } => devices == names@.len() && devices
                == config.geometry_len,
            Phase::Failed(EtherCrabError::DeviceNumberMismatch(specified, found)) => specified
                == config.geometry_len && found == names@.len() && specified != found,
            _ => false,
        },
{
}

/// The devices taken are set to follow the SYNC0 pulse and brought to PRE-OP. Then the clock is read
/// twice: the first reading counts as the latest look at the clocks, the second as the start of the
/// alignment. The alignment begins with the distribution of the system time.
pub proof fn law_devices_are_prepared(
    config: StartupConfig,
    devices: usize,
    checked: Instant,
    started: Instant,
)
    ensures
        action_of(Phase::EnableSync0 { devices }) is EnableSync0,
        accepts(config, Phase::EnableSync0 { devices }, Event::Done),
        next(config, Phase::EnableSync0 { devices }, Event::Done) == (Phase::EnterPreOp { devices }),
        action_of(Phase::EnterPreOp { devices }) is EnterPreOp,
        accepts(config, Phase::EnterPreOp { devices }, Event::Done),
        next(config, Phase::EnterPreOp { devices }, Event::Done) == (Phase::MarkCheck { devices }),
        action_of(Phase::MarkCheck { devices }) is ReadClock,
        accepts(config, Phase::MarkCheck { devices }, Event::Clock(checked)),
        next(config, Phase::MarkCheck { devices }, Event::Clock(checked)) == (Phase::MarkStart {
            devices,
            checked,
        }),
        action_of(Phase::MarkStart { devices, checked }) is ReadClock,
        accepts(config, Phase::MarkStart { devices, checked }, Event::Clock(started)),
        next(config, Phase::MarkStart { devices, checked }, Event::Clock(started))
            == Phase::SyncSystemTime(Alignment { devices, checked, started }),
{
}

/// After every distribution of the system time the clock is read. If 25 ms have passed since the
/// latest look at the clocks, the clock is read once more and a round begins; if not, the rest of
/// the 25 ms is slept and the system time is distributed again.
pub proof fn law_clocks_are_looked_at_every_25_ms(
    config: StartupConfig,
    alignment: Alignment,
    now: Instant,
)
    ensures
        action_of(Phase::SyncSystemTime(alignment)) is SyncSystemTime,
        accepts(config, Phase::SyncSystemTime(alignment), Event::Done),
        next(config, Phase::SyncSystemTime(alignment), Event::Done) == Phase::CheckDue(alignment),
        action_of(Phase::CheckDue(alignment)) is ReadClock,
        alignment.checked@ + 25_000_000 <= now@ ==> {
            &&& accepts(config, Phase::CheckDue(alignment), Event::Clock(now))
            &&& next(config, Phase::CheckDue(alignment), Event::Clock(now)) == Phase::Restart(
                alignment,
            )
        },
        now@ < alignment.checked@ + 25_000_000 ==> next(
            config,
            Phase::CheckDue(alignment),
            Event::Clock(now),
        ) == Phase::Pause(alignment),
        alignment.checked@ + 25_000_000 <= max_nanos() ==> {
            &&& accepts(config, Phase::CheckDue(alignment), Event::Clock(now))
            &&& action_of(Phase::Pause(alignment)) matches Action::SleepUntil(deadline)
            &&& deadline@ == alignment.checked@ + 25_000_000
        },
        accepts(config, Phase::Pause(alignment), Event::Done),
        next(config, Phase::Pause(alignment), Event::Done) == Phase::SyncSystemTime(alignment),
        action_of(Phase::Restart(alignment)) is ReadClock,
{
    broadcast use Instant::lemma_of;

}

/// A round begins with the first device and no deviation, and the reading that begins it counts as
/// the latest look at the clocks. With no device, its verdict is due at once.
pub proof fn law_round_begins_at_the_first_device(
    config: StartupConfig,
    alignment: Alignment,
    now: Instant,
)
    ensures
        accepts(config, Phase::Restart(alignment), Event::Clock(now)),
        match next(config, Phase::Restart(alignment), Event::Clock(now)) {
            Phase::ReadDifference(round) => {
                &&& alignment.devices > 0
                &&& round.index == 0
                &&& round.max_deviation@ == 0
                &&& round.alignment.devices == alignment.devices
                &&& round.alignment.checked == now
                &&& round.alignment.started == alignment.started
            },
            Phase::ConfigureDcSync { devices } => devices == 0 && alignment.devices == 0
                && config.sync_tolerance@ > 0,
            Phase::CheckTimeout(round) => {
                &&& alignment.devices == 0
                &&& config.sync_tolerance@ == 0
                &&& round.max_deviation@ == 0
                &&& round.alignment.devices == 0
                &&& round.alignment.checked == now
                &&& round.alignment.started == alignment.started
            },
            _ => false,
        },
{
    broadcast use Duration::lemma_of;

}

/// What the moving average of a device is fed is what the device's register says, read as sign and
/// magnitude: nothing is cut off, and only a register that holds no magnitude is fed as zero. The
/// round stays where it is.
pub proof fn law_reading_is_averaged(config: StartupConfig, round: Round, value: u32)
    ensures
        action_of(Phase::ReadDifference(round)) == Action::ReadDifference(round.index),
        accepts(config, Phase::ReadDifference(round), Event::Register(value)),
        ({
            let after = next(config, Phase::ReadDifference(round), Event::Register(value));
            &&& after matches Phase::Average(same, _) && same == round
            &&& action_of(after) matches Action::Average(index, difference) && {
                &&& index == round.index
                &&& value <= 0x7FFF_FFFF ==> difference == value
                &&& value > 0x7FFF_FFFF ==> difference == -(value - 0x8000_0000)
                &&& difference == 0 <==> (value == 0 || value == 0x8000_0000)
            }
        }),
{
}

/// A device that does not answer the reading of its clock is fed as zero; any other failure of the
/// reading is passed on.
pub proof fn law_failed_reading(
    config: StartupConfig,
    round: Round,
    expected: u16,
    received: u16,
    text: String,
)
    ensures
        ({
            let event = Event::Bus(BusError::WorkingCounter { expected, received });
            let after = next(config, Phase::ReadDifference(round), event);
            &&& accepts(config, Phase::ReadDifference(round), event)
            &&& after == Phase::Average(round, 0)
            &&& action_of(after) == Action::Average(round.index, 0)
        }),
        ({
            let event = Event::Bus(BusError::Other(text));
            &&& accepts(config, Phase::ReadDifference(round), event)
            &&& next(config, Phase::ReadDifference(round), event) == Phase::Failed(
                EtherCrabError::EtherCrab(BusError::Other(text)),
            )
        }),
{
}

/// An average raises the deviation of the round if it is larger, and the round goes on with the
/// next device. After the last one the alignment is done exactly if the deviation is below the
/// tolerance; otherwise the clock is read.
pub proof fn law_average_is_judged(
    config: StartupConfig,
    round: Round,
    difference: i32,
    nanos: u64,
)
    requires
        round.index < round.alignment.devices,
    ensures
        accepts(config, Phase::Average(round, difference), Event::Averaged(nanos)),
        ({
            let deviation = if round.max_deviation@ < nanos {
                nanos as nat
            } else {
                round.max_deviation@
            };
            match next(config, Phase::Average(round, difference), Event::Averaged(nanos)) {
                Phase::ReadDifference(after) => {
                    &&& round.index + 1 < round.alignment.devices
                    &&& after.index == round.index + 1
                    &&& after.alignment == round.alignment
                    &&& after.max_deviation@ == deviation
                },
                Phase::ConfigureDcSync { devices } => {
                    &&& round.index + 1 == round.alignment.devices
                    &&& deviation < config.sync_tolerance@
                    &&& devices == round.alignment.devices
                },
                Phase::CheckTimeout(after) => {
                    &&& round.index + 1 == round.alignment.devices
                    &&& deviation >= config.sync_tolerance@
                    &&& after.alignment == round.alignment
                    &&& after.max_deviation@ == deviation
                },
                _ => false,
            }
        }),
{
    broadcast use Duration::lemma_of;

}

/// Clocks that are apart after a round fail the startup exactly if the alignment has taken longer
/// than its limit, and the failure tells the deviation that was left. Otherwise the rest of the
/// 25 ms since the round began is slept, and the system time is distributed again.
pub proof fn law_timeout_decides(config: StartupConfig, round: Round, now: Instant)
    ensures
        action_of(Phase::CheckTimeout(round)) is ReadClock,
        round.alignment.started@ + config.sync_timeout@ < now@ ==> {
            &&& accepts(config, Phase::CheckTimeout(round), Event::Clock(now))
            &&& next(config, Phase::CheckTimeout(round), Event::Clock(now)) == Phase::Failed(
                EtherCrabError::SyncTimeout(round.max_deviation),
            )
        },
        now@ <= round.alignment.started@ + config.sync_timeout@ ==> next(
            config,
            Phase::CheckTimeout(round),
            Event::Clock(now),
        ) == Phase::Pause(round.alignment),
        round.alignment.checked@ + 25_000_000 <= max_nanos() ==> {
            &&& accepts(config, Phase::CheckTimeout(round), Event::Clock(now))
            &&& action_of(Phase::Pause(round.alignment)) matches Action::SleepUntil(deadline)
            &&& deadline@ == round.alignment.checked@ + 25_000_000
        },
{
    broadcast use Instant::lemma_of;

}

/// If the time of the next look at the clocks is not representable, a reading of the clock that would
/// lead to a pause is not taken. One that finds the alignment timed out still is.
pub proof fn law_pause_needs_a_deadline(config: StartupConfig, round: Round, now: Instant)
    requires
        round.alignment.checked@ + 25_000_000 > max_nanos(),
        now@ <= max_nanos(),
    ensures
        !accepts(config, Phase::CheckDue(round.alignment), Event::Clock(now)),
        accepts(config, Phase::CheckTimeout(round), Event::Clock(now)) <==> now@
            > round.alignment.started@ + config.sync_timeout@,
{
}

/// Aligned devices have their SYNC0 pulse configured, are taken to SAFE-OP and asked to enter OP,
/// and are then asked whether all of them have.
pub proof fn law_aligned_devices_are_taken_to_op(config: StartupConfig, devices: usize)
    ensures
        action_of(Phase::ConfigureDcSync { devices }) is ConfigureDcSync,
        accepts(config, Phase::ConfigureDcSync { devices }, Event::Done),
        next(config, Phase::ConfigureDcSync { devices }, Event::Done) == (Phase::EnterSafeOp {
            devices,
        }),
        action_of(Phase::EnterSafeOp { devices }) is EnterSafeOp,
        accepts(config, Phase::EnterSafeOp { devices }, Event::Done),
        next(config, Phase::EnterSafeOp { devices }, Event::Done) == (Phase::RequestOp { devices }),
        action_of(Phase::RequestOp { devices }) is RequestOp,
        accepts(config, Phase::RequestOp { devices }, Event::Done),
        next(config, Phase::RequestOp { devices }, Event::Done) == (Phase::QueryAllOp { devices }),
        action_of(Phase::QueryAllOp { devices }) is QueryAllOp,
{
}

/// Devices that are all in OP open the link. If not all are, the clock is read, the process data are
/// exchanged, and the cycle is waited out from that reading on before the devices are asked again.
pub proof fn law_devices_are_driven_to_op(
    config: StartupConfig,
    devices: usize,
    started: Instant,
    wait: Duration,
)
    requires
        started@ + wait@ <= max_nanos(),
    ensures
        accepts(config, Phase::QueryAllOp { devices }, Event::AllOp(true)),
        next(config, Phase::QueryAllOp { devices }, Event::AllOp(true)) == (Phase::Opened {
            devices,
        }),
        action_of(Phase::Opened { devices }) is Finish,
        accepts(config, Phase::QueryAllOp { devices }, Event::AllOp(false)),
        next(config, Phase::QueryAllOp { devices }, Event::AllOp(false)) == (Phase::MarkCycle {
            devices,
        }),
        action_of(Phase::MarkCycle { devices }) is ReadClock,
        accepts(config, Phase::MarkCycle { devices }, Event::Clock(started)),
        next(config, Phase::MarkCycle { devices }, Event::Clock(started)) == (Phase::Exchange {
            devices,
            started,
        }),
        action_of(Phase::Exchange { devices, started }) is Exchange,
        accepts(config, Phase::Exchange { devices, started }, Event::NextCycle(wait)),
        ({
            let after = next(
                config,
                Phase::Exchange { devices, started },
                Event::NextCycle(wait),
            );
            &&& action_of(after) matches Action::SleepUntil(deadline) && deadline@ == started@
                + wait@
            &&& accepts(config, after, Event::Done)
            &&& next(config, after, Event::Done) == (Phase::QueryAllOp { devices })
        }),
{
    broadcast use Instant::lemma_of;

}

/// Between two questions whether all devices are in OP there is exactly one exchange of process
/// data, timed from a reading of the clock before it and waited out until that reading plus the
/// wait that it asked for.
pub proof fn law_one_exchange_between_two_questions(
    config: StartupConfig,
    events: Seq<Event>,
    i: int,
    j: int,
)
    requires
        possible(config, events),
        0 <= i < j < events.len(),
        events[i] == Event::AllOp(false),
        events[j] is AllOp,
        forall|k: int| i < k < j ==> !(#[trigger] events[k] is AllOp),
    ensures
        j == i + 4,
        action_of(run(config, events.take(i + 1))) is ReadClock,
        action_of(run(config, events.take(i + 2))) is Exchange,
        events[i + 3] is Done,
        events[i + 1] matches Event::Clock(started) && {
            events[i + 2] matches Event::NextCycle(wait) && {
                &&& action_of(run(config, events.take(i + 3))) matches Action::SleepUntil(deadline)
                &&& deadline@ == started@ + wait@
            }
        },
{
    broadcast use Instant::lemma_of;

    lemma_each_event_is_possible(config, events, i);
    lemma_each_event_is_possible(config, events, i + 1);
    assert(events[i + 1] is Clock);
    assert(j != i + 1);
    lemma_each_event_is_possible(config, events, i + 2);
    assert(j != i + 2);
    lemma_each_event_is_possible(config, events, i + 3);
    assert(events[i + 2] is NextCycle);
    assert(j != i + 3);
    lemma_each_event_is_possible(config, events, i + 4);
    if j > i + 4 {
        assert(!(events[i + 4] is AllOp));
        lemma_each_event_is_possible(config, events, i + 5);
    }
}

/// A failure of the main device ends the startup with that failure, except for a device that does
/// not answer the reading of its clock. Nothing is asked for after that.
pub proof fn law_bus_failure_ends_the_startup(
    config: StartupConfig,
    phase: Phase,
    e: BusError,
    error: EtherCrabError,
)
    requires
        accepts(config, phase, Event::Bus(e)),
    ensures
        !(phase is ReadDifference && e is WorkingCounter) ==> next(config, phase, Event::Bus(e))
            == Phase::Failed(EtherCrabError::EtherCrab(e)),
        action_of(Phase::Failed(error)) is Finish,
{
}

/// The outcomes that each action can have. The actions on the main device, and they alone, can fail
/// with its failure; a sleep, and what cannot fail, is only ever done; what asks for a value is
/// answered with that value.
pub proof fn law_outcomes_of_actions(config: StartupConfig, phase: Phase, event: Event)
    ensures
        match action_of(phase) {
            Action::SplitStorage => accepts(config, phase, event) <==> (event is Done
                || event is StorageTaken),
            Action::StartTxRx => accepts(config, phase, event) <==> (event is Done || event is Io),
            Action::Sleep(_) | Action::SleepUntil(_) | Action::EnableSync0 => accepts(
                config,
                phase,
                event,
            ) <==> event is Done,
            Action::EnterPreOp
            | Action::SyncSystemTime
            | Action::ConfigureDcSync
            | Action::EnterSafeOp
            | Action::RequestOp => accepts(config, phase, event) <==> (event is Done
                || event is Bus),
            Action::ReadClock => accepts(config, phase, event) ==> event is Clock,
            Action::InitGroup => accepts(config, phase, event) <==> (event is Bus || (
            event matches Event::Group(names) && names@.len() <= 16)),
            Action::ReadDifference(_) => accepts(config, phase, event) <==> (event is Bus
                || event is Register),
            Action::Average(_, _) => accepts(config, phase, event) <==> event is Averaged,
            Action::QueryAllOp => accepts(config, phase, event) <==> (event is Bus
                || event is AllOp),
            Action::Exchange => accepts(config, phase, event) ==> event is Bus
                || event is NextCycle,
            Action::Finish => !accepts(config, phase, event),
        },
{
}

/// An exchange can always fail, and is taken as successful exactly if the end of its cycle is
/// representable.
pub proof fn law_outcomes_of_an_exchange(
    config: StartupConfig,
    devices: usize,
    started: Instant,
    wait: Duration,
    e: BusError,
)
    ensures
        accepts(config, Phase::Exchange { devices, started }, Event::Bus(e)),
        accepts(config, Phase::Exchange { devices, started }, Event::NextCycle(wait)) <==> started@
            + wait@ <= max_nanos(),
{
}

/// The figures that the network and the moving average are set up with: a network can hold up to
/// sixteen devices, each of which takes 626 bytes and gives two, eight frames can be in flight, and
/// an average goes over nine periods.
pub proof fn law_figures()
    ensures
        MAX_SLAVES == 16,
        MAX_FRAMES == 8,
        EC_OUTPUT_FRAME_SIZE == 626,
        EC_INPUT_FRAME_SIZE == 2,
        AVERAGE_PERIOD == 9,
{
}

/// A run of a startup is its events taken one after the other, from the split of the storage on.
pub proof fn law_run_is_step_by_step(config: StartupConfig, events: Seq<Event>, event: Event)
    ensures
        run(config, Seq::empty()) is SplitStorage,
        run(config, events.push(event)) == next(config, run(config, events), event),
        possible(config, events.push(event)) <==> possible(config, events) && accepts(
            config,
            run(config, events),
            event,
        ),
{
    assert(events.push(event).drop_last() =~= events);
    assert(run_from(config, Phase::SplitStorage, Seq::empty()) is SplitStorage);
}

/// A startup is only ever where a run of possible outcomes has led it.
pub proof fn law_every_startup_comes_from_a_run(state: StartupState)
    requires
        state.reachable(),
    ensures
        possible(state.config, state.events),
        state.phase == run(state.config, state.events),
{
}

} // verus!
