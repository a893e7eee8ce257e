//! What holds of every startup, whatever the devices answer.

use vstd::prelude::*;

use crate::error::EtherCrabError;
use crate::frame::MAX_SLAVES;
use crate::startup::{
    accepts, all_autd, check_nanos, consistent, continue_round, lemma_push, next, possible,
    possible_from, run, run_from, widen, Alignment, Event, Phase, Round, StartupConfig,
};
use crate::time::{elapsed, Duration, Instant};

verus! {

/// The number of devices that a phase works with, once they are known.
pub open spec fn devices_of(phase: Phase) -> Option<usize> {
    match phase {
        Phase::EnableSync0 { devices }
        | Phase::EnterPreOp { devices }
        | Phase::MarkCheck { devices }
        | Phase::MarkStart { devices, .. }
        | Phase::ConfigureDcSync { devices }
        | Phase::EnterSafeOp { devices }
        | Phase::RequestOp { devices }
        | Phase::QueryAllOp { devices }
        | Phase::MarkCycle { devices }
        | Phase::Exchange { devices, .. }
        | Phase::WaitCycle { devices, .. }
        | Phase::Opened { devices } => Some(devices),
        Phase::SyncSystemTime(alignment)
        | Phase::CheckDue(alignment)
        | Phase::Restart(alignment)
        | Phase::Pause(alignment) => Some(alignment.devices),
        Phase::ReadDifference(round) | Phase::Average(round, _) | Phase::CheckTimeout(round) =>
            Some(round.alignment.devices),
        _ => None,
    }
}

/// The stage that a phase belongs to. Repeated phases share a stage.
pub open spec fn stage(phase: Phase) -> int {
    match phase {
        Phase::SplitStorage => 0,
        Phase::StartTxRx => 1,
        Phase::Settle => 2,
        Phase::InitGroup => 3,
        Phase::EnableSync0 { .. } => 4,
        Phase::EnterPreOp { .. } => 5,
        Phase::MarkCheck { .. }
        | Phase::MarkStart { .. }
        | Phase::SyncSystemTime(_)
        | Phase::CheckDue(_)
        | Phase::Restart(_)
        | Phase::ReadDifference(_)
        | Phase::Average(_, _)
        | Phase::CheckTimeout(_)
        | Phase::Pause(_) => 6,
        Phase::ConfigureDcSync { .. } => 7,
        Phase::EnterSafeOp { .. } => 8,
        Phase::RequestOp { .. } => 9,
        Phase::QueryAllOp { .. }
        | Phase::MarkCycle { .. }
        | Phase::Exchange { .. }
        | Phase::WaitCycle { .. } => 10,
        Phase::Opened { .. } => 11,
        Phase::Failed(_) => 12,
    }
}

/// The round as it stands after an event that begins it or tells the deviation of a device.
pub open spec fn round_after(phase: Phase, event: Event) -> Option<Round> {
    match (phase, event) {
        (Phase::Restart(alignment), Event::Clock(now)) => Some(
            Round {
                alignment: Alignment { checked: now, ..alignment },
                index: 0,
                max_deviation: Duration::of(0),
            },
        ),
        (Phase::Average(round, _), Event::Averaged(nanos)) => Some(
            widen(round, Duration::of(nanos as nat)),
        ),
        _ => None,
    }
}

/// Whether an event completes a round in which every device deviates by less than the tolerance.
pub open spec fn settles(config: StartupConfig, phase: Phase, event: Event) -> bool {
    &&& round_after(phase, event) matches Some(round)
    &&& round.index >= round.alignment.devices
    &&& round.max_deviation@ < config.sync_tolerance@
}

/// Whether `events` hold the discovery of `devices` AUTD3 devices.
pub open spec fn discovers(events: Seq<Event>, devices: usize) -> bool {
    exists|i: int|
        0 <= i < events.len() && (#[trigger] events[i] matches Event::Group(names) && all_autd(
            names@,
        ) && names@.len() == devices)
}

/// Whether the clocks settle in the course of `events`.
pub open spec fn settles_within(config: StartupConfig, events: Seq<Event>) -> bool {
    exists|i: int|
        0 <= i < events.len() && settles(config, run(config, events.take(i)), #[trigger] events[i])
}

/// Every phase that a startup can reach is consistent.
pub proof fn law_reachable_phases_are_consistent(config: StartupConfig, events: Seq<Event>)
    requires
        possible(config, events),
    ensures
        consistent(run(config, events)),
    decreases events.len(),
{
    if events.len() > 0 {
        law_reachable_phases_are_consistent(config, events.drop_last());
    }
}

/// A startup goes through its stages in order: an event keeps it in its stage, takes it to the next
/// one, or fails it.
pub proof fn law_stages_follow_in_order(config: StartupConfig, phase: Phase, event: Event)
    requires
        accepts(config, phase, event),
    ensures
        ({
            let after = next(config, phase, event);
            after is Failed || stage(after) == stage(phase) || stage(after) == stage(phase) + 1
        }),
{
}

/// A startup that has succeeded or failed goes no further.
pub proof fn law_finished_startup_is_final(config: StartupConfig, phase: Phase, event: Event)
    requires
        phase is Opened || phase is Failed,
    ensures
        !accepts(config, phase, event),
{
}

proof fn lemma_discovers_extends(events: Seq<Event>, devices: usize)
    requires
        events.len() > 0,
        discovers(events.drop_last(), devices),
    ensures
        discovers(events, devices),
{
    let i = choose|i: int|
        0 <= i < events.drop_last().len() && (#[trigger] events.drop_last()[i] matches Event::Group(
            names,
        ) && all_autd(names@) && names@.len() == devices);
    assert(events[i] == events.drop_last()[i]);
}

/// From the discovery on, a startup works with as many devices as the geometry has, all of which
/// have been found to be AUTD3 devices, and which are no more than the link can serve.
pub proof fn law_devices_match_geometry(config: StartupConfig, events: Seq<Event>)
    requires
        possible(config, events),
    ensures
        devices_of(run(config, events)) matches Some(devices) ==> devices == config.geometry_len
            && devices <= MAX_SLAVES && discovers(events, devices),
    decreases events.len(),
{
    if events.len() > 0 {
        let before = events.drop_last();
        law_devices_match_geometry(config, before);
        let phase = run(config, before);
        if devices_of(run(config, events)) is Some {
            match events.last() {
                Event::Group(names) => {
                    assert(events[events.len() - 1] == events.last());
                },
                _ => {
                    assert(devices_of(phase) == devices_of(run(config, events)));
                    lemma_discovers_extends(events, devices_of(phase).unwrap());
                },
            }
        }
    }
}

/// The devices are taken out of PRE-OP only after a round in which every clock deviated by less
/// than the tolerance.
pub proof fn law_clocks_settle_first(config: StartupConfig, events: Seq<Event>)
    requires
        possible(config, events),
    ensures
        7 <= stage(run(config, events)) <= 11 ==> settles_within(config, events),
    decreases events.len(),
{
    if events.len() > 0 {
        let before = events.drop_last();
        law_clocks_settle_first(config, before);
        let phase = run(config, before);
        if 7 <= stage(run(config, events)) <= 11 {
            law_stages_follow_in_order(config, phase, events.last());
            if 7 <= stage(phase) {
                let i = choose|i: int|
                    0 <= i < before.len() && settles(
                        config,
                        run(config, before.take(i)),
                        #[trigger] before[i],
                    );
                assert(before.take(i) =~= events.take(i));
                assert(events[i] == before[i]);
            } else {
                let i = events.len() - 1;
                assert(events.take(i) =~= before);
                assert(settles(config, run(config, events.take(i)), events[i]));
            }
        }
    }
}

/// Whether the SYNC0 pulse was let drive every device in the course of `events`.
pub open spec fn enables_sync0_within(config: StartupConfig, events: Seq<Event>) -> bool {
    exists|i: int|
        0 <= i < events.len() && run(config, events.take(i)) is EnableSync0
            && #[trigger] events[i] is Done
}

/// The clocks are not aligned before the SYNC0 pulse was let drive every device.
pub proof fn law_sync0_is_enabled_first(config: StartupConfig, events: Seq<Event>)
    requires
        possible(config, events),
    ensures
        5 <= stage(run(config, events)) <= 11 ==> enables_sync0_within(config, events),
    decreases events.len(),
{
    if events.len() > 0 {
        let before = events.drop_last();
        law_sync0_is_enabled_first(config, before);
        let phase = run(config, before);
        if 5 <= stage(run(config, events)) <= 11 {
            law_stages_follow_in_order(config, phase, events.last());
            if 5 <= stage(phase) {
                let i = choose|i: int|
                    0 <= i < before.len() && run(config, before.take(i)) is EnableSync0
                        && #[trigger] before[i] is Done;
                assert(before.take(i) =~= events.take(i));
                assert(events[i] == before[i]);
            } else {
                let i = events.len() - 1;
                assert(events.take(i) =~= before);
                assert(events[i] is Done);
            }
        }
    }
}

/// Every startup that gets anywhere has split the storage itself, with its first event.
pub proof fn law_every_startup_splits_the_storage(config: StartupConfig, events: Seq<Event>)
    requires
        possible(config, events),
    ensures
        1 <= stage(run(config, events)) <= 11 ==> events.len() > 0 && events[0] == Event::Done,
    decreases events.len(),
{
    if events.len() > 0 {
        let before = events.drop_last();
        law_every_startup_splits_the_storage(config, before);
        law_stages_follow_in_order(config, run(config, before), events.last());
        if before.len() > 0 {
            assert(before[0] == events[0]);
            lemma_first_stage_is_left_at_once(config, before);
        }
    }
}

/// The first event takes a startup out of its first stage.
proof fn lemma_first_stage_is_left_at_once(config: StartupConfig, events: Seq<Event>)
    requires
        possible(config, events),
        events.len() > 0,
    ensures
        stage(run(config, events)) > 0,
    decreases events.len(),
{
    let before = events.drop_last();
    if before.len() > 0 {
        lemma_first_stage_is_left_at_once(config, before);
        law_stages_follow_in_order(config, run(config, before), events.last());
    }
}

/// A link opens only when as many devices as the geometry has were found, all of them AUTD3
/// devices and no more than the link can serve, when all of them were set to follow the SYNC0
/// pulse, when their clocks have settled, and when the devices have just reported that all of them
/// are in OP. No link opens with a tolerance of zero.
pub proof fn law_open_link_is_ready(config: StartupConfig, events: Seq<Event>)
    requires
        possible(config, events),
        run(config, events) is Opened,
    ensures
        run(config, events) == (Phase::Opened { devices: config.geometry_len }),
        config.geometry_len <= MAX_SLAVES,
        discovers(events, config.geometry_len),
        enables_sync0_within(config, events),
        settles_within(config, events),
        config.sync_tolerance@ > 0,
        events.last() == Event::AllOp(true),
{
    law_sync0_is_enabled_first(config, events);
    law_devices_match_geometry(config, events);
    law_clocks_settle_first(config, events);
}

/// Whether a phase and an event account for an error.
pub open spec fn accounts_for(
    config: StartupConfig,
    phase: Phase,
    event: Event,
    error: EtherCrabError,
) -> bool {
    match error {
        EtherCrabError::PduStorageError => event is StorageTaken,
        EtherCrabError::NoInterfaceAvailable => false,
        EtherCrabError::DeviceNotFound => event matches Event::Group(names) && exists|i: int|
            0 <= i < names@.len() && #[trigger] names@[i]@ != "AUTD"@,
        EtherCrabError::IoError(text) => event == Event::Io(text),
        EtherCrabError::EtherCrab(e) => event == Event::Bus(e) && !(phase is ReadDifference
            && e is WorkingCounter),
        EtherCrabError::DeviceNumberMismatch(specified, found) => event matches Event::Group(names)
            && all_autd(names@) && specified == config.geometry_len && found == names@.len()
            && specified != found,
        EtherCrabError::SyncTimeout(deviation) => {
            &&& phase matches Phase::CheckTimeout(round)
            &&& event matches Event::Clock(now)
            &&& deviation == round.max_deviation
            &&& deviation@ >= config.sync_tolerance@
            &&& elapsed(round.alignment.started@, now@) > config.sync_timeout@
        },
    }
}

/// A failed startup failed with its last event, and that event accounts for the error.
pub proof fn law_failures_are_accounted_for(
    config: StartupConfig,
    events: Seq<Event>,
    error: EtherCrabError,
)
    requires
        possible(config, events),
        run(config, events) == Phase::Failed(error),
    ensures
        events.len() > 0,
        accounts_for(config, run(config, events.drop_last()), events.last(), error),
{
    let before = events.drop_last();
    let phase = run(config, before);
    if phase is CheckTimeout {
        lemma_timeout_is_checked_after_a_bad_round(config, before);
    }
    if let Event::Group(names) = events.last() {
        // the number of names fits a machine word
        assert(names@.len() == names.len());
    }
}

/// The timeout is looked at only after a round that left the clocks apart.
proof fn lemma_timeout_is_checked_after_a_bad_round(config: StartupConfig, events: Seq<Event>)
    requires
        possible(config, events),
    ensures
        run(config, events) matches Phase::CheckTimeout(round) ==> round.max_deviation@
            >= config.sync_tolerance@,
{
    if events.len() > 0 {
        assert(accepts(config, run(config, events.drop_last()), events.last()));
    }
}

/// Two rounds begin at least the check interval apart, provided that the clock does not run
/// backwards while a round is being begun.
pub proof fn law_rounds_are_spaced(
    config: StartupConfig,
    alignment: Alignment,
    due: Instant,
    mark: Instant,
)
    requires
        due@ <= mark@,
        next(config, Phase::CheckDue(alignment), Event::Clock(due)) is Restart,
    ensures
        round_after(Phase::Restart(alignment), Event::Clock(mark)) matches Some(round)
            && round.alignment.checked@ >= alignment.checked@ + check_nanos(),
{
}

/// The largest of the given numbers, zero if there is none.
pub open spec fn largest(numbers: Seq<u64>) -> nat
    decreases numbers.len(),
{
    if numbers.len() == 0 {
        0
    } else {
        let before = largest(numbers.drop_last());
        if before < numbers.last() {
            numbers.last() as nat
        } else {
            before
        }
    }
}

/// The events of a round: for each device in turn the answer to the reading of its clock, then the
/// average of its deviation.
pub open spec fn round_events(answers: Seq<Event>, averages: Seq<u64>) -> Seq<Event>
    decreases averages.len(),
{
    if averages.len() == 0 {
        seq![]
    } else {
        round_events(answers.drop_last(), averages.drop_last()).push(answers.last()).push(
            Event::Averaged(averages.last()),
        )
    }
}

/// Whether an answer to the reading of a clock lets the round go on.
pub open spec fn is_reading(answer: Event) -> bool {
    answer is Register || (answer matches Event::Bus(e) && e is WorkingCounter)
}

/// The largest of the given numbers is one of them, or zero, and none is larger.
pub proof fn law_largest(numbers: Seq<u64>)
    ensures
        forall|i: int| 0 <= i < numbers.len() ==> #[trigger] numbers[i] <= largest(numbers),
        numbers.len() > 0 ==> exists|i: int|
            0 <= i < numbers.len() && #[trigger] numbers[i] == largest(numbers),
    decreases numbers.len(),
{
    if numbers.len() > 0 {
        let before = numbers.drop_last();
        law_largest(before);
        assert(numbers[numbers.len() - 1] == numbers.last());
        assert forall|i: int| 0 <= i < numbers.len() implies #[trigger] numbers[i] <= largest(
            numbers,
        ) by {
            if i < before.len() {
                assert(numbers[i] == before[i]);
            }
        }
        if largest(before) >= numbers.last() && before.len() > 0 {
            let i = choose|i: int| 0 <= i < before.len() && #[trigger] before[i] == largest(before);
            assert(numbers[i] == before[i]);
        }
    }
}

/// A round takes in the devices in order, one answer and one average each, and its deviation is the
/// largest average so far.
pub proof fn law_round_takes_the_largest_deviation(
    config: StartupConfig,
    alignment: Alignment,
    answers: Seq<Event>,
    averages: Seq<u64>,
)
    requires
        answers.len() == averages.len() <= alignment.devices,
        forall|i: int| 0 <= i < answers.len() ==> is_reading(#[trigger] answers[i]),
    ensures
        ({
            let begin = Round { alignment, index: 0, max_deviation: Duration::of(0) };
            let phase = run_from(
                config,
                continue_round(config, begin),
                round_events(answers, averages),
            );
            phase == continue_round(
                config,
                Round {
                    alignment,
                    index: averages.len() as usize,
                    max_deviation: Duration::of(largest(averages)),
                },
            )
        }),
    decreases averages.len(),
{
    broadcast use Duration::lemma_of;

    let begin = Round { alignment, index: 0, max_deviation: Duration::of(0) };
    let start = continue_round(config, begin);
    if averages.len() > 0 {
        let answers0 = answers.drop_last();
        let averages0 = averages.drop_last();
        assert forall|i: int| 0 <= i < answers0.len() implies is_reading(#[trigger] answers0[i]) by {
            assert(answers0[i] == answers[i]);
        }
        law_round_takes_the_largest_deviation(config, alignment, answers0, averages0);
        law_largest(averages0);
        let events0 = round_events(answers0, averages0);
        let phase0 = run_from(config, start, events0);
        let round0 = Round {
            alignment,
            index: averages0.len() as usize,
            max_deviation: Duration::of(largest(averages0)),
        };
        assert(phase0 == Phase::ReadDifference(round0));
        assert(is_reading(answers[answers.len() - 1]));
        let events1 = events0.push(answers.last());
        assert(events1.drop_last() =~= events0);
        let phase1 = run_from(config, start, events1);
        assert(phase1 == next(config, phase0, answers.last()));
        assert(phase1 is Average && phase1->Average_0 == round0);
        let events = round_events(answers, averages);
        assert(events.drop_last() =~= events1);
        assert(run_from(config, start, events) == continue_round(
            config,
            widen(round0, Duration::of(averages.last() as nat)),
        ));
    }
}

/// A complete round ends the alignment exactly if the averages of all devices are below the
/// tolerance, and otherwise leads to a look at the timeout with the largest of them.
pub proof fn law_round_verdict(
    config: StartupConfig,
    alignment: Alignment,
    answers: Seq<Event>,
    averages: Seq<u64>,
)
    requires
        answers.len() == averages.len() == alignment.devices,
        forall|i: int| 0 <= i < answers.len() ==> is_reading(#[trigger] answers[i]),
    ensures
        ({
            let begin = Round { alignment, index: 0, max_deviation: Duration::of(0) };
            let phase = run_from(
                config,
                continue_round(config, begin),
                round_events(answers, averages),
            );
            if 0 < config.sync_tolerance@ && (forall|i: int|
                0 <= i < averages.len() ==> #[trigger] averages[i] < config.sync_tolerance@) {
                phase == (Phase::ConfigureDcSync { devices: alignment.devices })
            } else {
                phase matches Phase::CheckTimeout(round) && round.alignment == alignment
                    && round.max_deviation == Duration::of(largest(averages))
            }
        }),
{
    broadcast use Duration::lemma_of;

    law_round_takes_the_largest_deviation(config, alignment, answers, averages);
    law_largest(averages);
}

proof fn lemma_concat(config: StartupConfig, phase: Phase, first: Seq<Event>, second: Seq<Event>)
    ensures
        run_from(config, phase, first + second) == run_from(
            config,
            run_from(config, phase, first),
            second,
        ),
        possible_from(config, phase, first + second) == (possible_from(config, phase, first)
            && possible_from(config, run_from(config, phase, first), second)),
    decreases second.len(),
{
    if second.len() == 0 {
        assert(first + second =~= first);
    } else {
        lemma_concat(config, phase, first, second.drop_last());
        assert((first + second).drop_last() =~= first + second.drop_last());
    }
}

/// The events of a round are possible in it.
proof fn lemma_round_is_possible(
    config: StartupConfig,
    alignment: Alignment,
    answers: Seq<Event>,
    averages: Seq<u64>,
)
    requires
        answers.len() == averages.len() <= alignment.devices,
        forall|i: int| 0 <= i < answers.len() ==> is_reading(#[trigger] answers[i]),
    ensures
        ({
            let begin = Round { alignment, index: 0, max_deviation: Duration::of(0) };
            possible_from(config, continue_round(config, begin), round_events(answers, averages))
        }),
    decreases averages.len(),
{
    if averages.len() > 0 {
        let begin = Round { alignment, index: 0, max_deviation: Duration::of(0) };
        let start = continue_round(config, begin);
        let answers0 = answers.drop_last();
        let averages0 = averages.drop_last();
        assert forall|i: int| 0 <= i < answers0.len() implies is_reading(#[trigger] answers0[i]) by {
            assert(answers0[i] == answers[i]);
        }
        lemma_round_is_possible(config, alignment, answers0, averages0);
        law_round_takes_the_largest_deviation(config, alignment, answers0, averages0);
        assert(is_reading(answers[answers.len() - 1]));
        let events0 = round_events(answers0, averages0);
        lemma_push(config, start, events0, answers.last());
        lemma_push(config, start, events0.push(answers.last()), Event::Averaged(averages.last()));
    }
}

/// The events of a startup on a network in good order: every action succeeds, the devices of the
/// geometry are found, the first look at the clocks is due at once and finds them aligned, and all
/// devices are in OP when they are first asked.
pub open spec fn good_events(
    names: Vec<String>,
    checked: Instant,
    started: Instant,
    due: Instant,
    mark: Instant,
    answers: Seq<Event>,
    averages: Seq<u64>,
) -> Seq<Event> {
    seq![
        Event::Done,
        Event::Done,
        Event::Done,
        Event::Group(names),
        Event::Done,
        Event::Done,
        Event::Clock(checked),
        Event::Clock(started),
        Event::Done,
        Event::Clock(due),
        Event::Clock(mark),
    ] + round_events(answers, averages) + seq![
        Event::Done,
        Event::Done,
        Event::Done,
        Event::AllOp(true),
    ]
}

/// A network in good order is opened: no condition beyond those on the names and the number of the
/// devices, on their clocks and on their state stands in the way.
pub proof fn law_good_network_opens(
    config: StartupConfig,
    names: Vec<String>,
    checked: Instant,
    started: Instant,
    due: Instant,
    mark: Instant,
    answers: Seq<Event>,
    averages: Seq<u64>,
)
    requires
        names@.len() == config.geometry_len <= MAX_SLAVES,
        all_autd(names@),
        elapsed(checked@, due@) >= check_nanos(),
        answers.len() == averages.len() == config.geometry_len,
        forall|i: int| 0 <= i < answers.len() ==> is_reading(#[trigger] answers[i]),
        0 < config.sync_tolerance@,
        forall|i: int| 0 <= i < averages.len() ==> #[trigger] averages[i] < config.sync_tolerance@,
    ensures
        ({
            let events = good_events(names, checked, started, due, mark, answers, averages);
            &&& possible(config, events)
            &&& run(config, events) == (Phase::Opened { devices: config.geometry_len })
        }),
{
    let split = Phase::SplitStorage;
    let e0 = Seq::<Event>::empty();
    let e1 = e0.push(Event::Done);
    let e2 = e1.push(Event::Done);
    let e3 = e2.push(Event::Done);
    let e4 = e3.push(Event::Group(names));
    let e5 = e4.push(Event::Done);
    let e6 = e5.push(Event::Done);
    let e7 = e6.push(Event::Clock(checked));
    let e8 = e7.push(Event::Clock(started));
    let e9 = e8.push(Event::Done);
    let e10 = e9.push(Event::Clock(due));
    let e11 = e10.push(Event::Clock(mark));
    lemma_push(config, split, e0, Event::Done);
    lemma_push(config, split, e1, Event::Done);
    lemma_push(config, split, e2, Event::Done);
    lemma_push(config, split, e3, Event::Group(names));
    lemma_push(config, split, e4, Event::Done);
    lemma_push(config, split, e5, Event::Done);
    lemma_push(config, split, e6, Event::Clock(checked));
    lemma_push(config, split, e7, Event::Clock(started));
    lemma_push(config, split, e8, Event::Done);
    lemma_push(config, split, e9, Event::Clock(due));
    lemma_push(config, split, e10, Event::Clock(mark));
    let alignment = Alignment { devices: config.geometry_len, checked: mark, started };
    let begin = Round { alignment, index: 0, max_deviation: Duration::of(0) };
    let start = continue_round(config, begin);
    assert(run(config, e11) == start);
    let round = round_events(answers, averages);
    law_round_verdict(config, alignment, answers, averages);
    lemma_round_is_possible(config, alignment, answers, averages);
    lemma_concat(config, split, e11, round);
    let e12 = e11 + round;
    let e13 = e12.push(Event::Done);
    let e14 = e13.push(Event::Done);
    let e15 = e14.push(Event::Done);
    let e16 = e15.push(Event::AllOp(true));
    lemma_push(config, split, e12, Event::Done);
    lemma_push(config, split, e13, Event::Done);
    lemma_push(config, split, e14, Event::Done);
    lemma_push(config, split, e15, Event::AllOp(true));
    assert(e16 =~= good_events(names, checked, started, due, mark, answers, averages));
}

/// Each event of a possible run is a possible outcome after those before it, and takes the run one
/// step further.
pub proof fn lemma_each_event_is_possible(config: StartupConfig, events: Seq<Event>, i: int)
    requires
        possible(config, events),
        0 <= i < events.len(),
    ensures
        accepts(config, run(config, events.take(i)), events[i]),
        run(config, events.take(i + 1)) == next(config, run(config, events.take(i)), events[i]),
    decreases events.len(),
{
    let before = events.drop_last();
    if i == events.len() - 1 {
        assert(events.take(i) =~= before);
        assert(events.take(i + 1) =~= events);
    } else {
        lemma_each_event_is_possible(config, before, i);
        assert(events.take(i) =~= before.take(i));
        assert(events.take(i + 1) =~= before.take(i + 1));
    }
}

} // verus!
