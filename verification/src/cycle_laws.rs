//! What holds of every cyclic exchange, whatever the devices answer.

use vstd::prelude::*;

use crate::cycle::{
    accepts, action_of, next, CycleAction, CycleConfig, CycleEvent, CyclePhase,
};
use crate::error::BusError;
use crate::frame::{frame_bytes, loaded_all, InputFrame, TxMessage};
use crate::sleep::law_no_wait_ends_early;
use crate::time::{max_nanos, Duration, Instant};

verus! {

/// The phase in which a cyclic exchange is after `events`.
pub open spec fn run(config: CycleConfig, events: Seq<CycleEvent>) -> CyclePhase
    decreases events.len(),
{
    if events.len() == 0 {
        CyclePhase::CheckOpen
    } else {
        next(config, run(config, events.drop_last()), events.last())
    }
}

/// Whether each of `events` is a possible outcome at its time.
pub open spec fn possible(config: CycleConfig, events: Seq<CycleEvent>) -> bool
    decreases events.len(),
{
    events.len() == 0 || {
        &&& possible(config, events.drop_last())
        &&& accepts(config, run(config, events.drop_last()), events.last())
    }
}

/// The deadline of the current cycle, from its exchange on until it sleeps.
pub open spec fn deadline_of(phase: CyclePhase) -> Option<Instant> {
    match phase {
        CyclePhase::ReadInputs { deadline }
        | CyclePhase::StoreInputs { deadline, .. }
        | CyclePhase::Poll { deadline }
        | CyclePhase::LoadOutputs { deadline, .. }
        | CyclePhase::Wait { deadline }
        | CyclePhase::Spin { deadline } => Some(deadline),
        _ => None,
    }
}

/// Whether the latest exchange of `events` is at step `i` and asks for the next cycle at `deadline`.
pub open spec fn sets_deadline(
    config: CycleConfig,
    events: Seq<CycleEvent>,
    i: int,
    deadline: Instant,
) -> bool {
    &&& run(config, events.take(i)) matches CyclePhase::Exchange { started }
    &&& events[i] matches CycleEvent::NextCycle(wait)
    &&& deadline@ == started@ + wait@
    &&& deadline@ <= max_nanos()
    &&& forall|j: int|
        i < j <= events.len() ==> !((#[trigger] run(config, events.take(j))) is Exchange)
}

/// No process data are exchanged unless the link has just been found open, and the cycle is timed
/// from the clock reading in between.
pub proof fn law_exchange_only_while_open(
    config: CycleConfig,
    events: Seq<CycleEvent>,
    started: Instant,
)
    requires
        possible(config, events),
        run(config, events) == (CyclePhase::Exchange { started }),
    ensures
        events.len() >= 2,
        events[events.len() - 2] == CycleEvent::Open(true),
        events[events.len() - 1] == CycleEvent::Clock(started),
{
    reveal_with_fuel(possible, 4);
    reveal_with_fuel(run, 4);
    let before = events.drop_last();
    assert(run(config, before) is MarkStart);
    assert(accepts(config, run(config, before.drop_last()), before.last()));
    assert(before.last() == events[events.len() - 2]);
}

/// A cyclic exchange ends without error exactly when the link is found closed.
pub proof fn law_finished_when_closed(config: CycleConfig, events: Seq<CycleEvent>)
    requires
        possible(config, events),
        events.len() > 0,
    ensures
        run(config, events) is Finished <==> events.last() == CycleEvent::Open(false),
{
}

/// A cyclic exchange fails exactly when the main device fails, and with the error of the main
/// device.
pub proof fn law_failed_by_the_main_device(
    config: CycleConfig,
    events: Seq<CycleEvent>,
    e: BusError,
)
    requires
        possible(config, events),
        events.len() > 0,
    ensures
        run(config, events) == CyclePhase::Failed(e) <==> events.last() == CycleEvent::Bus(e),
{
}

/// A cyclic exchange that has ended does not go on.
pub proof fn law_ended_exchange_is_final(
    config: CycleConfig,
    phase: CyclePhase,
    event: CycleEvent,
)
    requires
        phase is Finished || phase is Failed,
    ensures
        !accepts(config, phase, event),
{
}

/// The deadline of a cycle is the start of the cycle plus the wait that its exchange asked for.
pub proof fn law_deadline_comes_from_the_exchange(
    config: CycleConfig,
    events: Seq<CycleEvent>,
    deadline: Instant,
)
    requires
        possible(config, events),
        deadline_of(run(config, events)) == Some(deadline),
    ensures
        exists|i: int|
            0 <= i < events.len() && #[trigger] sets_deadline(config, events, i, deadline),
    decreases events.len(),
{
    broadcast use Instant::lemma_of;

    let before = events.drop_last();
    let phase = run(config, before);
    assert(accepts(config, phase, events.last()));
    if phase is Exchange {
        assert(events.take(events.len() - 1) =~= before);
        assert(events.take(events.len() as int) =~= events);
        assert(sets_deadline(config, events, events.len() - 1, deadline));
    } else {
        law_deadline_comes_from_the_exchange(config, before, deadline);
        let i = choose|i: int|
            0 <= i < before.len() && #[trigger] sets_deadline(config, before, i, deadline);
        assert(before.take(i) =~= events.take(i));
        assert(before[i] == events[i]);
        assert forall|j: int| i < j <= events.len() implies !((#[trigger] run(
            config,
            events.take(j),
        )) is Exchange) by {
            if j < events.len() {
                assert(events.take(j) =~= before.take(j));
            } else {
                assert(events.take(j) =~= events);
            }
        }
        assert(sets_deadline(config, events, i, deadline));
    }
}

/// Whether a wait for `deadline` was seen through by the end of `events`: the clock was seen at or
/// past the deadline, or the rest of the time was slept.
pub open spec fn waited_for(
    config: CycleConfig,
    events: Seq<CycleEvent>,
    deadline: Instant,
) -> bool {
    let n = events.len() as int;
    ||| {
        &&& run(config, events.take(n - 1)) == (CyclePhase::Wait { deadline })
        &&& events[n - 1] matches CycleEvent::Clock(now)
        &&& deadline@ <= now@
    }
    ||| {
        &&& n >= 2
        &&& run(config, events.take(n - 2)) == (CyclePhase::Wait { deadline })
        &&& events[n - 2] matches CycleEvent::Clock(now)
        &&& run(config, events.take(n - 1)) matches CyclePhase::Sleep(span)
        &&& now@ + span@ == deadline@
        &&& events[n - 1] is Done
    }
}

/// No cycle but the first begins before the cycle before it has been waited out.
pub proof fn law_no_cycle_begins_early(config: CycleConfig, events: Seq<CycleEvent>)
    requires
        possible(config, events),
        events.len() > 0,
        run(config, events) is CheckOpen,
    ensures
        exists|deadline: Instant| #[trigger] waited_for(config, events, deadline),
{
    reveal_with_fuel(possible, 4);
    reveal_with_fuel(run, 4);
    let n = events.len() as int;
    let before = events.drop_last();
    assert(before =~= events.take(n - 1));
    let phase = run(config, before);
    assert(accepts(config, phase, events.last()));
    match phase {
        CyclePhase::Wait { deadline } => {
            assert(waited_for(config, events, deadline));
        },
        CyclePhase::Sleep(span) => {
            let waiting = before.drop_last();
            assert(waiting =~= events.take(n - 2));
            assert(accepts(config, run(config, waiting), before.last()));
            assert(before.last() == events[n - 2]);
            let deadline = deadline_of(run(config, waiting)).unwrap();
            law_deadline_comes_from_the_exchange(config, waiting, deadline);
            let now = events[n - 2]->Clock_0;
            law_no_wait_ends_early(config.strategy, deadline@, now@);
            assert(waited_for(config, events, deadline));
        },
        _ => {},
    }
}

/// Each event of a possible run is a possible outcome after those before it.
proof fn lemma_each_event_is_possible(config: CycleConfig, events: Seq<CycleEvent>, i: int)
    requires
        possible(config, events),
        0 <= i < events.len(),
    ensures
        accepts(config, run(config, events.take(i)), events[i]),
        run(config, events.take(i + 1)) == next(config, run(config, events.take(i)), events[i]),
    decreases events.len(),
{
    let before = events.drop_last();
    if i == events.len() - 1 {
        assert(events.take(i) =~= before);
        assert(events.take(i + 1) =~= events);
    } else {
        lemma_each_event_is_possible(config, before, i);
        assert(events.take(i) =~= before.take(i));
        assert(events.take(i + 1) =~= before.take(i + 1));
    }
}

/// The send buffer is not looked at again before another exchange.
proof fn lemma_no_poll_before_exchange(
    config: CycleConfig,
    events: Seq<CycleEvent>,
    i: int,
    k: int,
)
    requires
        possible(config, events),
        0 <= i < k <= events.len(),
        events[i] is Taken,
        forall|m: int| i < m < k ==> !(#[trigger] events[m] is NextCycle),
    ensures
        !(run(config, events.take(k)) is ReadInputs),
        !(run(config, events.take(k)) is StoreInputs),
        !(run(config, events.take(k)) is Poll),
    decreases k,
{
    lemma_each_event_is_possible(config, events, k - 1);
    if i < k - 1 {
        lemma_no_poll_before_exchange(config, events, i, k - 1);
        assert(!(events[k - 1] is NextCycle));
    }
}

/// At most one transmission is taken per cycle: between two looks at the send buffer there is an
/// exchange.
pub proof fn law_one_transmission_per_cycle(
    config: CycleConfig,
    events: Seq<CycleEvent>,
    i: int,
    j: int,
)
    requires
        possible(config, events),
        0 <= i < j < events.len(),
        events[i] is Taken,
        events[j] is Taken,
    ensures
        exists|k: int| i < k < j && #[trigger] events[k] is NextCycle,
{
    if forall|k: int| i < k < j ==> !(#[trigger] events[k] is NextCycle) {
        lemma_no_poll_before_exchange(config, events, i, j);
        lemma_each_event_is_possible(config, events, j);
    }
}

/// What the link has stored of the devices' inputs and what stands in the devices' outputs.
pub struct ProcessImage {
    pub inputs: Seq<Seq<u8>>,
    pub outputs: Seq<Seq<u8>>,
}

/// The image after an action has been performed. Storing and loading are the only actions that
/// change it.
pub open spec fn perform(action: CycleAction<'_>, image: ProcessImage) -> ProcessImage {
    match action {
        CycleAction::StoreInputs(frames) => ProcessImage { inputs: frame_bytes(frames@), ..image },
        CycleAction::LoadOutputs(tx) => ProcessImage {
            outputs: loaded_all(tx@, image.outputs),
            ..image
        },
        _ => image,
    }
}

/// The image after `events`, from `image` on.
pub open spec fn image_after(
    config: CycleConfig,
    events: Seq<CycleEvent>,
    image: ProcessImage,
) -> ProcessImage
    decreases events.len(),
{
    if events.len() == 0 {
        image
    } else {
        perform(
            action_of(&run(config, events.drop_last())),
            image_after(config, events.drop_last(), image),
        )
    }
}

/// The image after the exchange of one cycle, given the frames that were read and the transmission
/// that was taken in it.
pub open spec fn exchanged(
    frames: Seq<InputFrame>,
    taken: Option<Vec<TxMessage>>,
    image: ProcessImage,
) -> ProcessImage {
    ProcessImage {
        inputs: frame_bytes(frames),
        outputs: match taken {
            Some(tx) => loaded_all(tx@, image.outputs),
            None => image.outputs,
        },
    }
}

/// The events of one cycle, up to the wait for the next one.
pub open spec fn cycle_events(
    started: Instant,
    wait: Duration,
    frames: Vec<InputFrame>,
    taken: Option<Vec<TxMessage>>,
) -> Seq<CycleEvent> {
    let events = seq![
        CycleEvent::Open(true),
        CycleEvent::Clock(started),
        CycleEvent::NextCycle(wait),
        CycleEvent::Inputs(frames),
        CycleEvent::Done,
        CycleEvent::Taken(taken),
    ];
    if taken is Some {
        events.push(CycleEvent::Done)
    } else {
        events
    }
}

proof fn lemma_push(
    config: CycleConfig,
    events: Seq<CycleEvent>,
    event: CycleEvent,
    image: ProcessImage,
)
    ensures
        run(config, events.push(event)) == next(config, run(config, events), event),
        possible(config, events.push(event)) == (possible(config, events) && accepts(
            config,
            run(config, events),
            event,
        )),
        image_after(config, events.push(event), image) == perform(
            action_of(&run(config, events)),
            image_after(config, events, image),
        ),
{
    assert(events.push(event).drop_last() =~= events);
}

/// One whole cycle, begun while the link is open, in which the exchange succeeds: whatever the
/// devices' frames are and whether or not a transmission is waiting, the cycle is gone through, the
/// inputs stored are those of the devices, the outputs of the devices begin with the messages taken
/// or stay as they were, and what is left is the wait until the start of the cycle plus the time
/// that the exchange asked for.
pub proof fn law_one_whole_cycle(
    config: CycleConfig,
    before: Seq<CycleEvent>,
    started: Instant,
    wait: Duration,
    frames: Vec<InputFrame>,
    taken: Option<Vec<TxMessage>>,
    image: ProcessImage,
)
    requires
        possible(config, before),
        run(config, before) is CheckOpen,
        started@ + wait@ <= max_nanos(),
        frames@.len() == config.devices,
        taken matches Some(tx) ==> config.devices <= tx@.len(),
    ensures
        ({
            let events = before + cycle_events(started, wait, frames, taken);
            &&& possible(config, events)
            &&& run(config, events) == (CyclePhase::Wait {
                deadline: Instant::of(started@ + wait@),
            })
            &&& image_after(config, events, image) == exchanged(
                frames@,
                taken,
                image_after(config, before, image),
            )
        }),
{
    let e1 = before.push(CycleEvent::Open(true));
    let e2 = e1.push(CycleEvent::Clock(started));
    let e3 = e2.push(CycleEvent::NextCycle(wait));
    let e4 = e3.push(CycleEvent::Inputs(frames));
    let e5 = e4.push(CycleEvent::Done);
    let e6 = e5.push(CycleEvent::Taken(taken));
    lemma_push(config, before, CycleEvent::Open(true), image);
    lemma_push(config, e1, CycleEvent::Clock(started), image);
    lemma_push(config, e2, CycleEvent::NextCycle(wait), image);
    lemma_push(config, e3, CycleEvent::Inputs(frames), image);
    lemma_push(config, e4, CycleEvent::Done, image);
    lemma_push(config, e5, CycleEvent::Taken(taken), image);
    if taken is Some {
        lemma_push(config, e6, CycleEvent::Done, image);
        assert(e6.push(CycleEvent::Done) =~= before + cycle_events(started, wait, frames, taken));
    } else {
        assert(e6 =~= before + cycle_events(started, wait, frames, taken));
    }
}

/// Whether `events` end with the cycle of the given events.
pub open spec fn ends_with_cycle(
    config: CycleConfig,
    events: Seq<CycleEvent>,
    before: Seq<CycleEvent>,
    started: Instant,
    wait: Duration,
    frames: Vec<InputFrame>,
    taken: Option<Vec<TxMessage>>,
) -> bool {
    &&& events == before + cycle_events(started, wait, frames, taken)
    &&& possible(config, before)
    &&& run(config, before) is CheckOpen
    &&& started@ + wait@ <= max_nanos()
    &&& frames@.len() == config.devices
    &&& taken matches Some(tx) ==> config.devices <= tx@.len()
}

/// A run that is not at the beginning of a cycle is a possible run with one more event.
proof fn lemma_last(config: CycleConfig, events: Seq<CycleEvent>)
    requires
        possible(config, events),
        !(run(config, events) is CheckOpen),
    ensures
        events.len() > 0,
        events == events.drop_last().push(events.last()),
        possible(config, events.drop_last()),
        accepts(config, run(config, events.drop_last()), events.last()),
        run(config, events) == next(config, run(config, events.drop_last()), events.last()),
{
    assert(events =~= events.drop_last().push(events.last()));
}

/// Every cycle that gets as far as its wait is a whole cycle: no other events lead there.
pub proof fn law_every_cycle_is_whole(config: CycleConfig, events: Seq<CycleEvent>)
    requires
        possible(config, events),
        run(config, events) is Wait,
        !(run(config, events.drop_last()) is Spin),
    ensures
        exists|
            before: Seq<CycleEvent>,
            started: Instant,
            wait: Duration,
            frames: Vec<InputFrame>,
            taken: Option<Vec<TxMessage>>,
        | #[trigger]
            ends_with_cycle(config, events, before, started, wait, frames, taken),
{
    lemma_last(config, events);
    let loaded = run(config, events.drop_last()) is LoadOutputs;
    let e6 = if loaded {
        events.drop_last()
    } else {
        events
    };
    lemma_last(config, e6);
    let taken = e6.last()->Taken_0;
    let e5 = e6.drop_last();
    lemma_last(config, e5);
    let e4 = e5.drop_last();
    lemma_last(config, e4);
    let frames = e4.last()->Inputs_0;
    let e3 = e4.drop_last();
    lemma_last(config, e3);
    let wait = e3.last()->NextCycle_0;
    let e2 = e3.drop_last();
    lemma_last(config, e2);
    let started = e2.last()->Clock_0;
    let e1 = e2.drop_last();
    lemma_last(config, e1);
    let before = e1.drop_last();
    assert(events =~= before + cycle_events(started, wait, frames, taken));
    assert(ends_with_cycle(config, events, before, started, wait, frames, taken));
}

/// The transmissions taken out of the send buffer in the course of `events`, in order.
pub open spec fn taken_in(events: Seq<CycleEvent>) -> Seq<Seq<TxMessage>>
    decreases events.len(),
{
    if events.len() == 0 {
        seq![]
    } else {
        match events.last() {
            CycleEvent::Taken(Some(tx)) => taken_in(events.drop_last()).push(tx@),
            _ => taken_in(events.drop_last()),
        }
    }
}

/// The transmissions loaded into the outputs of the devices in the course of `events`, in order.
pub open spec fn loaded_in(config: CycleConfig, events: Seq<CycleEvent>) -> Seq<Seq<TxMessage>>
    decreases events.len(),
{
    if events.len() == 0 {
        seq![]
    } else {
        let before = loaded_in(config, events.drop_last());
        match action_of(&run(config, events.drop_last())) {
            CycleAction::LoadOutputs(tx) => before.push(tx@),
            _ => before,
        }
    }
}

/// The transmissions loaded are the transmissions taken, each once and in the order in which they
/// were taken; only the one that is about to be loaded is still missing.
pub proof fn law_taken_is_loaded_once_and_in_order(config: CycleConfig, events: Seq<CycleEvent>)
    requires
        possible(config, events),
    ensures
        taken_in(events) == match run(config, events) {
            CyclePhase::LoadOutputs { tx, .. } => loaded_in(config, events).push(tx@),
            _ => loaded_in(config, events),
        },
    decreases events.len(),
{
    if events.len() > 0 {
        law_taken_is_loaded_once_and_in_order(config, events.drop_last());
        assert(accepts(config, run(config, events.drop_last()), events.last()));
    }
}

/// Where the send buffer hands out what was sent in the order of sending, the devices are loaded
/// with what was sent, each once and in that order.
pub proof fn law_sent_is_loaded_in_order(
    config: CycleConfig,
    events: Seq<CycleEvent>,
    sent: Seq<Seq<TxMessage>>,
)
    requires
        possible(config, events),
        taken_in(events).is_prefix_of(sent),
    ensures
        loaded_in(config, events).is_prefix_of(sent),
        !(run(config, events) is LoadOutputs) ==> loaded_in(config, events) == taken_in(events),
{
    law_taken_is_loaded_once_and_in_order(config, events);
    let loaded = loaded_in(config, events);
    assert(loaded =~= taken_in(events).take(loaded.len() as int));
    assert(loaded =~= sent.take(loaded.len() as int));
}

} // verus!
