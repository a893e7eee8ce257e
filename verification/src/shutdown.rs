//! Closing an open link.
//!
//! A [`Shutdown`] decides what to do next on the way from an open to a closed link. Whoever drives
//! it performs [`Shutdown::action`], reports the outcome to [`Shutdown::step`], and goes on until
//! the shutdown has finished. A shutdown does not fail.

use vstd::pervasive::unreached;
use vstd::prelude::*;

use crate::frame::TxMessage;
use crate::option::EtherCrabOption;
use crate::time::Duration;

verus! {

/// What a link holds from its startup on.
#[derive(Clone, Copy, Debug)]
pub struct EtherCrabInner {
    /// Whether the link is marked as open, which keeps the cyclic exchange going.
    pub is_open: bool,
    /// Whether the task of the cyclic exchange is still to be joined.
    pub task: bool,
    /// Whether the task of the network interface is still to be stopped.
    pub tx_rx_task: bool,
    /// Number of transmissions that the send buffer has room for.
    pub buf_size: usize,
    /// Pause between two looks at the send buffer while the link closes.
    pub interval: Duration,
    /// Number of devices that the inputs are for.
    pub devices: usize,
}

impl EtherCrabInner {
    /// What a link with the given options holds when its startup has succeeded with `devices`
    /// devices.
    pub open spec fn opened(option: EtherCrabOption, devices: usize) -> EtherCrabInner {
        EtherCrabInner {
            is_open: true,
            task: true,
            tx_rx_task: true,
            buf_size: option.buf_size,
            interval: option.interval,
            devices,
        }
    }

    /// What is left of it when it has been closed.
    pub open spec fn closed(self) -> EtherCrabInner {
        EtherCrabInner { is_open: false, task: false, tx_rx_task: false, ..self }
    }

    /// Returns what a link with the given options holds when its startup has succeeded with
    /// `devices` devices.
    pub fn new(option: &EtherCrabOption, devices: usize) -> (inner: EtherCrabInner)
        ensures
            inner == EtherCrabInner::opened(*option, devices),
    {
        EtherCrabInner {
            is_open: true,
            task: true,
            tx_rx_task: true,
            buf_size: option.buf_size,
            interval: option.interval,
            devices,
        }
    }

    /// Whether the link is marked as open.
    pub fn is_open(&self) -> (open: bool)
        ensures
            open == self.is_open,
    {
        self.is_open
    }

    /// The transmission to put into the send buffer.
    pub fn send(&self, tx: &[TxMessage]) -> (queued: Vec<TxMessage>)
        ensures
            queued@ == tx@,
    {
        let mut queued: Vec<TxMessage> = Vec::new();
        let mut i: usize = 0;
        while i < tx.len()
            invariant
                i <= tx@.len(),
                queued@ =~= tx@.take(i as int),
            decreases tx@.len() - i,
        {
            queued.push(tx[i]);
            i = i + 1;
        }
        queued
    }
}

/// How far a shutdown has come.
#[derive(Clone, Copy, Debug)]
pub enum ShutdownPhase {
    CheckQueue,
    Pause,
    ClearOpen,
    JoinTask,
    AbortTxRx,
    Closed,
}

/// What to do next.
#[derive(Debug)]
pub enum ShutdownAction {
    /// Ask whether the send buffer is empty.
    CheckQueue,
    /// Sleep for a span.
    Sleep(Duration),
    /// Mark the link as closed, which ends the cyclic exchange.
    ClearOpen,
    /// Wait for the task of the cyclic exchange to end.
    JoinTask,
    /// Stop the task of the network interface.
    AbortTxRx,
    /// Nothing is left to do.
    Finish,
}

/// The outcome of an action.
#[derive(Clone, Copy, Debug)]
pub enum ShutdownEvent {
    /// The action has been performed.
    Done,
    /// Whether the send buffer is empty.
    QueueEmpty(bool),
}

/// A shutdown on its way.
#[derive(Clone, Copy, Debug)]
pub struct Shutdown {
    /// What the link holds by now.
    pub inner: EtherCrabInner,
    /// How far the shutdown has come.
    pub phase: ShutdownPhase,
}

/// Whether `event` is a possible outcome of the action of `phase`.
pub open spec fn accepts(phase: ShutdownPhase, event: ShutdownEvent) -> bool {
    match event {
        ShutdownEvent::Done => match phase {
            ShutdownPhase::Pause
            | ShutdownPhase::ClearOpen
            | ShutdownPhase::JoinTask
            | ShutdownPhase::AbortTxRx => true,
            _ => false,
        },
        ShutdownEvent::QueueEmpty(_) => phase is CheckQueue,
    }
}

/// Where the shutdown of a link that holds `inner` begins. There is nothing to do if the link is
/// marked as closed.
pub open spec fn begin(inner: EtherCrabInner) -> Shutdown {
    let phase = if inner.is_open {
        ShutdownPhase::CheckQueue
    } else {
        ShutdownPhase::Closed
    };
    Shutdown { inner, phase }
}

/// Where a shutdown turns to when the link is marked as closed: to the first task that is left.
pub open spec fn end_tasks(inner: EtherCrabInner) -> Shutdown {
    let phase = if inner.task {
        ShutdownPhase::JoinTask
    } else if inner.tx_rx_task {
        ShutdownPhase::AbortTxRx
    } else {
        ShutdownPhase::Closed
    };
    Shutdown { inner, phase }
}

/// Where a shutdown goes on an event.
pub open spec fn next(shutdown: Shutdown, event: ShutdownEvent) -> Shutdown {
    let inner = shutdown.inner;
    match (shutdown.phase, event) {
        (ShutdownPhase::CheckQueue, ShutdownEvent::QueueEmpty(empty)) => if empty {
            Shutdown { phase: ShutdownPhase::ClearOpen, ..shutdown }
        } else {
            Shutdown { phase: ShutdownPhase::Pause, ..shutdown }
        },
        (ShutdownPhase::Pause, ShutdownEvent::Done) => Shutdown {
            phase: ShutdownPhase::CheckQueue,
            ..shutdown
        },
        (ShutdownPhase::ClearOpen, ShutdownEvent::Done) => end_tasks(
            EtherCrabInner { is_open: false, ..inner },
        ),
        (ShutdownPhase::JoinTask, ShutdownEvent::Done) => end_tasks(
            EtherCrabInner { task: false, ..inner },
        ),
        (ShutdownPhase::AbortTxRx, ShutdownEvent::Done) => end_tasks(
            EtherCrabInner { tx_rx_task: false, ..inner },
        ),
        _ => shutdown,
    }
}

/// The action whose outcome a shutdown waits for.
pub open spec fn action_of(shutdown: Shutdown) -> ShutdownAction {
    match shutdown.phase {
        ShutdownPhase::CheckQueue => ShutdownAction::CheckQueue,
        ShutdownPhase::Pause => ShutdownAction::Sleep(shutdown.inner.interval),
        ShutdownPhase::ClearOpen => ShutdownAction::ClearOpen,
        ShutdownPhase::JoinTask => ShutdownAction::JoinTask,
        ShutdownPhase::AbortTxRx => ShutdownAction::AbortTxRx,
        ShutdownPhase::Closed => ShutdownAction::Finish,
    }
}

impl Shutdown {
    /// Begins a shutdown.
    pub fn new(inner: EtherCrabInner) -> (shutdown: Shutdown)
        ensures
            shutdown == begin(inner),
    {
        if inner.is_open() {
            Shutdown { inner, phase: ShutdownPhase::CheckQueue }
        } else {
            Shutdown { inner, phase: ShutdownPhase::Closed }
        }
    }

    /// What to do next.
    pub fn action(&self) -> (action: ShutdownAction)
        ensures
            action == action_of(*self),
    {
        match self.phase {
            ShutdownPhase::CheckQueue => ShutdownAction::CheckQueue,
            ShutdownPhase::Pause => ShutdownAction::Sleep(self.inner.interval),
            ShutdownPhase::ClearOpen => ShutdownAction::ClearOpen,
            ShutdownPhase::JoinTask => ShutdownAction::JoinTask,
            ShutdownPhase::AbortTxRx => ShutdownAction::AbortTxRx,
            ShutdownPhase::Closed => ShutdownAction::Finish,
        }
    }

    /// Whether `event` is a possible outcome of the current action.
    pub fn accepts(&self, event: &ShutdownEvent) -> (accepted: bool)
        ensures
            accepted == accepts(self.phase, *event),
    {
        match event {
            ShutdownEvent::Done => matches!(
                &self.phase,
                ShutdownPhase::Pause
                | ShutdownPhase::ClearOpen
                | ShutdownPhase::JoinTask
                | ShutdownPhase::AbortTxRx
            ),
            ShutdownEvent::QueueEmpty(_) => matches!(&self.phase, ShutdownPhase::CheckQueue),
        }
    }

    /// Turns to the first task that is left.
    fn end_tasks(&mut self)
        ensures
            *final(self) == end_tasks(old(self).inner),
    {
        self.phase = if self.inner.task {
            ShutdownPhase::JoinTask
        } else if self.inner.tx_rx_task {
            ShutdownPhase::AbortTxRx
        } else {
            ShutdownPhase::Closed
        };
    }

    /// Goes on with the outcome of the current action.
    pub fn step(&mut self, event: ShutdownEvent)
        requires
            accepts(old(self).phase, event),
        ensures
            *final(self) == next(*old(self), event),
    {
        match (self.phase, event) {
            (ShutdownPhase::CheckQueue, ShutdownEvent::QueueEmpty(empty)) => {
                self.phase = if empty {
                    ShutdownPhase::ClearOpen
                } else {
                    ShutdownPhase::Pause
                };
            },
            (ShutdownPhase::Pause, ShutdownEvent::Done) => {
                self.phase = ShutdownPhase::CheckQueue;
            },
            (ShutdownPhase::ClearOpen, ShutdownEvent::Done) => {
                self.inner.is_open = false;
                self.end_tasks();
            },
            (ShutdownPhase::JoinTask, ShutdownEvent::Done) => {
                self.inner.task = false;
                self.end_tasks();
            },
            (ShutdownPhase::AbortTxRx, ShutdownEvent::Done) => {
                self.inner.tx_rx_task = false;
                self.end_tasks();
            },
            _ => unreached(),
        }
    }
}

/// Where the shutdown of a link that held `inner` is after `events`.
pub open spec fn run(inner: EtherCrabInner, events: Seq<ShutdownEvent>) -> Shutdown
    decreases events.len(),
{
    if events.len() == 0 {
        begin(inner)
    } else {
        next(run(inner, events.drop_last()), events.last())
    }
}

/// Whether each of `events` is a possible outcome at its time.
pub open spec fn possible(inner: EtherCrabInner, events: Seq<ShutdownEvent>) -> bool
    decreases events.len(),
{
    events.len() == 0 || {
        &&& possible(inner, events.drop_last())
        &&& accepts(run(inner, events.drop_last()).phase, events.last())
    }
}

/// The link is not marked as closed before its send buffer has been found empty: what was sent is
/// not dropped.
pub proof fn law_queue_is_drained_first(inner: EtherCrabInner, events: Seq<ShutdownEvent>)
    requires
        possible(inner, events),
        run(inner, events).phase is ClearOpen,
    ensures
        events.len() > 0,
        events.last() == ShutdownEvent::QueueEmpty(true),
{
}

/// The link stays marked as open until it has been marked as closed, and each task stays to be
/// dealt with until it has been; nothing else of what the link holds changes.
pub proof fn law_link_is_taken_down_step_by_step(
    inner: EtherCrabInner,
    events: Seq<ShutdownEvent>,
)
    requires
        possible(inner, events),
    ensures
        ({
            let shutdown = run(inner, events);
            let waiting = shutdown.phase is CheckQueue || shutdown.phase is Pause
                || shutdown.phase is ClearOpen;
            shutdown.inner == if inner.is_open {
                EtherCrabInner {
                    is_open: waiting,
                    task: inner.task && (waiting || shutdown.phase is JoinTask),
                    tx_rx_task: inner.tx_rx_task && !(shutdown.phase is Closed),
                    ..inner
                }
            } else {
                inner
            }
        }),
        !inner.is_open ==> run(inner, events).phase is Closed,
        run(inner, events).phase is JoinTask ==> inner.task,
        run(inner, events).phase is AbortTxRx ==> inner.tx_rx_task,
    decreases events.len(),
{
    if events.len() > 0 {
        law_link_is_taken_down_step_by_step(inner, events.drop_last());
    }
}

/// Neither task is touched before the link has been marked as closed, and the task of the cyclic
/// exchange is joined before the task of the network interface is stopped.
pub proof fn law_tasks_end_in_order(inner: EtherCrabInner, events: Seq<ShutdownEvent>)
    requires
        possible(inner, events),
    ensures
        run(inner, events).phase is JoinTask ==> inner.task && run(
            inner,
            events.drop_last(),
        ).phase is ClearOpen,
        run(inner, events).phase is AbortTxRx ==> inner.tx_rx_task && if inner.task {
            run(inner, events.drop_last()).phase is JoinTask
        } else {
            run(inner, events.drop_last()).phase is ClearOpen
        },
{
    law_link_is_taken_down_step_by_step(inner, events);
    if events.len() > 0 {
        law_link_is_taken_down_step_by_step(inner, events.drop_last());
    }
}

/// The shutdown of an open link ends only after everything that the link holds has been dealt with;
/// that of a link that is marked as closed ends at once and changes nothing.
pub proof fn law_shutdown_is_complete(inner: EtherCrabInner, events: Seq<ShutdownEvent>)
    requires
        possible(inner, events),
        run(inner, events).phase is Closed,
    ensures
        if inner.is_open {
            &&& events.last() == ShutdownEvent::Done
            &&& run(inner, events).inner == inner.closed()
        } else {
            &&& events.len() == 0
            &&& run(inner, events).inner == inner
        },
{
    law_link_is_taken_down_step_by_step(inner, events);
    if events.len() > 0 {
        law_link_is_taken_down_step_by_step(inner, events.drop_last());
    }
}

/// Closing once more what has been closed is over at once.
pub proof fn law_closing_again_does_nothing(inner: EtherCrabInner, events: Seq<ShutdownEvent>)
    requires
        possible(inner, events),
        run(inner, events).phase is Closed,
    ensures
        begin(run(inner, events).inner) == run(inner, events),
{
    law_link_is_taken_down_step_by_step(inner, events);
}

/// A shutdown that has ended does not go on.
pub proof fn law_closed_is_final(event: ShutdownEvent)
    ensures
        !accepts(ShutdownPhase::Closed, event),
{
}

/// What a link holds when its startup has succeeded comes from its options and from the devices
/// found.
pub proof fn law_opened_follows_the_options(option: EtherCrabOption, devices: usize)
    ensures
        ({
            let inner = EtherCrabInner::opened(option, devices);
            &&& inner.is_open
            &&& inner.task
            &&& inner.tx_rx_task
            &&& inner.buf_size == option.buf_size
            &&& inner.interval == option.interval
            &&& inner.devices == devices
        }),
{
}

/// The shutdown of an open link begins with a look at the send buffer; that of a link that is
/// marked as closed has nothing to do.
pub proof fn law_shutdown_begins_with_the_queue(inner: EtherCrabInner)
    ensures
        begin(inner).inner == inner,
        inner.is_open ==> action_of(begin(inner)) is CheckQueue && begin(inner).phase is CheckQueue,
        !inner.is_open ==> action_of(begin(inner)) is Finish && begin(inner).phase is Closed,
{
}

/// An empty send buffer leads to the link being marked as closed, whatever the link holds; only one
/// that is not empty leads to a pause of the interval, after which it is looked at again. Nothing
/// that the link holds changes meanwhile.
pub proof fn law_empty_queue_ends_the_draining(inner: EtherCrabInner)
    ensures
        ({
            let look = Shutdown { inner, phase: ShutdownPhase::CheckQueue };
            let clear = next(look, ShutdownEvent::QueueEmpty(true));
            let pause = next(look, ShutdownEvent::QueueEmpty(false));
            &&& action_of(look) is CheckQueue
            &&& accepts(look.phase, ShutdownEvent::QueueEmpty(true))
            &&& accepts(look.phase, ShutdownEvent::QueueEmpty(false))
            &&& clear.phase is ClearOpen
            &&& clear.inner == inner
            &&& action_of(clear) is ClearOpen
            &&& pause.inner == inner
            &&& action_of(pause) == ShutdownAction::Sleep(inner.interval)
            &&& accepts(pause.phase, ShutdownEvent::Done)
            &&& next(pause, ShutdownEvent::Done) == look
        }),
{
}

/// When the link has been marked as closed, the task of the cyclic exchange is joined if it is
/// there, then the task of the network interface is stopped if it is there, and then nothing is left
/// to do. Each step takes away what it has dealt with and nothing else.
pub proof fn law_tasks_are_ended(inner: EtherCrabInner)
    ensures
        ({
            let cleared = next(
                Shutdown { inner, phase: ShutdownPhase::ClearOpen },
                ShutdownEvent::Done,
            );
            let joined = next(
                Shutdown { inner, phase: ShutdownPhase::JoinTask },
                ShutdownEvent::Done,
            );
            let aborted = next(
                Shutdown { inner, phase: ShutdownPhase::AbortTxRx },
                ShutdownEvent::Done,
            );
            &&& accepts(ShutdownPhase::ClearOpen, ShutdownEvent::Done)
            &&& accepts(ShutdownPhase::JoinTask, ShutdownEvent::Done)
            &&& accepts(ShutdownPhase::AbortTxRx, ShutdownEvent::Done)
            &&& cleared.inner == (EtherCrabInner { is_open: false, ..inner })
            &&& joined.inner == (EtherCrabInner { task: false, ..inner })
            &&& aborted.inner == (EtherCrabInner { tx_rx_task: false, ..inner })
            &&& action_of(cleared) is JoinTask <==> inner.task
            &&& action_of(cleared) is AbortTxRx <==> !inner.task && inner.tx_rx_task
            &&& action_of(cleared) is Finish <==> !inner.task && !inner.tx_rx_task
            &&& action_of(joined) is AbortTxRx <==> inner.tx_rx_task
            &&& action_of(joined) is Finish <==> !inner.tx_rx_task
            &&& action_of(aborted) is JoinTask <==> inner.task
            &&& action_of(aborted) is Finish <==> !inner.task
            &&& action_of(Shutdown { inner, phase: ShutdownPhase::ClearOpen }) is ClearOpen
            &&& action_of(Shutdown { inner, phase: ShutdownPhase::JoinTask }) is JoinTask
            &&& action_of(Shutdown { inner, phase: ShutdownPhase::AbortTxRx }) is AbortTxRx
            &&& action_of(Shutdown { inner, phase: ShutdownPhase::Closed }) is Finish
        }),
{
}

/// The outcomes that each action can have.
pub proof fn law_outcomes_of_actions(shutdown: Shutdown, event: ShutdownEvent)
    ensures
        match action_of(shutdown) {
            ShutdownAction::CheckQueue => accepts(shutdown.phase, event)
                <==> event is QueueEmpty,
            ShutdownAction::Sleep(_)
            | ShutdownAction::ClearOpen
            | ShutdownAction::JoinTask
            | ShutdownAction::AbortTxRx => accepts(shutdown.phase, event) <==> event is Done,
            ShutdownAction::Finish => !accepts(shutdown.phase, event),
        },
{
}

/// The events of a shutdown whose send buffer has been found not empty `pauses` times.
pub open spec fn draining(pauses: nat) -> Seq<ShutdownEvent>
    decreases pauses,
{
    if pauses == 0 {
        seq![]
    } else {
        draining((pauses - 1) as nat).push(ShutdownEvent::QueueEmpty(false)).push(
            ShutdownEvent::Done,
        )
    }
}

proof fn lemma_push(inner: EtherCrabInner, events: Seq<ShutdownEvent>, event: ShutdownEvent)
    ensures
        run(inner, events.push(event)) == next(run(inner, events), event),
        possible(inner, events.push(event)) == (possible(inner, events) && accepts(
            run(inner, events).phase,
            event,
        )),
{
    assert(events.push(event).drop_last() =~= events);
}

/// However often the send buffer is found not empty, the shutdown of an open link comes back to the
/// question with nothing changed.
pub proof fn law_draining_changes_nothing(inner: EtherCrabInner, pauses: nat)
    requires
        inner.is_open,
    ensures
        possible(inner, draining(pauses)),
        run(inner, draining(pauses)) == (Shutdown { inner, phase: ShutdownPhase::CheckQueue }),
    decreases pauses,
{
    if pauses > 0 {
        let before = draining((pauses - 1) as nat);
        law_draining_changes_nothing(inner, (pauses - 1) as nat);
        lemma_push(inner, before, ShutdownEvent::QueueEmpty(false));
        lemma_push(
            inner,
            before.push(ShutdownEvent::QueueEmpty(false)),
            ShutdownEvent::Done,
        );
    }
}

/// The shutdown of an open link goes through to its end once the send buffer is found empty, however
/// long that took: the link is marked as closed, both tasks are ended, and nothing is left to do.
pub proof fn law_shutdown_goes_through(inner: EtherCrabInner, pauses: nat)
    requires
        inner.is_open,
        inner.task,
        inner.tx_rx_task,
    ensures
        ({
            let events = draining(pauses).push(ShutdownEvent::QueueEmpty(true)).push(
                ShutdownEvent::Done,
            ).push(ShutdownEvent::Done).push(ShutdownEvent::Done);
            let end = run(inner, events);
            &&& possible(inner, events)
            &&& end.phase is Closed
            &&& action_of(end) is Finish
            &&& !end.inner.is_open
            &&& !end.inner.task
            &&& !end.inner.tx_rx_task
            &&& end.inner == inner.closed()
        }),
{
    law_draining_changes_nothing(inner, pauses);
    let e0 = draining(pauses);
    let e1 = e0.push(ShutdownEvent::QueueEmpty(true));
    let e2 = e1.push(ShutdownEvent::Done);
    let e3 = e2.push(ShutdownEvent::Done);
    lemma_push(inner, e0, ShutdownEvent::QueueEmpty(true));
    lemma_push(inner, e1, ShutdownEvent::Done);
    lemma_push(inner, e2, ShutdownEvent::Done);
    lemma_push(inner, e3, ShutdownEvent::Done);
}

/// A link that has been shut down is not marked as open and has no task left; its buffer size, its
/// interval and its number of devices are as they were.
pub proof fn law_closed_keeps_the_rest(inner: EtherCrabInner)
    ensures
        !inner.closed().is_open,
        !inner.closed().task,
        !inner.closed().tx_rx_task,
        inner.closed().buf_size == inner.buf_size,
        inner.closed().interval == inner.interval,
        inner.closed().devices == inner.devices,
{
}

} // verus!
