//! Bringing the devices into operation.
//!
//! A [`Startup`] decides what to do next on the way to an open link. Whoever drives it performs
//! [`Startup::action`], reports the outcome to [`Startup::step`], and goes on until the startup has
//! finished.

use vstd::pervasive::unreached;
use vstd::prelude::*;

use crate::alignment::{decode_difference, system_time_difference};
use crate::error::{BusError, EtherCrabError};
use crate::frame::MAX_SLAVES;
use crate::time::{elapsed, max_nanos, Duration, Instant};

verus! {

/// How long the network is left alone after its task has started, in milliseconds.
pub const SETTLE_MILLIS: u64 = 200;

/// How far two looks at the clocks of the devices are apart, in milliseconds.
pub const CHECK_MILLIS: u64 = 25;

/// Number of periods of the moving average over a device's clock deviation.
pub const AVERAGE_PERIOD: usize = 9;

/// [`CHECK_MILLIS`] in nanoseconds.
pub open spec fn check_nanos() -> nat {
    (CHECK_MILLIS as nat) * 1_000_000
}

/// What a startup has to meet.
#[derive(Clone, Copy, Debug)]
pub struct StartupConfig {
    /// Number of devices that are to be found.
    pub geometry_len: usize,
    /// Deviation below which the clocks of the devices count as aligned.
    pub sync_tolerance: Duration,
    /// Limit on the alignment of the clocks.
    pub sync_timeout: Duration,
}

/// The alignment of the clocks.
#[derive(Clone, Copy, Debug)]
pub struct Alignment {
    /// Number of devices.
    pub devices: usize,
    /// When the clocks were last looked at.
    pub checked: Instant,
    /// When the alignment started.
    pub started: Instant,
}

/// A look at the clocks of all devices, one after the other.
#[derive(Clone, Copy, Debug)]
pub struct Round {
    /// The alignment that the round belongs to.
    pub alignment: Alignment,
    /// The device that is next.
    pub index: usize,
    /// The largest deviation of the devices before.
    pub max_deviation: Duration,
}

/// How far a startup has come.
#[derive(Debug)]
pub enum Phase {
    SplitStorage,
    StartTxRx,
    Settle,
    InitGroup,
    EnableSync0 { devices: usize },
    EnterPreOp { devices: usize },
    MarkCheck { devices: usize },
    MarkStart { devices: usize, checked: Instant },
    SyncSystemTime(Alignment),
    CheckDue(Alignment),
    Restart(Alignment),
    ReadDifference(Round),
    Average(Round, i32),
    CheckTimeout(Round),
    Pause(Alignment),
    ConfigureDcSync { devices: usize },
    EnterSafeOp { devices: usize },
    RequestOp { devices: usize },
    QueryAllOp { devices: usize },
    MarkCycle { devices: usize },
    Exchange { devices: usize, started: Instant },
    WaitCycle { devices: usize, started: Instant, wait: Duration },
    /// All devices are in operation.
    Opened { devices: usize },
    /// The startup was given up.
    Failed(EtherCrabError),
}

/// What to do next.
#[derive(Debug)]
pub enum Action {
    /// Split the storage of the network frames.
    SplitStorage,
    /// Start the task that moves frames to and from the network interface.
    StartTxRx,
    /// Sleep for a span.
    Sleep(Duration),
    /// Sleep until the clock reaches a reading.
    SleepUntil(Instant),
    /// Read the clock.
    ReadClock,
    /// Find the devices and gather them in one group.
    InitGroup,
    /// Let the SYNC0 pulse drive every device.
    EnableSync0,
    /// Take the group to PRE-OP with its process data.
    EnterPreOp,
    /// Distribute the system time.
    SyncSystemTime,
    /// Read the register `DcSystemTimeDifference` of a device.
    ReadDifference(usize),
    /// Feed a difference to the moving average of a device.
    Average(usize, i32),
    /// Configure the SYNC0 pulse.
    ConfigureDcSync,
    /// Take the group to SAFE-OP.
    EnterSafeOp,
    /// Ask the group to enter OP.
    RequestOp,
    /// Ask whether all devices are in OP.
    QueryAllOp,
    /// Exchange the process data.
    Exchange,
    /// Nothing is left to do.
    Finish,
}

/// The outcome of an action.
#[derive(Debug)]
pub enum Event {
    /// The action succeeded and has no result.
    Done,
    /// The storage had been split before.
    StorageTaken,
    /// The network interface could not be opened.
    Io(String),
    /// The main device failed.
    Bus(BusError),
    /// The devices found, by name.
    Group(Vec<String>),
    /// What the clock reads.
    Clock(Instant),
    /// The value of the register.
    Register(u32),
    /// The magnitude of the moving average in nanoseconds.
    Averaged(u64),
    /// Whether all devices are in OP.
    AllOp(bool),
    /// The time until the next cycle after an exchange.
    NextCycle(Duration),
}

/// Whether every name is that of an AUTD3 device.
pub open spec fn all_autd(names: Seq<String>) -> bool {
    forall|i: int| 0 <= i < names.len() ==> #[trigger] names[i]@ == "AUTD"@
}

/// Where a startup goes when it has found a group of devices.
pub open spec fn admit_group(config: StartupConfig, names: Seq<String>) -> Phase {
    if !all_autd(names) {
        Phase::Failed(EtherCrabError::DeviceNotFound)
    } else if config.geometry_len != names.len() {
        Phase::Failed(
            EtherCrabError::DeviceNumberMismatch(config.geometry_len, names.len() as usize),
        )
    } else {
        Phase::EnableSync0 { devices: names.len() as usize }
    }
}

/// Where a round goes: to its next device or, after the last one, to its verdict.
pub open spec fn continue_round(config: StartupConfig, round: Round) -> Phase {
    if round.index < round.alignment.devices {
        Phase::ReadDifference(round)
    } else if round.max_deviation@ < config.sync_tolerance@ {
        Phase::ConfigureDcSync { devices: round.alignment.devices }
    } else {
        Phase::CheckTimeout(round)
    }
}

/// The round after the deviation of its next device is known.
pub open spec fn widen(round: Round, deviation: Duration) -> Round {
    Round {
        index: (round.index + 1) as usize,
        max_deviation: if round.max_deviation@ < deviation@ {
            deviation
        } else {
            round.max_deviation
        },
        ..round
    }
}

/// Whether it is time for another look at the clocks.
pub open spec fn is_due(alignment: Alignment, now: Instant) -> bool {
    elapsed(alignment.checked@, now@) >= check_nanos()
}

/// Whether the alignment has taken longer than it may.
pub open spec fn is_timed_out(config: StartupConfig, alignment: Alignment, now: Instant) -> bool {
    elapsed(alignment.started@, now@) > config.sync_timeout@
}

/// Whether the time of the next look at the clocks is representable.
pub open spec fn can_pause(alignment: Alignment) -> bool {
    alignment.checked@ + check_nanos() <= max_nanos()
}

/// Whether `event` is a possible outcome of the action of `phase`, and the deadline that follows
/// from it, if any, is representable.
pub open spec fn accepts(config: StartupConfig, phase: Phase, event: Event) -> bool {
    match event {
        Event::Done => match phase {
            Phase::SplitStorage
            | Phase::StartTxRx
            | Phase::Settle
            | Phase::EnableSync0 { .. }
            | Phase::EnterPreOp { .. }
            | Phase::SyncSystemTime(_)
            | Phase::Pause(_)
            | Phase::ConfigureDcSync { .. }
            | Phase::EnterSafeOp { .. }
            | Phase::RequestOp { .. }
            | Phase::WaitCycle { .. } => true,
            _ => false,
        },
        Event::StorageTaken => phase is SplitStorage,
        Event::Io(_) => phase is StartTxRx,
        Event::Bus(_) => match phase {
            Phase::InitGroup
            | Phase::EnterPreOp { .. }
            | Phase::SyncSystemTime(_)
            | Phase::ReadDifference(_)
            | Phase::ConfigureDcSync { .. }
            | Phase::EnterSafeOp { .. }
            | Phase::RequestOp { .. }
            | Phase::QueryAllOp { .. }
            | Phase::Exchange { .. } => true,
            _ => false,
        },
        Event::Group(names) => phase is InitGroup && names@.len() <= MAX_SLAVES,
        Event::Clock(now) => match phase {
            Phase::MarkCheck { .. }
            | Phase::MarkStart { .. }
            | Phase::Restart(_)
            | Phase::MarkCycle { .. } => true,
            Phase::CheckDue(alignment) => is_due(alignment, now) || can_pause(alignment),
            Phase::CheckTimeout(round) => is_timed_out(config, round.alignment, now) || can_pause(
                round.alignment,
            ),
            _ => false,
        },
        Event::Register(_) => phase is ReadDifference,
        Event::Averaged(_) => phase is Average,
        Event::AllOp(_) => phase is QueryAllOp,
        Event::NextCycle(wait) => match phase {
            Phase::Exchange { started, .. } => started@ + wait@ <= max_nanos(),
            _ => false,
        },
    }
}

/// Where a startup goes on an event.
pub open spec fn next(config: StartupConfig, phase: Phase, event: Event) -> Phase {
    match event {
        Event::StorageTaken => Phase::Failed(EtherCrabError::PduStorageError),
        Event::Io(text) => Phase::Failed(EtherCrabError::IoError(text)),
        Event::Bus(e) => match (phase, e) {
            (Phase::ReadDifference(round), BusError::WorkingCounter { .. }) => Phase::Average(
                round,
                0,
            ),
            _ => Phase::Failed(EtherCrabError::EtherCrab(e)),
        },
        Event::Group(names) => admit_group(config, names@),
        Event::Clock(now) => match phase {
            Phase::MarkCheck { devices } => Phase::MarkStart { devices, checked: now },
            Phase::MarkStart { devices, checked } => Phase::SyncSystemTime(
                Alignment { devices, checked, started: now },
            ),
            Phase::CheckDue(alignment) => if is_due(alignment, now) {
                Phase::Restart(alignment)
            } else {
                Phase::Pause(alignment)
            },
            Phase::Restart(alignment) => continue_round(
                config,
                Round {
                    alignment: Alignment { checked: now, ..alignment },
                    index: 0,
                    max_deviation: Duration::of(0),
                },
            ),
            Phase::CheckTimeout(round) => if is_timed_out(config, round.alignment, now) {
                Phase::Failed(EtherCrabError::SyncTimeout(round.max_deviation))
            } else {
                Phase::Pause(round.alignment)
            },
            Phase::MarkCycle { devices } => Phase::Exchange { devices, started: now },
            _ => phase,
        },
        Event::Register(value) => match phase {
            Phase::ReadDifference(round) => Phase::Average(
                round,
                system_time_difference(value) as i32,
            ),
            _ => phase,
        },
        Event::Averaged(nanos) => match phase {
            Phase::Average(round, _) => continue_round(
                config,
                widen(round, Duration::of(nanos as nat)),
            ),
            _ => phase,
        },
        Event::AllOp(all) => match phase {
            Phase::QueryAllOp { devices } => if all {
                Phase::Opened { devices }
            } else {
                Phase::MarkCycle { devices }
            },
            _ => phase,
        },
        Event::NextCycle(wait) => match phase {
            Phase::Exchange { devices, started } => Phase::WaitCycle { devices, started, wait },
            _ => phase,
        },
        Event::Done => match phase {
            Phase::SplitStorage => Phase::StartTxRx,
            Phase::StartTxRx => Phase::Settle,
            Phase::Settle => Phase::InitGroup,
            Phase::EnableSync0 { devices } => Phase::EnterPreOp { devices },
            Phase::EnterPreOp { devices } => Phase::MarkCheck { devices },
            Phase::SyncSystemTime(alignment) => Phase::CheckDue(alignment),
            Phase::Pause(alignment) => Phase::SyncSystemTime(alignment),
            Phase::ConfigureDcSync { devices } => Phase::EnterSafeOp { devices },
            Phase::EnterSafeOp { devices } => Phase::RequestOp { devices },
            Phase::RequestOp { devices } => Phase::QueryAllOp { devices },
            Phase::WaitCycle { devices, .. } => Phase::QueryAllOp { devices },
            _ => phase,
        },
    }
}

/// Whether the data of a phase are consistent: rounds stay within their devices, and deadlines are
/// representable.
pub open spec fn consistent(phase: Phase) -> bool {
    match phase {
        Phase::Pause(alignment) => can_pause(alignment),
        Phase::ReadDifference(round) | Phase::Average(round, _) => round.index
            < round.alignment.devices,
        Phase::WaitCycle { started, wait, .. } => started@ + wait@ <= max_nanos(),
        _ => true,
    }
}

/// The action whose outcome a phase waits for.
pub open spec fn action_of(phase: Phase) -> Action {
    match phase {
        Phase::SplitStorage => Action::SplitStorage,
        Phase::StartTxRx => Action::StartTxRx,
        Phase::Settle => Action::Sleep(Duration::of((SETTLE_MILLIS as nat) * 1_000_000)),
        Phase::InitGroup => Action::InitGroup,
        Phase::EnableSync0 { .. } => Action::EnableSync0,
        Phase::EnterPreOp { .. } => Action::EnterPreOp,
        Phase::MarkCheck { .. }
        | Phase::MarkStart { .. }
        | Phase::CheckDue(_)
        | Phase::Restart(_)
        | Phase::CheckTimeout(_)
        | Phase::MarkCycle { .. } => Action::ReadClock,
        Phase::SyncSystemTime(_) => Action::SyncSystemTime,
        Phase::ReadDifference(round) => Action::ReadDifference(round.index),
        Phase::Average(round, difference) => Action::Average(round.index, difference),
        Phase::Pause(alignment) => Action::SleepUntil(
            Instant::of(alignment.checked@ + check_nanos()),
        ),
        Phase::ConfigureDcSync { .. } => Action::ConfigureDcSync,
        Phase::EnterSafeOp { .. } => Action::EnterSafeOp,
        Phase::RequestOp { .. } => Action::RequestOp,
        Phase::QueryAllOp { .. } => Action::QueryAllOp,
        Phase::Exchange { .. } => Action::Exchange,
        Phase::WaitCycle { started, wait, .. } => Action::SleepUntil(
            Instant::of(started@ + wait@),
        ),
        Phase::Opened { .. } | Phase::Failed(_) => Action::Finish,
    }
}

/// The phase in which a startup is after `events`, from `phase` on.
pub open spec fn run_from(config: StartupConfig, phase: Phase, events: Seq<Event>) -> Phase
    decreases events.len(),
{
    if events.len() == 0 {
        phase
    } else {
        next(config, run_from(config, phase, events.drop_last()), events.last())
    }
}

/// Whether each of `events` is a possible outcome at its time, from `phase` on.
pub open spec fn possible_from(config: StartupConfig, phase: Phase, events: Seq<Event>) -> bool
    decreases events.len(),
{
    events.len() == 0 || {
        &&& possible_from(config, phase, events.drop_last())
        &&& accepts(config, run_from(config, phase, events.drop_last()), events.last())
    }
}

/// The phase in which a startup is after `events`.
pub open spec fn run(config: StartupConfig, events: Seq<Event>) -> Phase {
    run_from(config, Phase::SplitStorage, events)
}

/// Whether each of `events` is a possible outcome at its time.
pub open spec fn possible(config: StartupConfig, events: Seq<Event>) -> bool {
    possible_from(config, Phase::SplitStorage, events)
}

/// What one more event adds to a run.
pub proof fn lemma_push(config: StartupConfig, phase: Phase, events: Seq<Event>, event: Event)
    ensures
        run_from(config, phase, events.push(event)) == next(
            config,
            run_from(config, phase, events),
            event,
        ),
        possible_from(config, phase, events.push(event)) == (possible_from(config, phase, events)
            && accepts(config, run_from(config, phase, events), event)),
{
    assert(events.push(event).drop_last() =~= events);
}

/// A startup on its way.
///
/// Its view tells its configuration, how far it has come, and the events that have led there.
pub struct Startup {
    config: StartupConfig,
    phase: Phase,
    events: Ghost<Seq<Event>>,
}

/// The state of a startup.
pub struct StartupState {
    /// What the startup has to meet.
    pub config: StartupConfig,
    /// How far the startup has come.
    pub phase: Phase,
    /// The events so far.
    pub events: Seq<Event>,
}

impl StartupState {
    /// Whether the startup has come where it is by a run of possible events.
    pub open spec fn reachable(self) -> bool {
        &&& possible(self.config, self.events)
        &&& run(self.config, self.events) == self.phase
        &&& consistent(self.phase)
    }
}

impl View for Startup {
    type V = StartupState;

    closed spec fn view(&self) -> StartupState {
        StartupState { config: self.config, phase: self.phase, events: self.events@ }
    }
}

impl Startup {
    #[verifier::type_invariant]
    spec fn lawful(self) -> bool {
        self.view().reachable()
    }

    /// Begins a startup.
    pub fn new(config: StartupConfig) -> (startup: Startup)
        ensures
            startup@ == (StartupState {
                config,
                phase: Phase::SplitStorage,
                events: Seq::empty(),
            }),
    {
        Startup { config, phase: Phase::SplitStorage, events: Ghost(Seq::empty()) }
    }

    /// What the startup has to meet.
    pub fn config(&self) -> (config: &StartupConfig)
        ensures
            *config == self@.config,
    {
        &self.config
    }

    /// How far the startup has come, which is where its events have led.
    pub fn phase(&self) -> (phase: &Phase)
        ensures
            *phase == self@.phase,
            self@.reachable(),
    {
        proof {
            use_type_invariant(self);
        }
        &self.phase
    }

    /// What to do next.
    pub fn action(&self) -> (action: Action)
        ensures
            action == action_of(self@.phase),
    {
        proof {
            use_type_invariant(self);
        }
        match &self.phase {
            Phase::SplitStorage => Action::SplitStorage,
            Phase::StartTxRx => Action::StartTxRx,
            Phase::Settle => Action::Sleep(Duration::from_millis(SETTLE_MILLIS)),
            Phase::InitGroup => Action::InitGroup,
            Phase::EnableSync0 { .. } => Action::EnableSync0,
            Phase::EnterPreOp { .. } => Action::EnterPreOp,
            Phase::MarkCheck { .. }
            | Phase::MarkStart { .. }
            | Phase::CheckDue(_)
            | Phase::Restart(_)
            | Phase::CheckTimeout(_)
            | Phase::MarkCycle { .. } => Action::ReadClock,
            Phase::SyncSystemTime(_) => Action::SyncSystemTime,
            Phase::ReadDifference(round) => Action::ReadDifference(round.index),
            Phase::Average(round, difference) => Action::Average(round.index, *difference),
            Phase::Pause(alignment) => Action::SleepUntil(
                alignment.checked.plus(Duration::from_millis(CHECK_MILLIS)),
            ),
            Phase::ConfigureDcSync { .. } => Action::ConfigureDcSync,
            Phase::EnterSafeOp { .. } => Action::EnterSafeOp,
            Phase::RequestOp { .. } => Action::RequestOp,
            Phase::QueryAllOp { .. } => Action::QueryAllOp,
            Phase::Exchange { .. } => Action::Exchange,
            Phase::WaitCycle { started, wait, .. } => Action::SleepUntil(started.plus(*wait)),
            Phase::Opened { .. } | Phase::Failed(_) => Action::Finish,
        }
    }

    /// Whether `event` is a possible outcome of the current action, and the deadline that follows
    /// from it, if any, is representable.
    pub fn accepts(&self, event: &Event) -> (accepted: bool)
        ensures
            accepted == accepts(self@.config, self@.phase, *event),
    {
        match event {
            Event::Done => matches!(
                &self.phase,
                Phase::SplitStorage
                | Phase::StartTxRx
                | Phase::Settle
                | Phase::EnableSync0 { .. }
                | Phase::EnterPreOp { .. }
                | Phase::SyncSystemTime(_)
                | Phase::Pause(_)
                | Phase::ConfigureDcSync { .. }
                | Phase::EnterSafeOp { .. }
                | Phase::RequestOp { .. }
                | Phase::WaitCycle { .. }
            ),
            Event::StorageTaken => matches!(&self.phase, Phase::SplitStorage),
            Event::Io(_) => matches!(&self.phase, Phase::StartTxRx),
            Event::Bus(_) => matches!(
                &self.phase,
                Phase::InitGroup
                | Phase::EnterPreOp { .. }
                | Phase::SyncSystemTime(_)
                | Phase::ReadDifference(_)
                | Phase::ConfigureDcSync { .. }
                | Phase::EnterSafeOp { .. }
                | Phase::RequestOp { .. }
                | Phase::QueryAllOp { .. }
                | Phase::Exchange { .. }
            ),
            Event::Group(names) => matches!(&self.phase, Phase::InitGroup) && names.len()
                <= MAX_SLAVES,
            Event::Clock(now) => match &self.phase {
                Phase::MarkCheck { .. }
                | Phase::MarkStart { .. }
                | Phase::Restart(_)
                | Phase::MarkCycle { .. } => true,
                Phase::CheckDue(alignment) => Self::due(alignment, *now) || Self::pausable(
                    alignment,
                ),
                Phase::CheckTimeout(round) => self.timed_out(&round.alignment, *now)
                    || Self::pausable(&round.alignment),
                _ => false,
            },
            Event::Register(_) => matches!(&self.phase, Phase::ReadDifference(_)),
            Event::Averaged(_) => matches!(&self.phase, Phase::Average(_, _)),
            Event::AllOp(_) => matches!(&self.phase, Phase::QueryAllOp { .. }),
            Event::NextCycle(wait) => match &self.phase {
                Phase::Exchange { started, .. } => started.checked_add(*wait).is_some(),
                _ => false,
            },
        }
    }

    /// Goes on with the outcome of the current action.
    pub fn step(&mut self, event: Event)
        requires
            accepts(old(self)@.config, old(self)@.phase, event),
        ensures
            final(self)@ == (StartupState {
                config: old(self)@.config,
                phase: next(old(self)@.config, old(self)@.phase, event),
                events: old(self)@.events.push(event),
            }),
    {
        proof {
            use_type_invariant(&*self);
            lemma_push(self.config, Phase::SplitStorage, self.events@, event);
        }
        let events: Ghost<Seq<Event>> = Ghost(self.events@.push(event));
        let phase = match event {
            Event::StorageTaken => Phase::Failed(EtherCrabError::PduStorageError),
            Event::Io(text) => Phase::Failed(EtherCrabError::IoError(text)),
            Event::Bus(e) => self.after_bus_error(e),
            Event::Group(names) => self.after_group(&names),
            Event::Clock(now) => self.after_clock(now),
            Event::Register(value) => match &self.phase {
                Phase::ReadDifference(round) => Phase::Average(*round, decode_difference(value)),
                _ => unreached(),
            },
            Event::Averaged(nanos) => match &self.phase {
                Phase::Average(round, _) => {
                    let deviation = Duration::from_nanos(nanos);
                    self.continue_round(
                        Round {
                            alignment: round.alignment,
                            index: round.index + 1,
                            max_deviation: round.max_deviation.max(deviation),
                        },
                    )
                },
                _ => unreached(),
            },
            Event::AllOp(all) => match &self.phase {
                Phase::QueryAllOp { devices } => if all {
                    Phase::Opened { devices: *devices }
                } else {
                    Phase::MarkCycle { devices: *devices }
                },
                _ => unreached(),
            },
            Event::NextCycle(wait) => match &self.phase {
                Phase::Exchange { devices, started } => Phase::WaitCycle {
                    devices: *devices,
                    started: *started,
                    wait,
                },
                _ => unreached(),
            },
            Event::Done => self.after_done(),
        };
        *self = Startup { config: self.config, phase, events };
    }

    /// Where to go when the main device has failed. A device that does not answer the reading of
    /// its clock counts as aligned.
    fn after_bus_error(&self, e: BusError) -> (phase: Phase)
        requires
            consistent(self.phase),
            accepts(self.config, self.phase, Event::Bus(e)),
        ensures
            phase == next(self.config, self.phase, Event::Bus(e)),
            consistent(phase),
    {
        match &self.phase {
            Phase::ReadDifference(round) => match e {
                BusError::WorkingCounter { .. } => Phase::Average(*round, 0),
                BusError::Other(text) => Phase::Failed(
                    EtherCrabError::EtherCrab(BusError::Other(text)),
                ),
            },
            _ => Phase::Failed(EtherCrabError::EtherCrab(e)),
        }
    }

    /// Where to go when a group of devices has been found.
    fn after_group(&self, names: &Vec<String>) -> (phase: Phase)
        ensures
            phase == admit_group(self.config, names@),
            consistent(phase),
    {
        let autd = "AUTD".to_owned();
        let mut i: usize = 0;
        while i < names.len()
            invariant
                i <= names.len(),
                autd@ == "AUTD"@,
                forall|j: int| 0 <= j < i ==> #[trigger] names@[j]@ == "AUTD"@,
            decreases names.len() - i,
        {
            if names[i] != autd {
                assert(names@[i as int]@ != "AUTD"@);
                return Phase::Failed(EtherCrabError::DeviceNotFound);
            }
            i = i + 1;
        }
        if self.config.geometry_len != names.len() {
            return Phase::Failed(
                EtherCrabError::DeviceNumberMismatch(self.config.geometry_len, names.len()),
            );
        }
        Phase::EnableSync0 { devices: names.len() }
    }

    /// Whether it is time for another look at the clocks.
    fn due(alignment: &Alignment, now: Instant) -> (due: bool)
        ensures
            due == is_due(*alignment, now),
    {
        let since = now.saturating_duration_since(alignment.checked);
        !since.is_shorter_than(&Duration::from_millis(CHECK_MILLIS))
    }

    /// Whether the alignment has taken longer than it may.
    fn timed_out(&self, alignment: &Alignment, now: Instant) -> (timed_out: bool)
        ensures
            timed_out == is_timed_out(self.config, *alignment, now),
    {
        self.config.sync_timeout.is_shorter_than(&now.saturating_duration_since(alignment.started))
    }

    /// Whether the time of the next look at the clocks is representable.
    fn pausable(alignment: &Alignment) -> (pausable: bool)
        ensures
            pausable == can_pause(*alignment),
    {
        alignment.checked.checked_add(Duration::from_millis(CHECK_MILLIS)).is_some()
    }

    /// Where to go when the clock has been read.
    fn after_clock(&self, now: Instant) -> (phase: Phase)
        requires
            consistent(self.phase),
            accepts(self.config, self.phase, Event::Clock(now)),
        ensures
            phase == next(self.config, self.phase, Event::Clock(now)),
            consistent(phase),
    {
        match &self.phase {
            Phase::MarkCheck { devices } => Phase::MarkStart { devices: *devices, checked: now },
            Phase::MarkStart { devices, checked } => Phase::SyncSystemTime(
                Alignment { devices: *devices, checked: *checked, started: now },
            ),
            Phase::CheckDue(alignment) => if Self::due(alignment, now) {
                Phase::Restart(*alignment)
            } else {
                Phase::Pause(*alignment)
            },
            Phase::Restart(alignment) => self.continue_round(
                Round {
                    alignment: Alignment {
                        devices: alignment.devices,
                        checked: now,
                        started: alignment.started,
                    },
                    index: 0,
                    max_deviation: Duration::zero(),
                },
            ),
            Phase::CheckTimeout(round) => if self.timed_out(&round.alignment, now) {
                Phase::Failed(EtherCrabError::SyncTimeout(round.max_deviation))
            } else {
                Phase::Pause(round.alignment)
            },
            Phase::MarkCycle { devices } => Phase::Exchange { devices: *devices, started: now },
            _ => unreached(),
        }
    }

    /// Where a round goes: to its next device or, after the last one, to its verdict.
    fn continue_round(&self, round: Round) -> (phase: Phase)
        ensures
            phase == continue_round(self.config, round),
            consistent(phase),
    {
        if round.index < round.alignment.devices {
            Phase::ReadDifference(round)
        } else if round.max_deviation.is_shorter_than(&self.config.sync_tolerance) {
            Phase::ConfigureDcSync { devices: round.alignment.devices }
        } else {
            Phase::CheckTimeout(round)
        }
    }

    /// Where to go when an action without a result has succeeded.
    fn after_done(&self) -> (phase: Phase)
        requires
            consistent(self.phase),
            accepts(self.config, self.phase, Event::Done),
        ensures
            phase == next(self.config, self.phase, Event::Done),
            consistent(phase),
    {
        match &self.phase {
            Phase::SplitStorage => Phase::StartTxRx,
            Phase::StartTxRx => Phase::Settle,
            Phase::Settle => Phase::InitGroup,
            Phase::EnableSync0 { devices } => Phase::EnterPreOp { devices: *devices },
            Phase::EnterPreOp { devices } => Phase::MarkCheck { devices: *devices },
            Phase::SyncSystemTime(alignment) => Phase::CheckDue(*alignment),
            Phase::Pause(alignment) => Phase::SyncSystemTime(*alignment),
            Phase::ConfigureDcSync { devices } => Phase::EnterSafeOp { devices: *devices },
            Phase::EnterSafeOp { devices } => Phase::RequestOp { devices: *devices },
            Phase::RequestOp { devices } => Phase::QueryAllOp { devices: *devices },
            Phase::WaitCycle { devices, .. } => Phase::QueryAllOp { devices: *devices },
            _ => unreached(),
        }
    }
}

} // verus!
