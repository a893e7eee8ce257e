//! The link and its two faces: one for asynchronous and one for blocking callers.

use vstd::pervasive::unreached;
use vstd::prelude::*;

use crate::error::LinkError;
use crate::frame::{received, InputImage, RxMessage, TxMessage, MAX_SLAVES};
use crate::option::EtherCrabOption;
use crate::shutdown::{
    begin, law_shutdown_is_complete, possible, run, EtherCrabInner, Shutdown, ShutdownEvent,
};
use crate::startup::{Phase, Startup, StartupConfig, StartupState};
use crate::startup_laws::law_open_link_is_ready;

verus! {

/// The message with which a link that is not open refuses.
pub open spec fn link_is_closed() -> Seq<char> {
    "Link is closed"@
}

/// A link to AUTD3 devices.
pub struct EtherCrab {
    interface: String,
    option: EtherCrabOption,
    inner: Option<EtherCrabInner>,
    runtime: bool,
}

/// The state of a link.
pub struct LinkState {
    /// Name of the network interface.
    pub interface: Seq<char>,
    /// Options of the link.
    pub option: EtherCrabOption,
    /// What the link holds while it is open.
    pub inner: Option<EtherCrabInner>,
    /// Whether a runtime for blocking callers is there.
    pub runtime: bool,
}

impl View for EtherCrab {
    type V = LinkState;

    closed spec fn view(&self) -> LinkState {
        LinkState {
            interface: self.interface@,
            option: self.option,
            inner: self.inner,
            runtime: self.runtime,
        }
    }
}

impl LinkState {
    /// What a startup that opens the link to a geometry of `geometry_len` devices has to meet.
    pub open spec fn startup_config(self, geometry_len: usize) -> StartupConfig {
        StartupConfig {
            geometry_len,
            sync_tolerance: self.option.sync_tolerance,
            sync_timeout: self.option.sync_timeout,
        }
    }

    /// Whether a startup is one of this link.
    pub open spec fn owns(self, startup: StartupState) -> bool {
        startup.config == self.startup_config(startup.config.geometry_len)
    }

    /// Whether the link can hold what it holds: an open link is marked as open, has both tasks to
    /// be dealt with, a send buffer as large as its options say, and no more devices than it can
    /// serve.
    pub open spec fn valid(self) -> bool {
        self.inner matches Some(inner) ==> {
            &&& inner == EtherCrabInner::opened(self.option, inner.devices)
            &&& inner.devices <= MAX_SLAVES
            &&& self.option.buf_size > 0
            &&& self.option.sync_tolerance@ > 0
        }
    }

    /// The state after a startup has ended in `phase`: the link opens if the startup succeeded and
    /// is left as it is if it failed.
    pub open spec fn after_startup(self, phase: Phase) -> LinkState {
        match phase {
            Phase::Opened { devices } => LinkState {
                inner: Some(EtherCrabInner::opened(self.option, devices)),
                ..self
            },
            _ => self,
        }
    }

    /// The state after a startup for a blocking caller has ended in `phase`: if it succeeded, the
    /// runtime is kept.
    pub open spec fn after_blocking_startup(self, phase: Phase) -> LinkState {
        LinkState { runtime: self.runtime || phase is Opened, ..self.after_startup(phase) }
    }

    /// The state after the link has been closed.
    pub open spec fn after_close(self) -> LinkState {
        LinkState { inner: None, ..self }
    }

    /// Whether the link is open to blocking callers.
    pub open spec fn is_open_to_blocking(self) -> bool {
        self.runtime && self.inner is Some
    }
}

impl EtherCrab {
    #[verifier::type_invariant]
    spec fn lawful(self) -> bool {
        self.view().valid()
    }

    /// Creates a link that is not open.
    pub fn new(interface: &str, option: EtherCrabOption) -> (link: EtherCrab)
        ensures
            link@ == (LinkState { interface: interface@, option, inner: None, runtime: false }),
    {
        EtherCrab { interface: interface.to_owned(), option, inner: None, runtime: false }
    }

    /// Name of the network interface.
    pub fn interface(&self) -> (interface: &str)
        ensures
            interface@ == self@.interface,
    {
        self.interface.as_str()
    }

    /// Options of the link.
    pub fn option(&self) -> (option: &EtherCrabOption)
        ensures
            *option == self@.option,
    {
        &self.option
    }

    /// Begins the startup that opens the link to a geometry of `geometry_len` devices.
    pub fn startup(&self, geometry_len: usize) -> (startup: Startup)
        ensures
            startup@ == (StartupState {
                config: self@.startup_config(geometry_len),
                phase: Phase::SplitStorage,
                events: Seq::empty(),
            }),
            startup@.config.geometry_len == geometry_len,
            startup@.config.sync_tolerance == self@.option.sync_tolerance,
            startup@.config.sync_timeout == self@.option.sync_timeout,
    {
        Startup::new(
            StartupConfig {
                geometry_len,
                sync_tolerance: self.option.sync_tolerance,
                sync_timeout: self.option.sync_timeout,
            },
        )
    }

    /// Opens the link with a startup that has ended, which is used up: every opening takes a startup
    /// of its own.
    pub fn open(&mut self, startup: Startup) -> (result: Result<(), LinkError>)
        requires
            startup@.phase is Opened || startup@.phase is Failed,
            old(self)@.owns(startup@),
            startup@.phase is Opened ==> old(self)@.option.buf_size > 0,
        ensures
            final(self)@ == old(self)@.after_startup(startup@.phase),
            match startup@.phase {
                Phase::Failed(error) => result matches Err(e) && e@ == error.text(),
                _ => result is Ok,
            },
            result is Ok ==> {
                &&& startup@.phase == (Phase::Opened { devices: startup@.config.geometry_len })
                &&& startup@.config.geometry_len <= MAX_SLAVES
                &&& old(self)@.option.sync_tolerance@ > 0
            },
            startup@.reachable(),
    {
        match startup.phase() {
            Phase::Opened { devices } => {
                proof {
                    law_open_link_is_ready(startup@.config, startup@.events);
                }
                let inner = EtherCrabInner::new(&self.option, *devices);
                self.inner = Some(inner);
                Ok(())
            },
            Phase::Failed(error) => Err(error.to_link_error()),
            _ => unreached(),
        }
    }

    /// Closes the link. The shutdown returned, if any, is what is left to be done.
    pub fn close(&mut self) -> (shutdown: Option<Shutdown>)
        ensures
            final(self)@ == old(self)@.after_close(),
            shutdown == match old(self)@.inner {
                Some(inner) => Some(begin(inner)),
                None => None,
            },
            old(self)@.valid(),
    {
        proof {
            use_type_invariant(&*self);
        }
        let inner = self.inner;
        self.inner = None;
        match inner {
            Some(inner) => Some(Shutdown::new(inner)),
            None => None,
        }
    }

    /// Returns the transmission to put into the send buffer.
    pub fn send(&self, tx: &[TxMessage]) -> (queued: Result<Vec<TxMessage>, LinkError>)
        ensures
            match self@.inner {
                Some(_) => queued matches Ok(queued) && queued@ == tx@,
                None => queued matches Err(e) && e@ == link_is_closed(),
            },
    {
        match &self.inner {
            Some(inner) => Ok(inner.send(tx)),
            None => Err(LinkError::new("Link is closed")),
        }
    }

    /// Ends a transmission, given whether the send buffer took it.
    pub fn sent(accepted: bool) -> (result: Result<(), LinkError>)
        ensures
            if accepted {
                result is Ok
            } else {
                result matches Err(e) && e@ == "channel closed"@
            },
    {
        if accepted {
            Ok(())
        } else {
            Err(LinkError::new("channel closed"))
        }
    }

    /// Copies the latest inputs of the devices from the inputs that an open link has.
    pub fn receive(&self, inputs: Option<&InputImage>, rx: &mut [RxMessage]) -> (result: Result<
        (),
        LinkError,
    >)
        requires
            self@.inner matches Some(inner) ==> inputs is Some && inputs.unwrap()@.len()
                == inner.devices && old(rx)@.len() <= inner.devices,
        ensures
            match self@.inner {
                Some(_) => result is Ok && final(rx)@ == received(
                    inputs.unwrap()@,
                    old(rx)@.len(),
                ),
                None => final(rx)@ == old(rx)@ && (result matches Err(e) && e@ == link_is_closed()),
            },
    {
        match (&self.inner, inputs) {
            (Some(_), Some(inputs)) => {
                inputs.receive(rx);
                Ok(())
            },
            _ => Err(LinkError::new("Link is closed")),
        }
    }

    /// Whether the link is open.
    pub fn is_open(&self) -> (open: bool)
        ensures
            open == (self@.inner is Some),
            self@.valid(),
    {
        proof {
            use_type_invariant(self);
        }
        self.inner.is_some()
    }

    /// Opens the link for a blocking caller with a startup that has ended, which is used up.
    pub fn blocking_open(&mut self, startup: Startup) -> (result: Result<(), LinkError>)
        requires
            startup@.phase is Opened || startup@.phase is Failed,
            old(self)@.owns(startup@),
            startup@.phase is Opened ==> old(self)@.option.buf_size > 0,
        ensures
            final(self)@ == old(self)@.after_blocking_startup(startup@.phase),
            match startup@.phase {
                Phase::Failed(error) => result matches Err(e) && e@ == error.text(),
                _ => result is Ok,
            },
            result is Ok ==> {
                &&& startup@.phase == (Phase::Opened { devices: startup@.config.geometry_len })
                &&& startup@.config.geometry_len <= MAX_SLAVES
                &&& old(self)@.option.sync_tolerance@ > 0
            },
            startup@.reachable(),
    {
        let result = self.open(startup);
        if result.is_ok() {
            self.runtime = true;
        }
        result
    }

    /// Closes the link for a blocking caller. The shutdown returned, if any, is what is left to be
    /// done.
    pub fn blocking_close(&mut self) -> (result: Result<Option<Shutdown>, LinkError>)
        ensures
            if old(self)@.runtime {
                &&& final(self)@ == old(self)@.after_close()
                &&& result matches Ok(shutdown)
                &&& shutdown == match old(self)@.inner {
                    Some(inner) => Some(begin(inner)),
                    None => None,
                }
            } else {
                &&& final(self)@ == old(self)@
                &&& result matches Err(e)
                &&& e@ == link_is_closed()
            },
    {
        if self.runtime {
            Ok(self.close())
        } else {
            Err(LinkError::new("Link is closed"))
        }
    }

    /// Takes over a changed geometry for a blocking caller, which needs nothing to be done.
    pub fn blocking_update(&self) -> (result: Result<(), LinkError>)
        ensures
            if self@.runtime {
                result is Ok
            } else {
                result matches Err(e) && e@ == link_is_closed()
            },
    {
        if self.runtime {
            Ok(())
        } else {
            Err(LinkError::new("Link is closed"))
        }
    }

    /// Returns the transmission of a blocking caller to put into the send buffer.
    pub fn blocking_send(&self, tx: &[TxMessage]) -> (queued: Result<Vec<TxMessage>, LinkError>)
        ensures
            if self@.is_open_to_blocking() {
                queued matches Ok(queued) && queued@ == tx@
            } else {
                queued matches Err(e) && e@ == link_is_closed()
            },
    {
        if self.runtime {
            self.send(tx)
        } else {
            Err(LinkError::new("Link is closed"))
        }
    }

    /// Copies the latest inputs of the devices for a blocking caller.
    pub fn blocking_receive(
        &self,
        inputs: Option<&InputImage>,
        rx: &mut [RxMessage],
    ) -> (result: Result<(), LinkError>)
        requires
            self@.is_open_to_blocking() ==> inputs is Some && inputs.unwrap()@.len()
                == self@.inner.unwrap().devices && old(rx)@.len() <= self@.inner.unwrap().devices,
        ensures
            if self@.is_open_to_blocking() {
                result is Ok && final(rx)@ == received(inputs.unwrap()@, old(rx)@.len())
            } else {
                final(rx)@ == old(rx)@ && (result matches Err(e) && e@ == link_is_closed())
            },
    {
        if self.runtime {
            self.receive(inputs, rx)
        } else {
            Err(LinkError::new("Link is closed"))
        }
    }

    /// Whether the link is open to blocking callers.
    pub fn blocking_is_open(&self) -> (open: bool)
        ensures
            open == self@.is_open_to_blocking(),
    {
        self.runtime && self.inner.is_some()
    }
}

/// A link whose startup succeeded is open, whatever it was before, and it is open to the kind of
/// caller that opened it. It is marked as open, both its tasks are there, its send buffer is as
/// large as its options say, and its inputs are for the devices of the startup.
pub proof fn law_successful_startup_opens(state: LinkState, devices: usize)
    ensures
        state.after_startup(Phase::Opened { devices }).inner == Some(
            EtherCrabInner {
                is_open: true,
                task: true,
                tx_rx_task: true,
                buf_size: state.option.buf_size,
                interval: state.option.interval,
                devices,
            },
        ),
        state.after_blocking_startup(Phase::Opened { devices }).inner == state.after_startup(
            Phase::Opened { devices },
        ).inner,
        state.after_blocking_startup(Phase::Opened { devices }).is_open_to_blocking(),
{
}

/// The shutdown of an open link does not end before its send buffer has been found empty and both
/// its tasks have been dealt with.
pub proof fn law_open_link_is_shut_down_in_full(
    state: LinkState,
    inner: EtherCrabInner,
    events: Seq<ShutdownEvent>,
)
    requires
        state.valid(),
        state.inner == Some(inner),
        possible(inner, events),
        run(inner, events).phase is Closed,
    ensures
        run(inner, events).inner == inner.closed(),
        events.contains(ShutdownEvent::QueueEmpty(true)),
{
    law_shutdown_is_complete(inner, events);
    lemma_queue_was_empty(inner, events);
}

/// An open link is marked as closed only after its send buffer has been found empty.
proof fn lemma_queue_was_empty(inner: EtherCrabInner, events: Seq<ShutdownEvent>)
    requires
        possible(inner, events),
        inner.is_open,
        !(run(inner, events).phase is CheckQueue),
        !(run(inner, events).phase is Pause),
    ensures
        events.contains(ShutdownEvent::QueueEmpty(true)),
    decreases events.len(),
{
    let before = events.drop_last();
    if events.last() == ShutdownEvent::QueueEmpty(true) {
        assert(events[events.len() - 1] == ShutdownEvent::QueueEmpty(true));
    } else {
        lemma_queue_was_empty(inner, before);
        let i = choose|i: int|
            0 <= i < before.len() && before[i] == ShutdownEvent::QueueEmpty(true);
        assert(events[i] == ShutdownEvent::QueueEmpty(true));
    }
}

/// A startup that failed leaves the link as it was, open or not.
pub proof fn law_failed_startup_changes_nothing(state: LinkState, phase: Phase)
    requires
        phase is Failed,
    ensures
        state.after_startup(phase) == state,
        state.after_blocking_startup(phase) == state,
{
}

/// Closing undoes opening: a link that was not open is again as it was, but for the runtime that
/// blocking callers keep.
pub proof fn law_close_undoes_open(state: LinkState, phase: Phase)
    requires
        state.inner is None,
    ensures
        state.after_startup(phase).after_close() == state,
        state.after_blocking_startup(phase).after_close() == (LinkState {
            runtime: state.runtime || phase is Opened,
            ..state
        }),
{
}

/// A link that has been closed is open to nobody, and closing it again changes nothing.
pub proof fn law_closed_link_stays_closed(state: LinkState)
    ensures
        state.after_close().inner is None,
        !state.after_close().is_open_to_blocking(),
        state.after_close().after_close() == state.after_close(),
{
}

/// The startup of a link is limited by what the caller of the link has set: its tolerance and its
/// limit are those of the options, and it looks for the devices that it is given. A startup belongs
/// to the link exactly if both limits are the link's own.
pub proof fn law_startup_follows_the_options(
    state: LinkState,
    geometry_len: usize,
    startup: StartupState,
)
    ensures
        state.startup_config(geometry_len).sync_timeout == state.option.sync_timeout,
        state.startup_config(geometry_len).sync_tolerance == state.option.sync_tolerance,
        state.startup_config(geometry_len).geometry_len == geometry_len,
        state.owns(startup) <==> startup.config.sync_timeout == state.option.sync_timeout
            && startup.config.sync_tolerance == state.option.sync_tolerance,
{
}

/// Opening and closing change nothing but what the link holds and, for a blocking caller, whether
/// the runtime is there.
pub proof fn law_interface_and_options_stay(state: LinkState, phase: Phase)
    ensures
        state.after_startup(phase).interface == state.interface,
        state.after_startup(phase).option == state.option,
        state.after_startup(phase).runtime == state.runtime,
        state.after_blocking_startup(phase).interface == state.interface,
        state.after_blocking_startup(phase).option == state.option,
        state.after_blocking_startup(phase).inner == state.after_startup(phase).inner,
        state.after_blocking_startup(phase).runtime == (state.runtime || phase is Opened),
        state.after_close().interface == state.interface,
        state.after_close().option == state.option,
        state.after_close().runtime == state.runtime,
        state.after_close().inner is None,
        !(phase is Opened) ==> state.after_startup(phase) == state,
{
}

/// A link holds something only if that is marked as open, has both tasks, and has the buffer size
/// and the interval of the link's options. There are at most sixteen devices then, the buffer has
/// room, and the tolerance is not zero.
pub proof fn law_open_link_fits_its_options(state: LinkState, inner: EtherCrabInner)
    requires
        state.inner == Some(inner),
    ensures
        state.valid() <==> {
            &&& inner.is_open
            &&& inner.task
            &&& inner.tx_rx_task
            &&& inner.buf_size == state.option.buf_size
            &&& inner.interval == state.option.interval
            &&& inner.devices <= 16
            &&& state.option.buf_size > 0
            &&& state.option.sync_tolerance@ > 0
        },
{
}

/// A link is open to blocking callers exactly if the runtime is there and the link holds something;
/// a link that is not open refuses in these words.
pub proof fn law_open_to_blocking_callers(state: LinkState)
    ensures
        state.is_open_to_blocking() <==> state.runtime && state.inner is Some,
        link_is_closed() == "Link is closed"@,
{
}

} // verus!
