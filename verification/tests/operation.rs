use autd3_link_ethercrab::cycle::{Cycle, CycleAction, CycleConfig, CycleEvent, CyclePhase};
use autd3_link_ethercrab::frame::{load_output, InputImage, RxMessage, TxMessage};
use autd3_link_ethercrab::shutdown::{
    EtherCrabInner, Shutdown, ShutdownAction, ShutdownEvent, ShutdownPhase,
};
use autd3_link_ethercrab::startup::{Event, Phase, Startup};
use autd3_link_ethercrab::time::{Duration, Instant};
use autd3_link_ethercrab::{BusError, EtherCrab, EtherCrabOption, TimerStrategy};

fn at(nanos: u64) -> Instant {
    Instant::new(Duration::from_nanos(nanos))
}

fn feed(cycle: &mut Cycle, events: Vec<CycleEvent>) {
    for event in events {
        assert!(cycle.accepts(&event), "{:?} in {:?}", event, cycle.phase);
        cycle.step(event);
    }
}

fn begin(strategy: TimerStrategy) -> Cycle {
    Cycle::new(CycleConfig { strategy, devices: 2 })
}

fn message(byte: u8) -> Vec<TxMessage> {
    vec![TxMessage { bytes: [byte; 626] }, TxMessage { bytes: [byte + 1; 626] }]
}

fn frames() -> CycleEvent {
    CycleEvent::Inputs(vec![[1, 2], [3, 4]])
}

fn exchanged(strategy: TimerStrategy) -> Cycle {
    let mut cycle = begin(strategy);
    feed(
        &mut cycle,
        vec![
            CycleEvent::Open(true),
            CycleEvent::Clock(at(100)),
            CycleEvent::NextCycle(Duration::from_nanos(50)),
            frames(),
        ],
    );
    cycle
}

#[test]
fn cycle_stores_inputs_and_loads_outputs() {
    let mut cycle = begin(TimerStrategy::Sleep);
    assert!(matches!(cycle.action(), CycleAction::CheckOpen));
    feed(&mut cycle, vec![CycleEvent::Open(true)]);
    assert!(matches!(cycle.action(), CycleAction::ReadClock));
    feed(&mut cycle, vec![CycleEvent::Clock(at(100))]);
    assert!(matches!(cycle.action(), CycleAction::Exchange));
    feed(&mut cycle, vec![CycleEvent::NextCycle(Duration::from_nanos(50))]);
    assert!(matches!(cycle.action(), CycleAction::ReadInputs));
    assert!(!cycle.accepts(&CycleEvent::Inputs(vec![[1, 2]])));
    feed(&mut cycle, vec![frames()]);
    assert!(matches!(cycle.action(), CycleAction::StoreInputs(f) if *f == vec![[1, 2], [3, 4]]));
    feed(&mut cycle, vec![CycleEvent::Done]);
    assert!(matches!(cycle.action(), CycleAction::Poll));
    assert!(!cycle.accepts(&CycleEvent::Taken(Some(message(5)[..1].to_vec()))));
    feed(&mut cycle, vec![CycleEvent::Taken(Some(message(5)))]);
    assert!(matches!(cycle.action(), CycleAction::LoadOutputs(tx) if *tx == message(5)));
    feed(&mut cycle, vec![CycleEvent::Done]);
    assert!(matches!(cycle.action(), CycleAction::ReadClock));
    feed(&mut cycle, vec![CycleEvent::Clock(at(110))]);
    assert!(matches!(cycle.action(), CycleAction::Sleep(d) if d == Duration::from_nanos(40)));
    feed(&mut cycle, vec![CycleEvent::Done]);
    assert!(matches!(cycle.phase, CyclePhase::CheckOpen));
}

#[test]
fn nothing_is_loaded_without_a_transmission() {
    let mut cycle = exchanged(TimerStrategy::Sleep);
    feed(&mut cycle, vec![CycleEvent::Done, CycleEvent::Taken(None)]);
    assert!(matches!(cycle.phase, CyclePhase::Wait { deadline } if deadline == at(150)));
}

#[test]
fn late_cycle_does_not_wait() {
    for strategy in [TimerStrategy::Sleep, TimerStrategy::BusyWait] {
        let mut cycle = exchanged(strategy);
        feed(&mut cycle, vec![CycleEvent::Done, CycleEvent::Taken(None), CycleEvent::Clock(at(150))]);
        assert!(matches!(cycle.phase, CyclePhase::CheckOpen));
    }
}

#[test]
fn busy_wait_spins_until_the_deadline() {
    let mut cycle = exchanged(TimerStrategy::BusyWait);
    feed(&mut cycle, vec![CycleEvent::Done, CycleEvent::Taken(None)]);
    for now in [101, 120, 149] {
        feed(&mut cycle, vec![CycleEvent::Clock(at(now))]);
        assert!(matches!(cycle.action(), CycleAction::Spin));
        feed(&mut cycle, vec![CycleEvent::Done]);
    }
    feed(&mut cycle, vec![CycleEvent::Clock(at(151))]);
    assert!(matches!(cycle.action(), CycleAction::CheckOpen));
}

#[test]
fn closed_link_ends_the_cycle() {
    let mut cycle = begin(TimerStrategy::Sleep);
    feed(&mut cycle, vec![CycleEvent::Open(false)]);
    assert!(matches!(cycle.phase, CyclePhase::Finished));
    assert!(matches!(cycle.action(), CycleAction::Finish));
    assert!(!cycle.accepts(&CycleEvent::Open(true)));
}

#[test]
fn failed_exchange_ends_the_cycle() {
    let mut cycle = begin(TimerStrategy::Sleep);
    feed(
        &mut cycle,
        vec![
            CycleEvent::Open(true),
            CycleEvent::Clock(at(1)),
            CycleEvent::Bus(BusError::Other("timeout".to_owned())),
        ],
    );
    assert!(matches!(&cycle.phase, CyclePhase::Failed(BusError::Other(e)) if e == "timeout"));
    assert!(!cycle.accepts(&CycleEvent::Open(true)));
}

#[test]
fn unrepresentable_deadline_is_not_accepted() {
    let mut cycle = begin(TimerStrategy::Sleep);
    feed(&mut cycle, vec![CycleEvent::Open(true), CycleEvent::Clock(at(1))]);
    assert!(!cycle.accepts(&CycleEvent::NextCycle(Duration::new(u64::MAX, 999_999_999))));
}

#[test]
fn one_transmission_is_taken_per_cycle() {
    let mut cycle = exchanged(TimerStrategy::Sleep);
    feed(&mut cycle, vec![CycleEvent::Done, CycleEvent::Taken(Some(message(7)))]);
    for event in [
        CycleEvent::Done,
        CycleEvent::Clock(at(160)),
        CycleEvent::Open(true),
        CycleEvent::Clock(at(161)),
    ] {
        assert!(!cycle.accepts(&CycleEvent::Taken(Some(message(7)))));
        feed(&mut cycle, vec![event]);
    }
    assert!(!cycle.accepts(&CycleEvent::Taken(Some(message(7)))));
    feed(
        &mut cycle,
        vec![CycleEvent::NextCycle(Duration::from_nanos(50)), frames(), CycleEvent::Done],
    );
    assert!(cycle.accepts(&CycleEvent::Taken(Some(message(7)))));
}

#[test]
fn one_whole_cycle_on_two_devices() {
    let mut cycle = begin(TimerStrategy::Sleep);
    let mut inputs = InputImage::new(2);
    let mut outputs = vec![vec![9u8; 628], vec![9u8; 628]];
    let mut queue = vec![message(5), message(7)];
    let mut loaded = Vec::new();
    let mut polls = 0;
    while polls < 3 || !matches!(cycle.phase, CyclePhase::CheckOpen) {
        let event = match cycle.action() {
            CycleAction::CheckOpen => CycleEvent::Open(true),
            CycleAction::ReadClock => CycleEvent::Clock(at(100)),
            CycleAction::Exchange => CycleEvent::NextCycle(Duration::from_nanos(50)),
            CycleAction::ReadInputs => frames(),
            CycleAction::StoreInputs(frames) => {
                inputs.store_all(frames);
                CycleEvent::Done
            }
            CycleAction::Poll => {
                polls += 1;
                CycleEvent::Taken(if queue.is_empty() { None } else { Some(queue.remove(0)) })
            }
            CycleAction::LoadOutputs(tx) => {
                for (index, output) in outputs.iter_mut().enumerate() {
                    load_output(tx, index, output);
                }
                loaded.push(tx.clone());
                CycleEvent::Done
            }
            _ => CycleEvent::Done,
        };
        feed(&mut cycle, vec![event]);
    }
    assert_eq!(loaded, vec![message(5), message(7)]);
    for (output, message) in outputs.iter().zip(message(7)) {
        assert_eq!(output[..626], message.bytes);
        assert_eq!(output[626..], [9, 9]);
    }
    let mut rx = [RxMessage { data: 0, ack: 0 }; 2];
    inputs.receive(&mut rx);
    assert_eq!(rx, [RxMessage { data: 1, ack: 2 }, RxMessage { data: 3, ack: 4 }]);
}

fn shut(shutdown: &mut Shutdown, events: Vec<ShutdownEvent>) {
    for event in events {
        assert!(shutdown.accepts(&event));
        shutdown.step(event);
    }
}

fn inner() -> EtherCrabInner {
    let option = EtherCrabOption { interval: Duration::from_millis(3), ..EtherCrabOption::default() };
    EtherCrabInner::new(&option, 2)
}

fn held(inner: &EtherCrabInner) -> (bool, bool, bool) {
    (inner.is_open(), inner.task, inner.tx_rx_task)
}

#[test]
fn opened_link_holds_everything() {
    let inner = inner();
    assert_eq!(held(&inner), (true, true, true));
    assert_eq!(inner.buf_size, 32);
    assert_eq!(inner.interval, Duration::from_millis(3));
    assert_eq!(inner.devices, 2);
}

#[test]
fn shutdown_drains_the_queue_and_ends_the_tasks() {
    let mut shutdown = Shutdown::new(inner());
    for _ in 0..2 {
        assert!(matches!(shutdown.action(), ShutdownAction::CheckQueue));
        shut(&mut shutdown, vec![ShutdownEvent::QueueEmpty(false)]);
        assert!(matches!(shutdown.action(), ShutdownAction::Sleep(d) if d == Duration::from_millis(3)));
        shut(&mut shutdown, vec![ShutdownEvent::Done]);
    }
    shut(&mut shutdown, vec![ShutdownEvent::QueueEmpty(true)]);
    assert!(matches!(shutdown.action(), ShutdownAction::ClearOpen));
    assert_eq!(held(&shutdown.inner), (true, true, true));
    shut(&mut shutdown, vec![ShutdownEvent::Done]);
    assert!(matches!(shutdown.action(), ShutdownAction::JoinTask));
    assert_eq!(held(&shutdown.inner), (false, true, true));
    shut(&mut shutdown, vec![ShutdownEvent::Done]);
    assert!(matches!(shutdown.action(), ShutdownAction::AbortTxRx));
    assert_eq!(held(&shutdown.inner), (false, false, true));
    shut(&mut shutdown, vec![ShutdownEvent::Done]);
    assert!(matches!(shutdown.phase, ShutdownPhase::Closed));
    assert!(matches!(shutdown.action(), ShutdownAction::Finish));
    assert_eq!(held(&shutdown.inner), (false, false, false));
    assert_eq!(shutdown.inner.devices, 2);
    assert!(!shutdown.accepts(&ShutdownEvent::Done));
    assert!(matches!(Shutdown::new(shutdown.inner).phase, ShutdownPhase::Closed));
}

#[test]
fn shutdown_of_a_closed_link_ends_at_once() {
    let shutdown = Shutdown::new(EtherCrabInner { is_open: false, ..inner() });
    assert!(matches!(shutdown.phase, ShutdownPhase::Closed));
    assert_eq!(held(&shutdown.inner), (false, true, true));
}

#[test]
fn shutdown_skips_tasks_that_are_gone() {
    let gone = EtherCrabInner { task: false, tx_rx_task: false, ..inner() };
    let mut shutdown = Shutdown::new(gone);
    shut(&mut shutdown, vec![ShutdownEvent::QueueEmpty(true), ShutdownEvent::Done]);
    assert!(matches!(shutdown.phase, ShutdownPhase::Closed));

    let mut shutdown = Shutdown::new(EtherCrabInner { tx_rx_task: true, ..gone });
    shut(&mut shutdown, vec![ShutdownEvent::QueueEmpty(true), ShutdownEvent::Done]);
    assert!(matches!(shutdown.phase, ShutdownPhase::AbortTxRx));
}

fn link() -> EtherCrab {
    EtherCrab::new("eth0", EtherCrabOption::default())
}

fn found(link: &EtherCrab, name: &str) -> Startup {
    let mut startup = link.startup(1);
    for event in [
        Event::Done,
        Event::Done,
        Event::Done,
        Event::Group(vec![name.to_owned()]),
    ] {
        assert!(startup.accepts(&event));
        startup.step(event);
    }
    startup
}

/// A startup of one device that has succeeded.
fn opened(link: &EtherCrab) -> Startup {
    let mut startup = found(link, "AUTD");
    for event in [
        Event::Done,
        Event::Done,
        Event::Clock(at(0)),
        Event::Clock(at(0)),
        Event::Done,
        Event::Clock(at(25_000_000)),
        Event::Clock(at(25_000_000)),
        Event::Register(0),
        Event::Averaged(0),
        Event::Done,
        Event::Done,
        Event::Done,
        Event::AllOp(true),
    ] {
        assert!(startup.accepts(&event));
        startup.step(event);
    }
    assert!(matches!(startup.phase(), Phase::Opened { devices: 1 }));
    startup
}

/// A startup that has failed because another device was found.
fn failed(link: &EtherCrab) -> Startup {
    found(link, "EK1100")
}

#[test]
fn new_link_is_closed() {
    let link = link();
    assert_eq!(link.interface(), "eth0");
    assert_eq!(link.option().buf_size, 32);
    assert!(!link.is_open());
    assert!(!link.blocking_is_open());
    let startup = link.startup(4);
    assert_eq!(startup.config().geometry_len, 4);
    assert_eq!(startup.config().sync_tolerance, Duration::from_micros(1));
    assert_eq!(startup.config().sync_timeout, Duration::from_secs(10));
    assert!(matches!(startup.phase(), Phase::SplitStorage));
}

#[test]
fn closed_link_refuses() {
    let mut link = link();
    let mut rx = [RxMessage { data: 7, ack: 7 }];
    assert_eq!(link.send(&[]).unwrap_err().message(), "Link is closed");
    assert_eq!(link.receive(None, &mut rx).unwrap_err().message(), "Link is closed");
    assert_eq!(rx, [RxMessage { data: 7, ack: 7 }]);
    assert!(link.close().is_none());
    assert_eq!(link.blocking_send(&[]).unwrap_err().message(), "Link is closed");
    assert_eq!(link.blocking_receive(None, &mut rx).unwrap_err().message(), "Link is closed");
    assert_eq!(link.blocking_update().unwrap_err().message(), "Link is closed");
    assert_eq!(link.blocking_close().unwrap_err().message(), "Link is closed");
}

#[test]
fn open_link_sends_and_receives() {
    let mut link = link();
    let startup = opened(&link);
    assert!(link.open(startup).is_ok());
    assert!(link.is_open());
    assert!(!link.blocking_is_open());

    let tx = [TxMessage { bytes: [3; 626] }];
    assert_eq!(link.send(&tx).unwrap(), tx.to_vec());
    let mut image = InputImage::new(1);
    image.store(0, &[5, 6]);
    let mut rx = [RxMessage { data: 0, ack: 0 }];
    assert!(link.receive(Some(&image), &mut rx).is_ok());
    assert_eq!(rx, [RxMessage { data: 5, ack: 6 }]);

    assert_eq!(link.blocking_send(&tx).unwrap_err().message(), "Link is closed");

    let shutdown = link.close().unwrap();
    assert!(matches!(shutdown.phase, ShutdownPhase::CheckQueue));
    assert_eq!(held(&shutdown.inner), (true, true, true));
    assert_eq!(shutdown.inner.interval, Duration::from_millis(1));
    assert_eq!(shutdown.inner.buf_size, 32);
    assert_eq!(shutdown.inner.devices, 1);
    assert!(!link.is_open());
    assert!(link.close().is_none());
}

#[test]
fn blocking_link() {
    let mut link = link();
    let startup = opened(&link);
    assert!(link.blocking_open(startup).is_ok());
    assert!(link.blocking_is_open());
    assert!(link.is_open());
    assert!(link.blocking_update().is_ok());
    let tx = [TxMessage { bytes: [4; 626] }];
    assert_eq!(link.blocking_send(&tx).unwrap(), tx.to_vec());
    let image = InputImage::new(1);
    let mut rx = [RxMessage { data: 7, ack: 7 }];
    assert!(link.blocking_receive(Some(&image), &mut rx).is_ok());
    assert_eq!(rx, [RxMessage { data: 0, ack: 0 }]);

    assert!(link.blocking_close().unwrap().is_some());
    assert!(!link.blocking_is_open());
    assert!(link.blocking_close().unwrap().is_none());
    assert!(link.blocking_update().is_ok());
    assert_eq!(link.blocking_send(&tx).unwrap_err().message(), "Link is closed");
}

#[test]
fn failed_startup_changes_nothing() {
    let mut link = link();
    let startup = failed(&link);
    assert_eq!(link.open(startup).unwrap_err().message(), "No AUTD3 device found");
    assert!(!link.is_open());
    let startup = failed(&link);
    assert_eq!(link.blocking_open(startup).unwrap_err().message(), "No AUTD3 device found");
    assert!(!link.blocking_is_open());
    assert_eq!(link.blocking_update().unwrap_err().message(), "Link is closed");

    let startup = opened(&link);
    assert!(link.open(startup).is_ok());
    let startup = failed(&link);
    assert!(link.open(startup).is_err());
    assert!(link.is_open());
}

#[test]
fn refused_transmission_is_reported() {
    assert!(EtherCrab::sent(true).is_ok());
    assert_eq!(EtherCrab::sent(false).unwrap_err().message(), "channel closed");
}
