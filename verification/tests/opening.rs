use autd3_link_ethercrab::startup::{Action, Event, Phase, Startup, StartupConfig};
use autd3_link_ethercrab::time::{Duration, Instant};
use autd3_link_ethercrab::{BusError, EtherCrabError};

fn ms(millis: u64) -> Instant {
    Instant::new(Duration::from_millis(millis))
}

fn begin(geometry_len: usize) -> Startup {
    begin_within(geometry_len, Duration::from_micros(1))
}

fn begin_within(geometry_len: usize, sync_tolerance: Duration) -> Startup {
    Startup::new(StartupConfig {
        geometry_len,
        sync_tolerance,
        sync_timeout: Duration::from_secs(10),
    })
}

fn feed(startup: &mut Startup, events: Vec<Event>) {
    for event in events {
        assert!(startup.accepts(&event), "{:?} in {:?}", event, startup.phase());
        startup.step(event);
    }
}

fn names(names: &[&str]) -> Event {
    Event::Group(names.iter().map(|n| n.to_string()).collect())
}

/// A startup that has found `n` devices and begins to align their clocks at 1000 ms.
fn aligning(n: usize) -> Startup {
    align(begin(n), n)
}

/// Takes a startup that has just begun to the alignment of `n` clocks at 1000 ms.
fn align(mut startup: Startup, n: usize) -> Startup {
    feed(
        &mut startup,
        vec![
            Event::Done,
            Event::Done,
            Event::Done,
            names(&vec!["AUTD"; n]),
            Event::Done,
            Event::Done,
            Event::Clock(ms(1000)),
            Event::Clock(ms(1000)),
        ],
    );
    startup
}

/// Takes a startup that is about to distribute the system time into a round at `now`.
fn round(startup: &mut Startup, now: u64) {
    feed(startup, vec![Event::Done, Event::Clock(ms(now)), Event::Clock(ms(now))]);
}

fn other(text: &str) -> BusError {
    BusError::Other(text.to_owned())
}

#[test]
fn good_network_opens() {
    let mut startup = begin(2);
    assert!(matches!(startup.action(), Action::SplitStorage));
    feed(&mut startup, vec![Event::Done]);
    assert!(matches!(startup.action(), Action::StartTxRx));
    feed(&mut startup, vec![Event::Done]);
    assert!(matches!(startup.action(), Action::Sleep(d) if d == Duration::from_millis(200)));
    feed(&mut startup, vec![Event::Done]);
    assert!(matches!(startup.action(), Action::InitGroup));
    feed(&mut startup, vec![names(&["AUTD", "AUTD"])]);
    assert!(matches!(startup.action(), Action::EnableSync0));
    feed(&mut startup, vec![Event::Done]);
    assert!(matches!(startup.action(), Action::EnterPreOp));
    feed(&mut startup, vec![Event::Done]);
    assert!(matches!(startup.action(), Action::ReadClock));
    feed(&mut startup, vec![Event::Clock(ms(0)), Event::Clock(ms(0))]);
    assert!(matches!(startup.action(), Action::SyncSystemTime));
    feed(&mut startup, vec![Event::Done, Event::Clock(ms(25)), Event::Clock(ms(25))]);
    assert!(matches!(startup.action(), Action::ReadDifference(0)));
    feed(&mut startup, vec![Event::Register(0x8000_0010)]);
    assert!(matches!(startup.action(), Action::Average(0, -16)));
    feed(&mut startup, vec![Event::Averaged(999)]);
    assert!(matches!(startup.action(), Action::ReadDifference(1)));
    feed(&mut startup, vec![Event::Register(16)]);
    assert!(matches!(startup.action(), Action::Average(1, 16)));
    feed(&mut startup, vec![Event::Averaged(16)]);
    assert!(matches!(startup.action(), Action::ConfigureDcSync));
    feed(&mut startup, vec![Event::Done]);
    assert!(matches!(startup.action(), Action::EnterSafeOp));
    feed(&mut startup, vec![Event::Done]);
    assert!(matches!(startup.action(), Action::RequestOp));
    feed(&mut startup, vec![Event::Done]);
    assert!(matches!(startup.action(), Action::QueryAllOp));
    feed(&mut startup, vec![Event::AllOp(true)]);
    assert!(matches!(startup.phase(), Phase::Opened { devices: 2 }));
    assert!(matches!(startup.action(), Action::Finish));
    assert!(!startup.accepts(&Event::Done));
}

#[test]
fn storage_is_split_once() {
    let mut startup = begin(1);
    feed(&mut startup, vec![Event::StorageTaken]);
    assert!(matches!(startup.phase(), Phase::Failed(EtherCrabError::PduStorageError)));
}

#[test]
fn interface_error_is_passed_on() {
    let mut startup = begin(1);
    feed(&mut startup, vec![Event::Done, Event::Io("permission denied".to_owned())]);
    assert!(
        matches!(startup.phase(), Phase::Failed(EtherCrabError::IoError(e)) if e == "permission denied")
    );
}

#[test]
fn other_devices_are_refused() {
    let mut startup = begin(2);
    feed(&mut startup, vec![Event::Done, Event::Done, Event::Done, names(&["AUTD", "EK1100"])]);
    assert!(matches!(startup.phase(), Phase::Failed(EtherCrabError::DeviceNotFound)));
}

#[test]
fn names_are_looked_at_before_the_number() {
    let mut startup = begin(1);
    feed(&mut startup, vec![Event::Done, Event::Done, Event::Done, names(&["AUTD", "autd"])]);
    assert!(matches!(startup.phase(), Phase::Failed(EtherCrabError::DeviceNotFound)));
}

#[test]
fn number_of_devices_has_to_match() {
    let mut startup = begin(3);
    feed(&mut startup, vec![Event::Done, Event::Done, Event::Done, names(&["AUTD", "AUTD"])]);
    assert!(matches!(startup.phase(), Phase::Failed(EtherCrabError::DeviceNumberMismatch(3, 2))));

    let mut startup = begin(1);
    feed(&mut startup, vec![Event::Done, Event::Done, Event::Done, names(&[])]);
    assert!(matches!(startup.phase(), Phase::Failed(EtherCrabError::DeviceNumberMismatch(1, 0))));
}

#[test]
fn clocks_are_looked_at_every_25_ms() {
    let mut startup = aligning(1);
    feed(&mut startup, vec![Event::Done, Event::Clock(ms(1024))]);
    assert!(matches!(startup.action(), Action::SleepUntil(t) if t == ms(1025)));
    feed(&mut startup, vec![Event::Done]);
    assert!(matches!(startup.action(), Action::SyncSystemTime));
    round(&mut startup, 1025);
    assert!(matches!(startup.action(), Action::ReadDifference(0)));
}

#[test]
fn largest_deviation_decides() {
    let mut startup = aligning(3);
    round(&mut startup, 1025);
    for nanos in [10, 5_000, 20] {
        feed(&mut startup, vec![Event::Register(1), Event::Averaged(nanos)]);
    }
    assert!(matches!(startup.action(), Action::ReadClock));
    feed(&mut startup, vec![Event::Clock(ms(1030))]);
    assert!(matches!(startup.action(), Action::SleepUntil(t) if t == ms(1050)));
    feed(&mut startup, vec![Event::Done]);
    round(&mut startup, 11_000);
    for nanos in [10, 7_000, 20] {
        feed(&mut startup, vec![Event::Register(1), Event::Averaged(nanos)]);
    }
    feed(&mut startup, vec![Event::Clock(ms(11_001))]);
    assert!(matches!(
        startup.phase(),
        Phase::Failed(EtherCrabError::SyncTimeout(d)) if *d == Duration::from_nanos(7_000)
    ));
}

#[test]
fn tolerance_is_exclusive_and_timeout_inclusive() {
    let mut startup = aligning(1);
    round(&mut startup, 1025);
    feed(&mut startup, vec![Event::Register(0), Event::Averaged(1_000)]);
    assert!(matches!(startup.action(), Action::ReadClock));
    feed(&mut startup, vec![Event::Clock(ms(11_000))]);
    assert!(matches!(startup.phase(), Phase::Pause(_)));
}

#[test]
fn settled_clocks_do_not_time_out() {
    let mut startup = aligning(1);
    round(&mut startup, 60_000);
    feed(&mut startup, vec![Event::Register(0), Event::Averaged(999)]);
    assert!(matches!(startup.phase(), Phase::ConfigureDcSync { devices: 1 }));
}

#[test]
fn silent_device_counts_as_aligned() {
    let mut startup = aligning(1);
    round(&mut startup, 1025);
    feed(&mut startup, vec![Event::Bus(BusError::WorkingCounter { expected: 1, received: 0 })]);
    assert!(matches!(startup.action(), Action::Average(0, 0)));
}

#[test]
fn other_failure_of_a_reading_fails_the_startup() {
    let mut startup = aligning(1);
    round(&mut startup, 1025);
    feed(&mut startup, vec![Event::Bus(other("timeout"))]);
    assert!(matches!(
        startup.phase(),
        Phase::Failed(EtherCrabError::EtherCrab(BusError::Other(e))) if e == "timeout"
    ));
}

#[test]
fn working_counter_is_an_error_elsewhere() {
    let mut startup = aligning(1);
    feed(&mut startup, vec![Event::Bus(BusError::WorkingCounter { expected: 1, received: 0 })]);
    assert!(matches!(
        startup.phase(),
        Phase::Failed(EtherCrabError::EtherCrab(BusError::WorkingCounter { expected: 1, received: 0 }))
    ));
}

#[test]
fn devices_are_driven_until_all_are_in_op() {
    let mut startup = aligning(1);
    round(&mut startup, 1025);
    feed(
        &mut startup,
        vec![
            Event::Register(0),
            Event::Averaged(0),
            Event::Done,
            Event::Done,
            Event::Done,
            Event::AllOp(false),
        ],
    );
    assert!(matches!(startup.action(), Action::ReadClock));
    feed(&mut startup, vec![Event::Clock(ms(2000))]);
    assert!(matches!(startup.action(), Action::Exchange));
    feed(&mut startup, vec![Event::NextCycle(Duration::from_millis(1))]);
    assert!(matches!(startup.action(), Action::SleepUntil(t) if t == ms(2001)));
    feed(&mut startup, vec![Event::Done]);
    assert!(matches!(startup.action(), Action::QueryAllOp));
    feed(&mut startup, vec![Event::AllOp(true)]);
    assert!(matches!(startup.phase(), Phase::Opened { devices: 1 }));
}

#[test]
fn empty_network_opens_for_an_empty_geometry() {
    let mut startup = aligning(0);
    round(&mut startup, 1025);
    assert!(matches!(startup.phase(), Phase::ConfigureDcSync { devices: 0 }));
}

#[test]
fn zero_tolerance_is_never_met() {
    let mut startup = align(begin_within(1, Duration::zero()), 1);
    round(&mut startup, 1025);
    feed(&mut startup, vec![Event::Register(0), Event::Averaged(0)]);
    assert!(matches!(startup.phase(), Phase::CheckTimeout(_)));
}

#[test]
fn impossible_outcomes_are_told_apart() {
    let startup = begin(1);
    assert!(!startup.accepts(&Event::Clock(ms(0))));
    assert!(!startup.accepts(&Event::AllOp(true)));
    assert!(!startup.accepts(&Event::Bus(other("timeout"))));
    let mut startup = begin(1);
    feed(&mut startup, vec![Event::Done, Event::Done, Event::Done]);
    assert!(startup.accepts(&names(&["AUTD"; 16])));
    assert!(!startup.accepts(&names(&["AUTD"; 17])));
    let last = Instant::new(Duration::new(u64::MAX, 999_999_999));
    feed(
        &mut startup,
        vec![
            names(&["AUTD"]),
            Event::Done,
            Event::Done,
            Event::Clock(last),
            Event::Clock(last),
            Event::Done,
        ],
    );
    assert!(!startup.accepts(&Event::Clock(last)));
}
