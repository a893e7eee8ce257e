use autd3_link_ethercrab::alignment::decode_difference;
use autd3_link_ethercrab::error::sync_timeout_message;
use autd3_link_ethercrab::frame::{
    load_output, max_pdu_data, InputImage, RxMessage, TxMessage, EC_INPUT_FRAME_SIZE,
    EC_OUTPUT_FRAME_SIZE, PDI_LEN,
};
use autd3_link_ethercrab::sleep::{BusyWait, Sleep, StdSleep, Wait};
use autd3_link_ethercrab::text::decimal_text;
use autd3_link_ethercrab::time::{Duration, Instant};
use autd3_link_ethercrab::{
    BusError, DcConfiguration, EtherCrabError, EtherCrabOption, LinkError, RetryBehaviour,
    TimerStrategy,
};

fn at(nanos: u64) -> Instant {
    Instant::new(Duration::from_nanos(nanos))
}

#[test]
fn durations_have_their_length() {
    assert_eq!(Duration::from_secs(10), Duration::new(10, 0));
    assert_eq!(Duration::from_millis(2025), Duration::new(2, 25_000_000));
    assert_eq!(Duration::from_micros(1_000_001), Duration::new(1, 1_000));
    assert_eq!(Duration::from_nanos(1_999_999_999), Duration::new(1, 999_999_999));
    assert_eq!(Duration::zero(), Duration::new(0, 0));
    assert_eq!(Duration::from_millis(1500).as_secs(), 1);
    assert_eq!(Duration::from_millis(1500).subsec_nanos(), 500_000_000);
}

#[test]
fn durations_compute_like_std() {
    for (a, b) in [(0u64, 0u64), (3, 5), (5, 3), (2_000_000_000, 999_999_999), (1, u64::MAX)] {
        let (x, y) = (Duration::from_nanos(a), Duration::from_nanos(b));
        let (p, q) = (std::time::Duration::from_nanos(a), std::time::Duration::from_nanos(b));
        assert_eq!(x.is_shorter_than(&y), p < q);
        let max = x.max(y);
        assert_eq!((max.as_secs(), max.subsec_nanos()), (p.max(q).as_secs(), p.max(q).subsec_nanos()));
        let sub = x.saturating_sub(y);
        let std_sub = p.saturating_sub(q);
        assert_eq!((sub.as_secs(), sub.subsec_nanos()), (std_sub.as_secs(), std_sub.subsec_nanos()));
        let half = x.half();
        assert_eq!((half.as_secs(), half.subsec_nanos()), ((p / 2).as_secs(), (p / 2).subsec_nanos()));
        let sum = x.checked_add(y).unwrap();
        assert_eq!((sum.as_secs(), sum.subsec_nanos()), ((p + q).as_secs(), (p + q).subsec_nanos()));
    }
    assert!(Duration::new(u64::MAX, 999_999_999).checked_add(Duration::from_nanos(1)).is_none());
    assert!(Duration::from_secs(u64::MAX).checked_add(Duration::from_secs(1)).is_none());
    assert_eq!(Duration::new(3, 1).half(), Duration::new(1, 500_000_000));
}

#[test]
fn instants_saturate() {
    assert_eq!(at(30).saturating_duration_since(at(10)), Duration::from_nanos(20));
    assert_eq!(at(10).saturating_duration_since(at(30)), Duration::zero());
    assert!(at(1).is_before(at(2)));
    assert!(!at(2).is_before(at(2)));
    assert_eq!(at(2).plus(Duration::from_nanos(3)), at(5));
    assert_eq!(at(7).since_origin(), Duration::from_nanos(7));
    assert!(Instant::new(Duration::new(u64::MAX, 999_999_999)).checked_add(Duration::from_nanos(1)).is_none());
}

#[test]
fn numbers_are_written_in_decimal() {
    for n in [0u64, 7, 9, 10, 99, 100, 626, 1_234_567_890, u64::MAX] {
        assert_eq!(decimal_text(n), n.to_string());
    }
}

#[test]
fn differences_are_sign_and_magnitude() {
    assert_eq!(decode_difference(0), 0);
    assert_eq!(decode_difference(1), 1);
    assert_eq!(decode_difference(0x7FFF_FFFF), i32::MAX);
    assert_eq!(decode_difference(0x8000_0000), 0);
    assert_eq!(decode_difference(0x8000_0001), -1);
    assert_eq!(decode_difference(0xFFFF_FFFF), -i32::MAX);
}

#[test]
fn sign_bit_negates() {
    for magnitude in [0u32, 1, 1000, 0x7FFF_FFFF] {
        assert_eq!(decode_difference(magnitude | 0x8000_0000), -decode_difference(magnitude));
    }
}

#[test]
fn error_messages() {
    assert_eq!(EtherCrabError::PduStorageError.message(), "Can only split once");
    assert_eq!(EtherCrabError::NoInterfaceAvailable.message(), "No interface is available");
    assert_eq!(EtherCrabError::DeviceNotFound.message(), "No AUTD3 device found");
    assert_eq!(EtherCrabError::IoError("no such device".to_owned()).message(), "no such device");
    assert_eq!(
        EtherCrabError::EtherCrab(BusError::Other("timeout".to_owned())).message(),
        "timeout"
    );
    assert_eq!(
        EtherCrabError::DeviceNumberMismatch(2, 11).message(),
        "Number of devices specified (2) does not match the number found (11)"
    );
    assert_eq!(
        EtherCrabError::SyncTimeout(Duration::from_nanos(1_500)).message(),
        "Failed to synchronize devices (Max deviation: 1.5µs)"
    );
    assert_eq!(sync_timeout_message("3ms"), "Failed to synchronize devices (Max deviation: 3ms)");
}

#[test]
fn working_counter_message_is_that_of_the_main_device() {
    let e = BusError::WorkingCounter { expected: 3, received: 65535 };
    assert_eq!(e.message(), "working counter expected 3, got 65535");
    assert_eq!(
        e.message(),
        ethercrab::error::Error::WorkingCounter { expected: 3, received: 65535 }.to_string()
    );
    assert_eq!(
        EtherCrabError::EtherCrab(e).message(),
        "working counter expected 3, got 65535"
    );
}

#[test]
fn link_error_carries_the_message() {
    assert_eq!(LinkError::new("Link is closed").message(), "Link is closed");
    assert_eq!(EtherCrabError::DeviceNotFound.to_link_error().message(), "No AUTD3 device found");
}

#[test]
fn default_option() {
    let option = EtherCrabOption::default();
    assert_eq!(option.buf_size, 32);
    assert_eq!(option.timer_strategy, TimerStrategy::Sleep);
    assert_eq!(option.ec_timeouts.state_transition, Duration::from_secs(10));
    assert_eq!(option.ec_timeouts.pdu, Duration::from_millis(2000));
    assert_eq!(option.ec_timeouts.eeprom, Duration::from_millis(10));
    assert_eq!(option.ec_timeouts.wait_loop_delay, Duration::from_millis(5));
    assert_eq!(option.ec_timeouts.mailbox_echo, Duration::from_millis(100));
    assert_eq!(option.ec_timeouts.mailbox_response, Duration::from_millis(1000));
    assert_eq!(option.ec_client_config.dc_static_sync_iterations, 10_000);
    assert_eq!(option.ec_client_config.retry_behaviour, RetryBehaviour::Never);
    assert_eq!(option.dc_config.start_delay, Duration::from_millis(100));
    assert_eq!(option.dc_config.sync0_period, Duration::from_millis(1));
    assert_eq!(option.dc_config.sync0_shift, Duration::from_micros(500));
    assert_eq!(option.interval, Duration::from_millis(1));
    assert_eq!(option.sync_tolerance, Duration::from_micros(1));
    assert_eq!(option.sync_timeout, Duration::from_secs(10));
}

#[test]
fn default_limits_come_from_the_main_device() {
    let t = autd3_link_ethercrab::Timeouts::default();
    let std = ethercrab::Timeouts::default();
    for (d, s) in [
        (t.state_transition, std.state_transition),
        (t.pdu, std.pdu),
        (t.eeprom, std.eeprom),
        (t.wait_loop_delay, std.wait_loop_delay),
        (t.mailbox_echo, std.mailbox_echo),
        (t.mailbox_response, std.mailbox_response),
    ] {
        assert_eq!((d.as_secs(), d.subsec_nanos()), (s.as_secs(), s.subsec_nanos()));
    }
    let c = autd3_link_ethercrab::MainDeviceConfig::default();
    assert_eq!(c.dc_static_sync_iterations, 10_000);
    assert_eq!(c.retry_behaviour, RetryBehaviour::Never);
}

#[test]
fn option_with_another_interval() {
    let interval = Duration::from_millis(1);
    let option = EtherCrabOption {
        interval,
        dc_config: DcConfiguration {
            start_delay: Duration::from_millis(100),
            sync0_period: interval,
            sync0_shift: interval.half(),
        },
        ..EtherCrabOption::default()
    };
    assert_eq!(option.dc_config.sync0_shift, Duration::from_nanos(500_000));
    assert_eq!(option.buf_size, 32);
}

#[test]
fn frame_sizes() {
    assert_eq!(EC_OUTPUT_FRAME_SIZE, autd3_core::ethercat::EC_OUTPUT_FRAME_SIZE);
    assert_eq!(EC_INPUT_FRAME_SIZE, autd3_core::ethercat::EC_INPUT_FRAME_SIZE);
    assert_eq!(EC_OUTPUT_FRAME_SIZE, std::mem::size_of::<autd3_core::link::TxMessage>());
    assert_eq!(EC_INPUT_FRAME_SIZE, std::mem::size_of::<autd3_core::link::RxMessage>());
    assert_eq!(PDI_LEN, 10_048);
    assert_eq!(max_pdu_data(), 10_076);
}

#[test]
fn outputs_carry_the_message_of_their_device() {
    let tx = [TxMessage { bytes: [1; 626] }, TxMessage { bytes: [2; 626] }];
    let mut output = vec![9u8; 628];
    load_output(&tx, 0, &mut output);
    load_output(&tx, 1, &mut output);
    assert!(output[..626].iter().all(|b| *b == 2));
    assert_eq!(&output[626..], &[9, 9]);
}

#[test]
fn inputs_are_received_device_by_device() {
    let mut image = InputImage::new(3);
    let mut rx = vec![RxMessage { data: 7, ack: 7 }; 3];
    image.receive(&mut rx);
    assert_eq!(rx, vec![RxMessage { data: 0, ack: 0 }; 3]);

    image.store(1, &[0x12, 0x34]);
    image.receive(&mut rx);
    assert_eq!(rx[0], RxMessage { data: 0, ack: 0 });
    assert_eq!(rx[1], RxMessage { data: 0x12, ack: 0x34 });
    assert_eq!(rx[2], RxMessage { data: 0, ack: 0 });

    image.store_all(&[[1, 2], [3, 4], [5, 6]]);
    let mut first = vec![RxMessage { data: 7, ack: 7 }; 2];
    image.receive(&mut first);
    assert_eq!(first, vec![RxMessage { data: 1, ack: 2 }, RxMessage { data: 3, ack: 4 }]);
    image.receive(&mut []);
}

#[test]
fn sleeping_and_spinning() {
    assert!(matches!(StdSleep::sleep_until(at(10), at(4)), Wait::Sleep(d) if d == Duration::from_nanos(6)));
    assert!(matches!(StdSleep::sleep_until(at(10), at(10)), Wait::Over));
    assert!(matches!(StdSleep::sleep_until(at(10), at(11)), Wait::Over));
    assert!(matches!(BusyWait::sleep_until(at(10), at(9)), Wait::Spin));
    assert!(matches!(BusyWait::sleep_until(at(10), at(10)), Wait::Over));
    assert!(matches!(TimerStrategy::Sleep.sleep_until(at(10), at(9)), Wait::Sleep(_)));
    assert!(matches!(TimerStrategy::BusyWait.sleep_until(at(10), at(9)), Wait::Spin));
}
