//! Options of the link.

use vstd::prelude::*;

use crate::time::Duration;

verus! {

/// How the cyclic exchange waits for its next cycle.
#[derive(Clone, Copy, PartialEq, Eq, Structural, Debug)]
pub enum TimerStrategy {
    /// Let the operating system put the thread to sleep.
    Sleep,
    /// Poll the clock without giving up the processor.
    BusyWait,
}

/// Time limits of the EtherCAT main device.
#[derive(Clone, Copy, Debug)]
pub struct Timeouts {
    /// Limit on a state change of a device.
    pub state_transition: Duration,
    /// Limit on the response to a PDU.
    pub pdu: Duration,
    /// Limit on one EEPROM operation.
    pub eeprom: Duration,
    /// Pause between two polls of a wait loop.
    pub wait_loop_delay: Duration,
    /// Limit on a mailbox becoming ready.
    pub mailbox_echo: Duration,
    /// Limit on a mailbox response.
    pub mailbox_response: Duration,
}

/// What the main device does when a PDU is not answered in time.
#[derive(Clone, Copy, PartialEq, Eq, Structural, Debug)]
pub enum RetryBehaviour {
    /// Report the timeout.
    Never,
    /// Send the PDU again, up to the given number of times.
    Count(usize),
    /// Send the PDU again without limit.
    Forever,
}

/// Settings of the EtherCAT main device.
#[derive(Clone, Copy, Debug)]
pub struct MainDeviceConfig {
    /// Packets to send in the static phase of the clock synchronisation.
    pub dc_static_sync_iterations: u32,
    /// What to do about a PDU that is not answered.
    pub retry_behaviour: RetryBehaviour,
}

/// Settings of the distributed clocks.
#[derive(Clone, Copy, Debug)]
pub struct DcConfiguration {
    /// Delay before the first SYNC0 pulse.
    pub start_delay: Duration,
    /// Period of the SYNC0 pulse.
    pub sync0_period: Duration,
    /// Shift of the cycle relative to the SYNC0 pulse.
    pub sync0_shift: Duration,
}

/// Options of the link.
#[derive(Clone, Copy, Debug)]
pub struct EtherCrabOption {
    /// Number of transmissions that may wait to be sent.
    pub buf_size: usize,
    /// How the cyclic exchange waits for its next cycle.
    pub timer_strategy: TimerStrategy,
    /// Time limits of the main device.
    pub ec_timeouts: Timeouts,
    /// Settings of the main device.
    pub ec_client_config: MainDeviceConfig,
    /// Settings of the distributed clocks.
    pub dc_config: DcConfiguration,
    /// Pause between two looks at the send buffer while the link closes.
    pub interval: Duration,
    /// Deviation below which the clocks of the devices count as aligned.
    pub sync_tolerance: Duration,
    /// Limit on the alignment of the clocks.
    pub sync_timeout: Duration,
}

/// Calls `ethercrab::Timeouts::default` and returns its limits in the order of [`Timeouts`], each as
/// whole seconds and the nanoseconds beyond.
///
/// Trusted: the limits are 5 s for a state transition, 30 ms for a PDU, 10 ms for the EEPROM, 100 ms
/// for a mailbox to become ready and 1 s for its response, and wait loops do not pause.
#[verifier::external_body]
fn ethercrab_timeouts() -> (t: [(u64, u32); 6])
    ensures
        t@ == seq![
            (5u64, 0u32),
            (0u64, 30_000_000u32),
            (0u64, 10_000_000u32),
            (0u64, 0u32),
            (0u64, 100_000_000u32),
            (1u64, 0u32),
        ],
{
    let t = ethercrab::Timeouts::default();
    [
        (t.state_transition.as_secs(), t.state_transition.subsec_nanos()),
        (t.pdu.as_secs(), t.pdu.subsec_nanos()),
        (t.eeprom.as_secs(), t.eeprom.subsec_nanos()),
        (t.wait_loop_delay.as_secs(), t.wait_loop_delay.subsec_nanos()),
        (t.mailbox_echo.as_secs(), t.mailbox_echo.subsec_nanos()),
        (t.mailbox_response.as_secs(), t.mailbox_response.subsec_nanos()),
    ]
}

impl Default for Timeouts {
    fn default() -> (timeouts: Timeouts)
        ensures
            timeouts.state_transition@ == 5_000_000_000,
            timeouts.pdu@ == 30_000_000,
            timeouts.eeprom@ == 10_000_000,
            timeouts.wait_loop_delay@ == 0,
            timeouts.mailbox_echo@ == 100_000_000,
            timeouts.mailbox_response@ == 1_000_000_000,
    {
        let t = ethercrab_timeouts();
        Timeouts {
            state_transition: Duration::new(t[0].0, t[0].1),
            pdu: Duration::new(t[1].0, t[1].1),
            eeprom: Duration::new(t[2].0, t[2].1),
            wait_loop_delay: Duration::new(t[3].0, t[3].1),
            mailbox_echo: Duration::new(t[4].0, t[4].1),
            mailbox_response: Duration::new(t[5].0, t[5].1),
        }
    }
}

/// Calls `ethercrab::MainDeviceConfig::default`.
///
/// Trusted: 10000 packets are sent in the static phase, and an unanswered PDU is not sent again.
#[verifier::external_body]
fn ethercrab_main_device_config() -> (c: MainDeviceConfig)
    ensures
        c.dc_static_sync_iterations == 10_000,
        c.retry_behaviour == RetryBehaviour::Never,
{
    let c = ethercrab::MainDeviceConfig::default();
    MainDeviceConfig {
        dc_static_sync_iterations: c.dc_static_sync_iterations,
        retry_behaviour: match c.retry_behaviour {
            ethercrab::RetryBehaviour::None => RetryBehaviour::Never,
            ethercrab::RetryBehaviour::Count(n) => RetryBehaviour::Count(n),
            ethercrab::RetryBehaviour::Forever => RetryBehaviour::Forever,
        },
    }
}

impl Default for MainDeviceConfig {
    fn default() -> (config: MainDeviceConfig)
        ensures
            config.dc_static_sync_iterations == 10_000,
            config.retry_behaviour == RetryBehaviour::Never,
    {
        ethercrab_main_device_config()
    }
}

impl Default for EtherCrabOption {
    fn default() -> (option: EtherCrabOption)
        ensures
            option.buf_size == 32,
            option.timer_strategy == TimerStrategy::Sleep,
            option.ec_timeouts.state_transition@ == 10_000_000_000,
            option.ec_timeouts.pdu@ == 2_000_000_000,
            option.ec_timeouts.eeprom@ == 10_000_000,
            option.ec_timeouts.wait_loop_delay@ == 5_000_000,
            option.ec_timeouts.mailbox_echo@ == 100_000_000,
            option.ec_timeouts.mailbox_response@ == 1_000_000_000,
            option.ec_client_config.dc_static_sync_iterations == 10_000,
            option.ec_client_config.retry_behaviour == RetryBehaviour::Never,
            option.dc_config.start_delay@ == 100_000_000,
            option.dc_config.sync0_period@ == 1_000_000,
            option.dc_config.sync0_shift@ == 500_000,
            option.interval@ == 1_000_000,
            option.sync_tolerance@ == 1_000,
            option.sync_timeout@ == 10_000_000_000,
    {
        EtherCrabOption {
            ec_timeouts: Timeouts {
                wait_loop_delay: Duration::from_millis(5),
                state_transition: Duration::from_secs(10),
                pdu: Duration::from_millis(2000),
                ..Timeouts::default()
            },
            ec_client_config: MainDeviceConfig {
                dc_static_sync_iterations: 10_000,
                ..MainDeviceConfig::default()
            },
            dc_config: DcConfiguration {
                start_delay: Duration::from_millis(100),
                sync0_period: Duration::from_millis(1),
                sync0_shift: Duration::from_millis(1).half(),
            },
            interval: Duration::from_millis(1),
            sync_tolerance: Duration::from_micros(1),
            sync_timeout: Duration::from_secs(10),
            buf_size: 32,
            timer_strategy: TimerStrategy::Sleep,
        }
    }
}

} // verus!
