//! A link to AUTD3 devices over EtherCAT.
//!
//! The library holds what the link decides: how the devices are brought into operation
//! ([`startup`]), what happens in every cycle once they are ([`cycle`]), how the link is closed
//! ([`shutdown`]), and what its callers are told ([`link`]). It performs no input or output of its
//! own. A driver carries out the actions that the library asks for and reports their outcomes.

pub mod alignment;
pub mod cycle;
pub mod cycle_behaviour;
pub mod cycle_laws;
pub mod error;
pub mod frame;
pub mod link;
pub mod option;
pub mod shutdown;
pub mod sleep;
pub mod startup;
pub mod startup_behaviour;
pub mod startup_laws;
pub mod text;
pub mod time;

pub use error::{BusError, EtherCrabError, LinkError};
pub use link::EtherCrab;
pub use option::{
    DcConfiguration, EtherCrabOption, MainDeviceConfig, RetryBehaviour, TimerStrategy, Timeouts,
};
