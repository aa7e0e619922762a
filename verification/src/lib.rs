//! Driver for the TSL2591 ambient-light sensor.
//!
//! The sensor sits on a two-wire register bus. The driver owns the bus
//! handle, keeps the configured integration time and gain, and exposes
//! identification, power control, configuration, raw channel acquisition
//! and derived luminosity readings. Pure converters turn a raw channel
//! pair into an illuminance estimate, or report saturation.
//!
//! The bus and the delay are capabilities: small traits whose contracts
//! speak of a ghost history of operations, so that every register frame
//! the driver emits is pinned down by its postconditions.

pub mod bus;
pub mod chip;
pub mod error;
pub mod lux_conversion;
pub mod mock;
pub mod sensor_impl;
pub mod types;

pub use bus::{BusOp, Delay, I2cBus};
pub use error::Error;
pub use lux_conversion::{check_overflow, AdafruitPythonLuxConverter, YoctoLuxConverter};
pub use mock::{BusRecord, DelayLog, ScriptedBus};
pub use sensor_impl::{be16, check_id, luminosity_from_channels, settle_millis, Tsl2591};
pub use types::{Enable, Gain, IntegrationTime, Mode, Status};
