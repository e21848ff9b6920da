//! Register-level driver for the MAX77975/MAX77976 single-cell Li+ battery
//! charger, accessed over an addressed two-wire bus.
//!
//! The driver is split into a register map, pure bitfield codecs for the
//! packed status and configuration registers, a bus abstraction that records
//! every attempted transaction, and the charger controller itself, which
//! composes the two into the write-protect bracketing and atomic status-read
//! protocols.

pub mod bus;
pub mod charger;
pub mod details;
pub mod interrupts;
pub mod mode;
pub mod regs;
pub mod scripted;

pub use bus::Bus;
pub use charger::Charger;
pub use details::BatteryDetails;
pub use details::BatterySense;
pub use details::BypassNodeDetails;
pub use details::ChargerDetails;
pub use details::ChgIn;
pub use details::Details;
pub use details::TemperatureRegulation;
pub use details::ThermistorDetails;
pub use interrupts::ChargerInterrupts;
pub use mode::Mode;
