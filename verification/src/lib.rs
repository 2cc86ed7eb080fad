//! Driver core for the IQS231A/B capacitive proximity sensors on an I2C bus.
//!
//! The core never touches a bus. A driver binds a bus handle to a device
//! address and says which transaction a register read needs
//! ([`Iqs231xDriver::product_number_request`]); whoever schedules the bus runs
//! that transaction on the handle that the driver lends out
//! ([`Iqs231xDriver::inner_mut`]); and [`register::product_number_reply`] turns
//! what the bus returned into the result of the read. A blocking bus and a
//! suspending one are served by the same three steps.

pub mod error;
pub mod iqs231x;
pub mod register;

pub use error::Iqs231xError;
pub use iqs231x::Iqs231xDriver;
