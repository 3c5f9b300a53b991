//! The system bus: address-range dispatch to memory and devices.

pub mod bus;
pub mod bus_fu540;
