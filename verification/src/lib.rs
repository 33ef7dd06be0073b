//! Detection of BLE tracking tags from advertisement data, and the
//! state machines that sequence one alert action at a time against a
//! single shared adapter.

pub mod classifier;
pub mod coordinator;
pub mod executor;
