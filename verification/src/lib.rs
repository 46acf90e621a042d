//! Verified core of a bridge between a Comelit home-automation hub and
//! smart-home controllers (HomeKit, Matter).
//!
//! The library holds the hub's protocol vocabulary, the device state
//! derivations, the per-device worker state machines (window coverings,
//! thermostats, dehumidifiers, doors), the bridge bookkeeping shown by the
//! web UI, the metric updates the bridge publishes, the logging set-up and
//! log cleanup choices, the table of requests waiting for the hub's answer,
//! and the conversions and request routing between the hub and Matter.

pub mod text;
pub mod protocol;
pub mod devices;
pub mod covering;
pub mod thermostat;
pub mod humidity;
pub mod logging;
pub mod bridge_state;
pub mod metrics;
pub mod matter;
pub mod accessories;
pub mod bridge;
pub mod params;
pub mod requests;
