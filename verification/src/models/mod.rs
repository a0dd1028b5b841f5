//! The records of the monitoring platform. Identifiers are the 128-bit values
//! of UUIDs, times are Unix seconds (UTC), and physical quantities are kept in
//! hundredths of the unit that each field names.
pub mod alert;
pub mod ice_detection;
pub mod inspection;
pub mod sensor;
pub mod shutdown_strategy;
pub mod tower;
pub mod user;
pub mod vibration;
pub mod video;
pub mod weather;
pub mod wind_speed;
