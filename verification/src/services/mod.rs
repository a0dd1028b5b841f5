//! The decisions and computations of the platform's services.
pub mod ice_risk;
pub mod shutdown_strategy;
pub mod weather_analysis;
pub mod inspection;
pub mod alert;
pub mod tower;
pub mod sensor;
pub mod video;
pub mod data_init;
pub mod data_collection;
pub mod auth;
