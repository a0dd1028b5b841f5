use vstd::prelude::*;

verus! {

/// A sensor. The sampling rate, range and accuracy are in hundredths of their units.
#[derive(Debug, Clone)]
pub struct Sensor {
    pub id: u128,
    pub device_id: String,
    pub sensor_type: SensorType,
    pub model: String,
    pub manufacturer: String,
    pub status: SensorStatus,
    pub calibration_date: Option<i64>,
    pub last_calibration_date: Option<i64>,
    pub calibration_interval_days: u32,
    pub sampling_rate_hz: i64,
    pub measurement_range_min: i64,
    pub measurement_range_max: i64,
    pub accuracy: i64,
    pub created_at: i64,
    pub updated_at: i64,
}

#[derive(Debug, Clone, Copy, PartialEq, Eq, Structural)]
pub enum SensorType {
    Vibration,
    WindSpeed,
    WindDirection,
    Temperature,
    Humidity,
    IceThickness,
    Tilt,
    Stress,
    Accelerometer,
    Gyroscope,
    GPS,
}

#[derive(Debug, Clone, Copy, PartialEq, Eq, Structural)]
pub enum SensorStatus {
    Active,
    Inactive,
    Calibrating,
    Faulty,
    Maintenance,
    Decommissioned,
}

#[derive(Debug, Clone)]
pub struct CreateSensorRequest {
    pub device_id: String,
    pub sensor_type: SensorType,
    pub model: String,
    pub manufacturer: String,
    pub sampling_rate_hz: i64,
    pub measurement_range_min: i64,
    pub measurement_range_max: i64,
    pub accuracy: i64,
    pub calibration_interval_days: u32,
}

/// One reading, in hundredths of `unit`.
#[derive(Debug, Clone)]
pub struct SensorReading {
    pub sensor_id: u128,
    pub tower_id: u128,
    pub timestamp: i64,
    pub value: i64,
    pub unit: String,
    pub quality: ReadingQuality,
}

#[derive(Debug, Clone, Copy, PartialEq, Eq, Structural)]
pub enum ReadingQuality {
    Good,
    Suspect,
    Bad,
    Missing,
}

} // verus!
