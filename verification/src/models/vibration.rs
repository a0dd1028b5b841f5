use vstd::prelude::*;

verus! {

/// A stored vibration reading: frequency in hundredths of a hertz, amplitude
/// and velocity in hundredths of mm/s, acceleration in hundredths of mm/s2,
/// displacement in hundredths of a millimetre, direction in hundredths of a
/// degree, temperature in hundredths of a degree Celsius.
#[derive(Debug, Clone)]
pub struct VibrationData {
    pub id: u128,
    pub tower_id: u128,
    pub sensor_id: u128,
    pub timestamp: i64,
    pub frequency_hz: i64,
    pub amplitude_mm_s: i64,
    pub velocity_mm_s: i64,
    pub acceleration_mm_s2: i64,
    pub displacement_mm: i64,
    pub direction: Option<i64>,
    pub temperature: Option<i64>,
    pub quality: super::sensor::ReadingQuality,
    pub raw_spectrum: Option<Vec<i64>>,
}

/// An incoming vibration reading, in the units of `VibrationData`.
#[derive(Debug, Clone)]
pub struct VibrationReading {
    pub sensor_id: u128,
    pub tower_id: u128,
    pub timestamp: i64,
    pub frequency_hz: i64,
    pub amplitude_mm_s: i64,
    pub velocity_mm_s: i64,
    pub acceleration_mm_s2: i64,
    pub displacement_mm: i64,
    pub direction: Option<i64>,
    pub temperature: Option<i64>,
    pub raw_spectrum: Option<Vec<i64>>,
}

#[derive(Debug, Clone)]
pub struct VibrationAnalysisResult {
    pub tower_id: u128,
    pub analysis_time: i64,
    pub time_window_start: i64,
    pub time_window_end: i64,
    pub avg_velocity: i64,
    pub max_velocity: i64,
    pub min_velocity: i64,
    pub std_velocity: i64,
    pub rms_velocity: i64,
    pub dominant_frequency: i64,
    pub peak_frequencies: Vec<FrequencyPeak>,
    pub baseline_deviation: i64,
    pub vibration_level: VibrationLevel,
    pub anomaly_detected: bool,
    pub anomaly_details: Option<String>,
}

#[derive(Debug, Clone)]
pub struct FrequencyPeak {
    pub frequency_hz: i64,
    pub amplitude: i64,
    pub harmonic_order: Option<u32>,
}

#[derive(Debug, Clone, Copy, PartialEq, Eq, Structural)]
pub enum VibrationLevel {
    Normal,
    Slight,
    Moderate,
    Severe,
    Extreme,
}

impl Default for VibrationLevel {
    fn default() -> (r: Self)
        ensures
            r == VibrationLevel::Normal,
    {
        VibrationLevel::Normal
    }
}

#[derive(Debug, Clone)]
pub struct VibrationQuery {
    pub tower_id: Option<u128>,
    pub sensor_id: Option<u128>,
    pub start_time: Option<i64>,
    pub end_time: Option<i64>,
    pub min_velocity: Option<i64>,
    pub max_velocity: Option<i64>,
}

} // verus!
