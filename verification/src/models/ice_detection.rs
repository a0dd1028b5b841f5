use vstd::prelude::*;

verus! {

/// A stored ice reading. Thickness in hundredths of a millimetre, density in
/// hundredths of kg/m3, weight in hundredths of a kilogram, temperature in
/// hundredths of a degree Celsius, wind in hundredths of m/s, humidity in
/// hundredths of a percent.
#[derive(Debug, Clone)]
pub struct IceDetectionData {
    pub id: u128,
    pub tower_id: u128,
    pub sensor_id: u128,
    pub timestamp: i64,
    pub ice_thickness_mm: i64,
    pub ice_density_kg_m3: Option<i64>,
    pub ice_weight_kg: Option<i64>,
    pub ambient_temp_c: i64,
    pub wind_speed_ms: Option<i64>,
    pub humidity_percent: Option<i64>,
    pub precipitation_type: Option<PrecipitationType>,
    pub quality: super::sensor::ReadingQuality,
}

/// An incoming ice reading, in the units of `IceDetectionData`.
#[derive(Debug, Clone)]
pub struct IceReading {
    pub sensor_id: u128,
    pub tower_id: u128,
    pub timestamp: i64,
    pub ice_thickness_mm: i64,
    pub ice_density_kg_m3: Option<i64>,
    pub ambient_temp_c: i64,
    pub wind_speed_ms: Option<i64>,
    pub humidity_percent: Option<i64>,
    pub precipitation_type: Option<PrecipitationType>,
}

#[derive(Debug, Clone, Copy, PartialEq, Eq, Structural)]
pub enum PrecipitationType {
    NoPrecipitation,
    Rain,
    Snow,
    Sleet,
    FreezingRain,
    Hail,
}

impl Default for PrecipitationType {
    fn default() -> (r: Self)
        ensures
            r == PrecipitationType::NoPrecipitation,
    {
        PrecipitationType::NoPrecipitation
    }
}

/// The result of an ice risk analysis, in the units of `IceDetectionData`;
/// vibration in hundredths of mm/s, load increase and confidence in hundredths
/// of a percent, growth in hundredths of mm per hour, the score in points.
#[derive(Debug, Clone)]
pub struct IceAnalysisResult {
    pub id: u128,
    pub tower_id: u128,
    pub analysis_time: i64,
    pub time_window_start: i64,
    pub time_window_end: i64,
    pub avg_ice_thickness_mm: i64,
    pub max_ice_thickness_mm: i64,
    pub ice_type: Option<IceType>,
    pub ice_density_kg_m3: Option<i64>,
    pub temperature_c: i64,
    pub wind_speed_ms: i64,
    pub humidity_percent: i64,
    pub vibration_level_mm_s: i64,
    pub vibration_max_mm_s: i64,
    pub load_increase_percent: i64,
    pub growth_rate_mm_h: i64,
    pub risk_level: IceRiskLevel,
    pub risk_score: u32,
    pub contributing_factors: Vec<RiskFactor>,
    pub predictions: Vec<IcePrediction>,
    pub mitigation_strategy: IceMitigationStrategy,
    pub confidence: i64,
    pub raw_data_points: u32,
}

#[derive(Debug, Clone, Copy, PartialEq, Eq, Structural)]
pub enum IceType {
    Rime,
    Glaze,
    Mixed,
    Frost,
    WetSnow,
    SnowAccumulation,
    Unknown,
}

impl Default for IceType {
    fn default() -> (r: Self)
        ensures
            r == IceType::Unknown,
    {
        IceType::Unknown
    }
}

#[derive(Debug, Clone, Copy, PartialEq, Eq, Structural, PartialOrd, Ord)]
pub enum IceRiskLevel {
    NoRisk,
    Minimal,
    Low,
    Medium,
    Moderate,
    High,
    Severe,
    Critical,
}

impl IceRiskLevel {
    /// Position in declaration order, the order that the derived `Ord` follows.
    pub open spec fn spec_rank(self) -> int {
        match self {
            IceRiskLevel::NoRisk => 0,
            IceRiskLevel::Minimal => 1,
            IceRiskLevel::Low => 2,
            IceRiskLevel::Medium => 3,
            IceRiskLevel::Moderate => 4,
            IceRiskLevel::High => 5,
            IceRiskLevel::Severe => 6,
            IceRiskLevel::Critical => 7,
        }
    }

    /// Position in declaration order.
    pub fn rank(&self) -> (r: u8)
        ensures
            r == self.spec_rank(),
    {
        match self {
            IceRiskLevel::NoRisk => 0,
            IceRiskLevel::Minimal => 1,
            IceRiskLevel::Low => 2,
            IceRiskLevel::Medium => 3,
            IceRiskLevel::Moderate => 4,
            IceRiskLevel::High => 5,
            IceRiskLevel::Severe => 6,
            IceRiskLevel::Critical => 7,
        }
    }
}

impl Default for IceRiskLevel {
    fn default() -> (r: Self)
        ensures
            r == IceRiskLevel::NoRisk,
    {
        IceRiskLevel::NoRisk
    }
}

#[derive(Debug, Clone)]
pub struct HistoricalIceComparison {
    pub same_period_last_year_thickness_mm: Option<i64>,
    pub historical_max_thickness_mm: i64,
    pub historical_avg_thickness_mm: i64,
    pub percentile_rank: i64,
}

/// A predicted thickness (hundredths of a millimetre) with its confidence
/// (hundredths of a percent).
#[derive(Debug, Clone)]
pub struct IcePrediction {
    pub prediction_time: i64,
    pub predicted_thickness_mm: i64,
    pub risk_level: IceRiskLevel,
    pub confidence: i64,
}

#[derive(Debug, Clone)]
pub struct IceForecastPoint {
    pub timestamp: i64,
    pub predicted_thickness_mm: i64,
    pub lower_bound_mm: i64,
    pub upper_bound_mm: i64,
    pub ambient_temp_c: i64,
    pub wind_speed_ms: i64,
}

/// Measures against ice. The speed is in hundredths of m/s, the de-icing time
/// in thousandths of an hour, the threshold in hundredths of a millimetre.
#[derive(Debug, Clone)]
pub struct IceMitigationStrategy {
    pub immediate_actions: Vec<String>,
    pub short_term_actions: Vec<String>,
    pub long_term_actions: Vec<String>,
    pub recommended_speed_ms: Option<i64>,
    pub shutdown_recommended: bool,
    pub estimated_deicing_time_hours: Option<i64>,
    pub safe_ice_threshold_mm: Option<i64>,
}

#[derive(Debug, Clone, Copy, PartialEq, Eq, Structural)]
pub enum MitigationType {
    Heating,
    MechanicalVibration,
    ChemicalDeicing,
    ManualRemoval,
    Shutdown,
    SpeedReduction,
}

#[derive(Debug, Clone, Copy, PartialEq, Eq, Structural)]
pub enum SafetyRating {
    VerySafe,
    Safe,
    Moderate,
    Risky,
    Dangerous,
}

#[derive(Debug, Clone)]
pub struct IceQuery {
    pub tower_id: Option<u128>,
    pub start_time: Option<i64>,
    pub end_time: Option<i64>,
    pub page: Option<u32>,
    pub page_size: Option<u32>,
}

/// One factor of a risk score: its weight in hundredths and its value in
/// hundredths of `unit`.
#[derive(Debug, Clone)]
pub struct RiskFactor {
    pub name: String,
    pub weight: i64,
    pub value: i64,
    pub unit: String,
    pub contribution: String,
}

} // verus!
