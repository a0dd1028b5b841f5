use vstd::prelude::*;

verus! {

/// A weather record: temperatures in hundredths of a degree Celsius, humidity
/// and cover in hundredths of a percent, pressure in hundredths of a hPa,
/// speeds in hundredths of m/s, direction in hundredths of a degree,
/// precipitation in hundredths of a millimetre, visibility in hundredths of a
/// metre, radiation in hundredths of W/m2.
#[derive(Debug, Clone)]
pub struct WeatherData {
    pub id: u128,
    pub tower_id: u128,
    pub timestamp: i64,
    pub temperature_c: i64,
    pub humidity_percent: i64,
    pub pressure_hpa: i64,
    pub wind_speed_ms: i64,
    pub wind_direction_deg: i64,
    pub wind_gust_ms: Option<i64>,
    pub precipitation_mm: Option<i64>,
    pub precipitation_type: PrecipitationType,
    pub visibility_m: Option<i64>,
    pub cloud_cover_percent: Option<i64>,
    pub solar_radiation_w_m2: Option<i64>,
    pub dew_point_c: Option<i64>,
    pub wind_chill_c: Option<i64>,
    pub source: WeatherDataSource,
    pub quality: super::sensor::ReadingQuality,
}

#[derive(Debug, Clone, Copy, PartialEq, Eq, Structural)]
pub enum PrecipitationType {
    NoPrecipitation,
    Rain,
    Snow,
    Sleet,
    FreezingRain,
    Hail,
    Drizzle,
    Mixed,
}

impl Default for PrecipitationType {
    fn default() -> (r: Self)
        ensures
            r == PrecipitationType::NoPrecipitation,
    {
        PrecipitationType::NoPrecipitation
    }
}

#[derive(Debug, Clone, Copy, PartialEq, Eq, Structural)]
pub enum WeatherDataSource {
    Sensor,
    WeatherAPI,
    Forecast,
    Manual,
}

#[derive(Debug, Clone)]
pub struct WeatherForecast {
    pub id: u128,
    pub tower_id: Option<u128>,
    pub forecast_time: i64,
    pub forecast_hours: u32,
    pub hourly_forecast: Vec<HourlyForecast>,
    pub source: String,
    pub created_at: i64,
}

/// One hour of a forecast, in the units of `WeatherData`.
#[derive(Debug, Clone)]
pub struct HourlyForecast {
    pub timestamp: i64,
    pub temperature_c: i64,
    pub humidity_percent: i64,
    pub wind_speed_ms: i64,
    pub wind_direction_deg: i64,
    pub wind_gust_ms: Option<i64>,
    pub precipitation_probability_percent: i64,
    pub precipitation_mm: i64,
    pub precipitation_type: PrecipitationType,
    pub cloud_cover_percent: i64,
}

#[derive(Debug, Clone, Copy, PartialEq, Eq, Structural)]
pub enum WeatherRiskType {
    Ice,
    HighWind,
    ExtremeTemperature,
    HeavyPrecipitation,
    General,
}

#[derive(Debug, Clone, Copy, PartialEq, Eq, Structural, PartialOrd, Ord)]
pub enum RecommendationPriority {
    Low,
    Medium,
    High,
    Critical,
}

impl RecommendationPriority {
    /// Position in declaration order, the order that the derived `Ord` follows.
    pub open spec fn spec_rank(self) -> int {
        match self {
            RecommendationPriority::Low => 0,
            RecommendationPriority::Medium => 1,
            RecommendationPriority::High => 2,
            RecommendationPriority::Critical => 3,
        }
    }

    /// Position in declaration order.
    pub fn rank(&self) -> (r: u8)
        ensures
            r == self.spec_rank(),
    {
        match self {
            RecommendationPriority::Low => 0,
            RecommendationPriority::Medium => 1,
            RecommendationPriority::High => 2,
            RecommendationPriority::Critical => 3,
        }
    }
}

/// A recommended measure; the cost is in hundredths of the currency unit and the
/// effectiveness in hundredths of a percent.
#[derive(Debug, Clone)]
pub struct MitigationRecommendation {
    pub risk_type: WeatherRiskType,
    pub priority: RecommendationPriority,
    pub action: String,
    pub estimated_cost: i64,
    pub effectiveness: i64,
}

/// The impact of the weather; the cost increase is in hundredths of a percent
/// and the downtime in hundredths of an hour.
#[derive(Debug, Clone)]
pub struct ImpactAssessment {
    pub operational_impact: String,
    pub structural_impact: String,
    pub maintenance_impact: String,
    pub estimated_cost_increase_percent: i64,
    pub estimated_downtime_hours: i64,
    pub passenger_impact: String,
}

/// A summary of a forecast, in the units of `WeatherData`.
#[derive(Debug, Clone)]
pub struct ForecastSummary {
    pub forecast_period_days: u32,
    pub forecast_time: i64,
    pub avg_temperature_c: i64,
    pub min_temperature_c: i64,
    pub max_temperature_c: i64,
    pub avg_wind_speed_ms: i64,
    pub max_wind_speed_ms: i64,
    pub precipitation_probability: i64,
    pub expected_ice_days: u32,
    pub expected_high_wind_days: u32,
    pub expected_storm_days: u32,
    pub overall_forecast_risk: RiskLevel,
    pub summary_text: String,
}

/// An analysis of the weather over a period; `risk_by_type` pairs each kind of
/// risk with its level and a value in hundredths (days, or millimetres of
/// precipitation); the confidence is in hundredths of a percent.
#[derive(Debug, Clone)]
pub struct WeatherImpactAnalysis {
    pub id: u128,
    pub tower_id: Option<u128>,
    pub analysis_time: i64,
    pub analysis_period_start: i64,
    pub analysis_period_end: i64,
    pub data_points_count: u32,
    pub weather_summary: WeatherSummary,
    pub alerts: Vec<WeatherAlert>,
    pub overall_risk: RiskLevel,
    pub impact_rating: ImpactRating,
    pub risk_by_type: Vec<(WeatherRiskType, RiskLevel, i64)>,
    pub impact_assessment: ImpactAssessment,
    pub mitigation_recommendations: Vec<MitigationRecommendation>,
    pub forecast: Option<ForecastSummary>,
    pub confidence: i64,
}

/// A summary of weather records, in the units of `WeatherData`.
#[derive(Debug, Clone)]
pub struct WeatherSummary {
    pub avg_temperature_c: i64,
    pub min_temperature_c: i64,
    pub max_temperature_c: i64,
    pub avg_humidity_percent: i64,
    pub avg_wind_speed_ms: i64,
    pub max_wind_speed_ms: i64,
    pub avg_wind_gust_ms: Option<i64>,
    pub dominant_wind_direction: i64,
    pub total_precipitation_mm: i64,
    pub precipitation_type: PrecipitationType,
    pub min_visibility_m: Option<i64>,
    pub days_with_ice_risk: u32,
    pub days_with_high_wind: u32,
    pub days_with_extreme_temp: u32,
    pub days_with_precipitation: u32,
}

impl WeatherSummary {
    /// The summary of no records: every number zero, nothing optional present.
    pub open spec fn spec_default() -> WeatherSummary {
        WeatherSummary {
            avg_temperature_c: 0,
            min_temperature_c: 0,
            max_temperature_c: 0,
            avg_humidity_percent: 0,
            avg_wind_speed_ms: 0,
            max_wind_speed_ms: 0,
            avg_wind_gust_ms: None,
            dominant_wind_direction: 0,
            total_precipitation_mm: 0,
            precipitation_type: PrecipitationType::NoPrecipitation,
            min_visibility_m: None,
            days_with_ice_risk: 0,
            days_with_high_wind: 0,
            days_with_extreme_temp: 0,
            days_with_precipitation: 0,
        }
    }
}

impl Default for WeatherSummary {
    fn default() -> (r: Self)
        ensures
            r == WeatherSummary::spec_default(),
    {
        WeatherSummary {
            avg_temperature_c: 0,
            min_temperature_c: 0,
            max_temperature_c: 0,
            avg_humidity_percent: 0,
            avg_wind_speed_ms: 0,
            max_wind_speed_ms: 0,
            avg_wind_gust_ms: None,
            dominant_wind_direction: 0,
            total_precipitation_mm: 0,
            precipitation_type: PrecipitationType::NoPrecipitation,
            min_visibility_m: None,
            days_with_ice_risk: 0,
            days_with_high_wind: 0,
            days_with_extreme_temp: 0,
            days_with_precipitation: 0,
        }
    }
}

#[derive(Debug, Clone)]
pub struct IceRiskAssessment {
    pub risk_level: RiskLevel,
    pub probability_percent: i64,
    pub expected_thickness_mm: i64,
    pub accumulation_rate_mm_h: i64,
    pub contributing_factors: Vec<String>,
    pub critical_temperature_c: i64,
}

#[derive(Debug, Clone)]
pub struct WindRiskAssessment {
    pub risk_level: RiskLevel,
    pub probability_percent: i64,
    pub expected_max_speed_ms: i64,
    pub expected_gust_ms: i64,
    pub sustained_duration_minutes: i64,
    pub wind_load_factor: i64,
}

#[derive(Debug, Clone)]
pub struct VibrationRiskAssessment {
    pub risk_level: RiskLevel,
    pub probability_percent: i64,
    pub expected_velocity_mm_s: i64,
    pub resonant_frequency_risk: bool,
    pub contributing_factors: Vec<String>,
}

/// Risk from the weather. The order is that of the variants.
#[derive(Debug, Clone, Copy, PartialEq, Eq, Structural, PartialOrd, Ord)]
pub enum RiskLevel {
    NoRisk,
    Low,
    Medium,
    High,
    Critical,
    Extreme,
}

impl RiskLevel {
    /// Position in declaration order, the order that the derived `Ord` follows.
    pub open spec fn spec_rank(self) -> int {
        match self {
            RiskLevel::NoRisk => 0,
            RiskLevel::Low => 1,
            RiskLevel::Medium => 2,
            RiskLevel::High => 3,
            RiskLevel::Critical => 4,
            RiskLevel::Extreme => 5,
        }
    }

    /// Position in declaration order.
    pub fn rank(&self) -> (r: u8)
        ensures
            r == self.spec_rank(),
    {
        match self {
            RiskLevel::NoRisk => 0,
            RiskLevel::Low => 1,
            RiskLevel::Medium => 2,
            RiskLevel::High => 3,
            RiskLevel::Critical => 4,
            RiskLevel::Extreme => 5,
        }
    }
}

impl Default for RiskLevel {
    fn default() -> (r: Self)
        ensures
            r == RiskLevel::NoRisk,
    {
        RiskLevel::NoRisk
    }
}

#[derive(Debug, Clone, Copy, PartialEq, Eq, Structural)]
pub enum ImpactRating {
    Negligible,
    Minor,
    Moderate,
    Major,
    Significant,
    Severe,
    Extreme,
}

impl Default for ImpactRating {
    fn default() -> (r: Self)
        ensures
            r == ImpactRating::Negligible,
    {
        ImpactRating::Negligible
    }
}

#[derive(Debug, Clone)]
pub struct WeatherHistoricalComparison {
    pub same_period_last_year: WeatherSummary,
    pub historical_max_wind_speed_ms: i64,
    pub historical_max_ice_thickness_mm: i64,
    pub percentile_rank_temperature: i64,
    pub percentile_rank_wind: i64,
    pub percentile_rank_precipitation: i64,
}

/// A weather alert. `data` holds named values in hundredths of their units.
#[derive(Debug, Clone)]
pub struct WeatherAlert {
    pub id: u128,
    pub tower_id: Option<u128>,
    pub alert_type: WeatherAlertType,
    pub severity: AlertSeverity,
    pub timestamp: i64,
    pub title: String,
    pub headline: String,
    pub message: String,
    pub description: String,
    pub data: Option<Vec<(String, i64)>>,
    pub effective_start: i64,
    pub effective_end: i64,
    pub expires_at: Option<i64>,
    pub affected_area: String,
    pub response_type: ResponseType,
    pub certainty: Certainty,
    pub urgency: Urgency,
    pub source: String,
    pub created_at: i64,
}

#[derive(Debug, Clone, Copy, PartialEq, Eq, Structural)]
pub enum WeatherAlertType {
    WindWarning,
    IceWarning,
    IceStormWarning,
    BlizzardWarning,
    FreezingRainWarning,
    ExtremeColdWarning,
    ThunderstormWarning,
    HeavySnowWarning,
    AvalancheWarning,
    FrostWarning,
    DenseFogWarning,
    HighWindWarning,
}

#[derive(Debug, Clone, Copy, PartialEq, Eq, Structural, PartialOrd, Ord)]
pub enum AlertSeverity {
    Low,
    Minor,
    Moderate,
    Severe,
    Extreme,
}

impl AlertSeverity {
    /// Position in declaration order, the order that the derived `Ord` follows.
    pub open spec fn spec_rank(self) -> int {
        match self {
            AlertSeverity::Low => 0,
            AlertSeverity::Minor => 1,
            AlertSeverity::Moderate => 2,
            AlertSeverity::Severe => 3,
            AlertSeverity::Extreme => 4,
        }
    }

    /// Position in declaration order.
    pub fn rank(&self) -> (r: u8)
        ensures
            r == self.spec_rank(),
    {
        match self {
            AlertSeverity::Low => 0,
            AlertSeverity::Minor => 1,
            AlertSeverity::Moderate => 2,
            AlertSeverity::Severe => 3,
            AlertSeverity::Extreme => 4,
        }
    }
}

#[derive(Debug, Clone, Copy, PartialEq, Eq, Structural)]
pub enum ResponseType {
    Monitor,
    Prepare,
    Evacuate,
    Shelter,
    ExecuteShutdown,
}

#[derive(Debug, Clone, Copy, PartialEq, Eq, Structural)]
pub enum Certainty {
    Observed,
    Likely,
    Possible,
    Unlikely,
    Unknown,
}

#[derive(Debug, Clone, Copy, PartialEq, Eq, Structural)]
pub enum Urgency {
    Immediate,
    Expected,
    Future,
    Past,
    Unknown,
}

#[derive(Debug, Clone)]
pub struct WeatherQuery {
    pub tower_id: Option<u128>,
    pub start_time: Option<i64>,
    pub end_time: Option<i64>,
    pub min_temperature: Option<i64>,
    pub max_temperature: Option<i64>,
    pub min_wind_speed: Option<i64>,
    pub max_wind_speed: Option<i64>,
    pub precipitation_type: Option<PrecipitationType>,
}

} // verus!
