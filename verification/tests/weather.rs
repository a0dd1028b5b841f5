use cableway_monitor::models::sensor::ReadingQuality;
use cableway_monitor::models::weather::{
    AlertSeverity, Certainty, ImpactRating, PrecipitationType, RecommendationPriority, ResponseType, RiskLevel,
    Urgency, WeatherAlertType, WeatherData, WeatherDataSource, WeatherRiskType,
};
use cableway_monitor::services::weather_analysis::{
    analyze_weather_impact, calculate_overall_risk, count_days_with_extreme_temp, count_days_with_high_wind,
    count_days_with_ice_risk, day_number, generate_forecast_summary, generate_impact_assessment,
    generate_mitigation_recommendations, generate_weather_alerts, risk_by_type,
};

fn record(ts: i64, temp: i64, humidity: i64, wind: i64, precipitation: Option<i64>) -> WeatherData {
    WeatherData {
        id: 1,
        tower_id: 11,
        timestamp: ts,
        temperature_c: temp,
        humidity_percent: humidity,
        pressure_hpa: 101300,
        wind_speed_ms: wind,
        wind_direction_deg: 4550,
        wind_gust_ms: None,
        precipitation_mm: precipitation,
        precipitation_type: PrecipitationType::NoPrecipitation,
        visibility_m: None,
        cloud_cover_percent: None,
        solar_radiation_w_m2: None,
        dew_point_c: None,
        wind_chill_c: None,
        source: WeatherDataSource::Sensor,
        quality: ReadingQuality::Good,
    }
}

const DAY: i64 = 86400;

#[test]
fn day_numbers_are_utc_days() {
    assert_eq!(day_number(0), 0);
    assert_eq!(day_number(DAY - 1), 0);
    assert_eq!(day_number(DAY), 1);
    assert_eq!(day_number(-1), -1);
}

#[test]
fn ice_risk_days_count_distinct_days() {
    let data = vec![
        record(10, -100, 9000, 0, None),
        record(20, -200, 8500, 0, None),
        record(DAY + 5, -100, 9000, 0, None),
        record(2 * DAY + 5, 100, 9000, 0, None),
        record(3 * DAY + 5, -100, 8000, 0, None),
    ];
    assert_eq!(count_days_with_ice_risk(&data), 2);
}

#[test]
fn repeating_a_record_changes_no_day_count() {
    let a = record(10, -100, 9000, 1600, None);
    let b = record(DAY + 10, -1200, 9000, 1700, None);
    let once = vec![a.clone(), b.clone()];
    let twice = vec![a.clone(), b.clone(), a.clone()];
    assert_eq!(count_days_with_ice_risk(&once), count_days_with_ice_risk(&twice));
    assert_eq!(count_days_with_high_wind(&once), count_days_with_high_wind(&twice));
    assert_eq!(count_days_with_extreme_temp(&once), count_days_with_extreme_temp(&twice));
}

#[test]
fn high_wind_and_extreme_days() {
    let data = vec![
        record(0, 0, 0, 1501, None),
        record(DAY, 0, 0, 1500, None),
        record(2 * DAY, -1001, 0, 0, None),
        record(3 * DAY, 3501, 0, 0, None),
        record(4 * DAY, 3500, 0, 0, None),
    ];
    assert_eq!(count_days_with_high_wind(&data), 1);
    assert_eq!(count_days_with_extreme_temp(&data), 2);
    assert_eq!(count_days_with_ice_risk(&vec![]), 0);
}

#[test]
fn overall_risk_bands() {
    assert_eq!(calculate_overall_risk(8, 0, 0, 0), (RiskLevel::Critical, ImpactRating::Severe));
    assert_eq!(calculate_overall_risk(5, 0, 0, 0), (RiskLevel::High, ImpactRating::Major));
    assert_eq!(calculate_overall_risk(2, 1, 0, 200), (RiskLevel::Medium, ImpactRating::Moderate));
    assert_eq!(calculate_overall_risk(0, 0, 2, 0), (RiskLevel::Low, ImpactRating::Minor));
    assert_eq!(calculate_overall_risk(0, 0, 0, 999), (RiskLevel::NoRisk, ImpactRating::Negligible));
    assert_eq!(calculate_overall_risk(0, 0, 0, -5000), (RiskLevel::NoRisk, ImpactRating::Negligible));
}

#[test]
fn overall_risk_never_falls_with_more_days() {
    let a = calculate_overall_risk(1, 1, 0, 500).0;
    let b = calculate_overall_risk(3, 2, 1, 900).0;
    assert!(a <= b);
}

#[test]
fn weather_alerts_for_records() {
    let data = vec![record(100, -1100, 8500, 2100, None), record(200, 0, 0, 1600, None), record(300, 0, 0, 0, None)];
    let alerts = generate_weather_alerts(&data, 999);
    assert_eq!(alerts.len(), 3);
    let ice = &alerts[0];
    assert_eq!(ice.alert_type, WeatherAlertType::IceWarning);
    assert_eq!(ice.severity, AlertSeverity::Severe);
    assert_eq!(ice.response_type, ResponseType::Prepare);
    assert_eq!(ice.urgency, Urgency::Expected);
    assert_eq!(ice.certainty, Certainty::Likely);
    assert_eq!(ice.message, "温度-11.0°C，湿度85%，存在覆冰风险");
    assert_eq!(ice.effective_end, 100 + 6 * 3600);
    assert_eq!(ice.expires_at, Some(100 + 6 * 3600));
    assert_eq!(ice.created_at, 999);
    assert_eq!(ice.data, Some(vec![("temperature".to_string(), -1100), ("humidity".to_string(), 8500)]));
    let wind = &alerts[1];
    assert_eq!(wind.alert_type, WeatherAlertType::HighWindWarning);
    assert_eq!(wind.severity, AlertSeverity::Severe);
    assert_eq!(wind.response_type, ResponseType::ExecuteShutdown);
    assert_eq!(wind.urgency, Urgency::Immediate);
    assert_eq!(wind.message, "风速21.0m/s，请注意安全");
    assert_eq!(wind.description, "当前风速21.0m/s，风向46°。强风可能导致塔架振动加剧，影响索道运行安全。");
    let light = &alerts[2];
    assert_eq!(light.severity, AlertSeverity::Low);
    assert_eq!(light.response_type, ResponseType::Monitor);
    assert_eq!(light.effective_end, 200 + 2 * 3600);
}

#[test]
fn moderate_ice_warning() {
    let alerts = generate_weather_alerts(&vec![record(0, -600, 8100, 0, None)], 0);
    assert_eq!(alerts.len(), 1);
    assert_eq!(alerts[0].severity, AlertSeverity::Moderate);
    assert_eq!(alerts[0].response_type, ResponseType::Monitor);
    assert_eq!(alerts[0].urgency, Urgency::Future);
}

#[test]
fn risk_by_type_rows() {
    let r = risk_by_type(2, 0, 1, 6000);
    assert_eq!(r, vec![
        (WeatherRiskType::Ice, RiskLevel::High, 200),
        (WeatherRiskType::HighWind, RiskLevel::Low, 0),
        (WeatherRiskType::ExtremeTemperature, RiskLevel::Low, 100),
        (WeatherRiskType::HeavyPrecipitation, RiskLevel::Medium, 6000),
    ]);
}

#[test]
fn impact_assessment_texts() {
    let a = generate_impact_assessment(RiskLevel::High, 2100, 5);
    assert_eq!(a.operational_impact, "严重影响，可能需要频繁停运");
    assert_eq!(a.structural_impact, "高负荷运行，结构应力增加");
    assert_eq!(a.maintenance_impact, "预计需要增加5次巡检");
    assert_eq!(a.estimated_cost_increase_percent, 2000);
    assert_eq!(a.estimated_downtime_hours, 800);
    assert_eq!(a.passenger_impact, "可能造成乘客滞留，需准备应急预案");
    let b = generate_impact_assessment(RiskLevel::NoRisk, 1600, 0);
    assert_eq!(b.maintenance_impact, "预计需要增加1次巡检");
    assert_eq!(b.estimated_downtime_hours, 400);
    assert_eq!(b.passenger_impact, "对乘客影响较小");
}

#[test]
fn recommendations_for_risks() {
    let risks = risk_by_type(2, 3, 0, 0);
    let recs = generate_mitigation_recommendations(&risks, 2500);
    assert_eq!(recs.len(), 3);
    assert_eq!(recs[0].risk_type, WeatherRiskType::Ice);
    assert_eq!(recs[0].priority, RecommendationPriority::High);
    assert_eq!(recs[0].estimated_cost, 1000000);
    assert_eq!(recs[1].risk_type, WeatherRiskType::HighWind);
    assert_eq!(recs[1].priority, RecommendationPriority::High);
    assert_eq!(recs[2].risk_type, WeatherRiskType::General);
    assert_eq!(recs[2].action, "建立恶劣天气应急预案，定期演练");
    let calm = generate_mitigation_recommendations(&risk_by_type(0, 0, 0, 0), 0);
    assert_eq!(calm.len(), 1);
}

#[test]
fn forecast_summary_outlook() {
    let f = generate_forecast_summary(42);
    assert_eq!(f.forecast_period_days, 7);
    assert_eq!(f.expected_ice_days, 3);
    assert_eq!(f.overall_forecast_risk, RiskLevel::Medium);
}

#[test]
fn weather_impact_analysis() {
    let data = vec![
        record(0, -100, 9000, 1000, Some(150)),
        record(DAY, -300, 8500, 1800, Some(0)),
        record(2 * DAY, 200, 7000, 600, None),
    ];
    let a = analyze_weather_impact(Some(11), 7, 1_000_000, &data, 9000);
    assert_eq!(a.analysis_period_start, 1_000_000 - 7 * DAY);
    assert_eq!(a.data_points_count, 3);
    let s = &a.weather_summary;
    assert_eq!(s.avg_temperature_c, -67);
    assert_eq!(s.min_temperature_c, -300);
    assert_eq!(s.max_temperature_c, 200);
    assert_eq!(s.avg_wind_speed_ms, 1133);
    assert_eq!(s.max_wind_speed_ms, 1800);
    assert_eq!(s.avg_humidity_percent, 8166);
    assert_eq!(s.total_precipitation_mm, 150);
    assert_eq!(s.days_with_ice_risk, 2);
    assert_eq!(s.days_with_high_wind, 1);
    assert_eq!(s.days_with_extreme_temp, 0);
    assert_eq!(s.days_with_precipitation, 1);
    assert_eq!(s.dominant_wind_direction, 9000);
    // 2 ice days (20 points), 1 wind day (8), 18 m/s: 46 points.
    assert_eq!(a.overall_risk, RiskLevel::Medium);
    assert_eq!(a.impact_rating, ImpactRating::Moderate);
    assert_eq!(a.confidence, 7500);
    assert_eq!(a.alerts.len(), 1);
    assert_eq!(a.mitigation_recommendations.len(), 3);
    assert!(a.forecast.is_some());
}

#[test]
fn weather_impact_without_records() {
    let a = analyze_weather_impact(None, 1, 1_000_000, &vec![], 0);
    assert_eq!(a.weather_summary.min_temperature_c, i64::MAX);
    assert_eq!(a.weather_summary.max_temperature_c, i64::MIN);
    assert_eq!(a.weather_summary.avg_temperature_c, 0);
    assert_eq!(a.overall_risk, RiskLevel::NoRisk);
}
