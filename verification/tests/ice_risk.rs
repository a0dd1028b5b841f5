use cableway_monitor::models::ice_detection::{IceDetectionData, IceRiskLevel, IceType, PrecipitationType};
use cableway_monitor::models::sensor::ReadingQuality;
use cableway_monitor::models::vibration::VibrationData;
use cableway_monitor::models::wind_speed::WindSpeedData;
use cableway_monitor::models::alert::{AlertSeverity, AlertType};
use cableway_monitor::models::tower::RiskLevel;
use cableway_monitor::services::ice_risk::{
    analyze_ice_risk, calculate_confidence, calculate_ice_growth_rate, calculate_ice_risk_score, classify_ice_type,
    generate_contributing_factors, generate_ice_predictions, generate_mitigation_strategy, ice_risk_alert,
};

fn ice(ts: i64, thickness: i64, temp: i64, humidity: Option<i64>) -> IceDetectionData {
    IceDetectionData {
        id: 1,
        tower_id: 7,
        sensor_id: 2,
        timestamp: ts,
        ice_thickness_mm: thickness,
        ice_density_kg_m3: None,
        ice_weight_kg: None,
        ambient_temp_c: temp,
        wind_speed_ms: None,
        humidity_percent: humidity,
        precipitation_type: Some(PrecipitationType::Snow),
        quality: ReadingQuality::Good,
    }
}

fn vibration(ts: i64, velocity: i64) -> VibrationData {
    VibrationData {
        id: 1,
        tower_id: 7,
        sensor_id: 3,
        timestamp: ts,
        frequency_hz: 250,
        amplitude_mm_s: 10,
        velocity_mm_s: velocity,
        acceleration_mm_s2: 100,
        displacement_mm: 5,
        direction: None,
        temperature: None,
        quality: ReadingQuality::Good,
        raw_spectrum: None,
    }
}

fn wind(ts: i64, speed: i64) -> WindSpeedData {
    WindSpeedData {
        id: 1,
        tower_id: 7,
        sensor_id: 4,
        timestamp: ts,
        wind_speed_ms: speed,
        wind_direction_deg: 9000,
        gust_speed_ms: None,
        temperature: None,
        quality: ReadingQuality::Good,
    }
}

#[test]
fn ice_risk_score_full_weights_is_high() {
    let (level, score) = calculate_ice_risk_score(1600, 600, 2100, -600, 9500);
    assert_eq!(score, 100);
    assert_eq!(level, IceRiskLevel::High);
}

#[test]
fn ice_risk_score_medium_band() {
    let (level, score) = calculate_ice_risk_score(1100, 350, 1600, -100, 8000);
    assert_eq!(score, 30 + 15 + 12 + 5);
    assert_eq!(level, IceRiskLevel::Medium);
}

#[test]
fn ice_risk_score_calm_is_low() {
    let (level, score) = calculate_ice_risk_score(0, 0, 0, 0, 0);
    assert_eq!(score, 0);
    assert_eq!(level, IceRiskLevel::Low);
}

#[test]
fn ice_risk_score_thresholds_are_strict() {
    // Exactly 15 mm of ice scores as "above 10 mm", exactly 5 mm/s as "above 3".
    let (_, score) = calculate_ice_risk_score(1500, 500, 2000, -500, 9000);
    assert_eq!(score, 30 + 15 + 12 + 5);
}

#[test]
fn ice_risk_band_edges() {
    // 60 points is medium, 85 is high.
    let (level60, s60) = calculate_ice_risk_score(1100, 350, 1600, -100, 0);
    assert_eq!(s60, 62);
    assert_eq!(level60, IceRiskLevel::Medium);
    let (level85, s85) = calculate_ice_risk_score(1600, 600, 2100, 100, 0);
    assert_eq!(s85, 85);
    assert_eq!(level85, IceRiskLevel::High);
    let (level59, s59) = calculate_ice_risk_score(1600, 0, 1100, -100, 0);
    assert_eq!(s59, 51);
    assert_eq!(level59, IceRiskLevel::Low);
}

#[test]
fn ice_risk_worse_conditions_never_lower_the_score() {
    let (_, a) = calculate_ice_risk_score(600, 200, 1200, -100, 8000);
    let (_, b) = calculate_ice_risk_score(1200, 400, 1800, -800, 9500);
    assert!(a <= b);
}

#[test]
fn ice_type_classification() {
    assert_eq!(classify_ice_type(-1100, 8500, 1600), IceType::Rime);
    assert_eq!(classify_ice_type(-300, 9500, 0), IceType::Glaze);
    assert_eq!(classify_ice_type(-1600, 0, 0), IceType::SnowAccumulation);
    assert_eq!(classify_ice_type(500, 0, 2100), IceType::WetSnow);
    assert_eq!(classify_ice_type(500, 0, 0), IceType::Mixed);
}

#[test]
fn mitigation_for_medium_risk() {
    let m = generate_mitigation_strategy(IceRiskLevel::Medium, 1200, 0);
    assert_eq!(m.immediate_actions, vec!["加强监控，提高告警敏感度".to_string()]);
    assert_eq!(m.short_term_actions, vec!["安排常规巡检".to_string()]);
    assert_eq!(m.long_term_actions, vec!["优化除冰策略".to_string()]);
    assert_eq!(m.recommended_speed_ms, Some(500));
    assert!(!m.shutdown_recommended);
    assert_eq!(m.estimated_deicing_time_hours, Some(6000));
    assert_eq!(m.safe_ice_threshold_mm, Some(1000));
}

#[test]
fn mitigation_for_critical_risk_recommends_shutdown() {
    let m = generate_mitigation_strategy(IceRiskLevel::Critical, 800, 0);
    assert_eq!(m.immediate_actions.len(), 3);
    assert_eq!(m.immediate_actions[0], "立即启动停运程序，疏散索道乘客");
    assert!(m.shutdown_recommended);
    assert_eq!(m.estimated_deicing_time_hours, None);
}

#[test]
fn mitigation_for_low_risk_is_monitoring_only() {
    let m = generate_mitigation_strategy(IceRiskLevel::Low, 0, 0);
    assert_eq!(m.immediate_actions, vec!["正常监控".to_string()]);
    assert!(m.short_term_actions.is_empty());
    assert_eq!(m.recommended_speed_ms, None);
}

#[test]
fn contributing_factors_listed_in_order() {
    let f = generate_contributing_factors(1200, 400, 1600, -100, 9000);
    let names: Vec<&str> = f.iter().map(|x| x.name.as_str()).collect();
    assert_eq!(names, vec!["覆冰厚度", "振动水平", "风速", "环境温度", "空气湿度"]);
    let weights: Vec<i64> = f.iter().map(|x| x.weight).collect();
    assert_eq!(weights, vec![40, 30, 20, 5, 5]);
    assert_eq!(f[0].contribution, "严重");
    assert_eq!(f[1].contribution, "中等");
    assert_eq!(f[0].value, 1200);
    assert_eq!(f[3].unit, "°C");
}

#[test]
fn contributing_factors_none_in_mild_weather() {
    assert!(generate_contributing_factors(100, 100, 100, 100, 100).is_empty());
}

#[test]
fn confidence_values() {
    assert_eq!(calculate_confidence(50, 100, 0), 7142);
    assert_eq!(calculate_confidence(0, 0, 0), 0);
    assert_eq!(calculate_confidence(200, 200, 200), 10000);
    assert_eq!(calculate_confidence(100, 0, 0), 10000);
}

#[test]
fn growth_rate_per_hour() {
    let data = vec![ice(0, 100, -100, None), ice(3600, 300, -100, None)];
    assert_eq!(calculate_ice_growth_rate(&data), 200);
    let melting = vec![ice(0, 100, -100, None), ice(7200, 99, -100, None)];
    // -0.5 hundredths per hour, rounded down.
    assert_eq!(calculate_ice_growth_rate(&melting), -1);
    assert_eq!(calculate_ice_growth_rate(&vec![ice(0, 100, 0, None)]), 0);
    let same_time = vec![ice(50, 100, 0, None), ice(50, 900, 0, None)];
    assert_eq!(calculate_ice_growth_rate(&same_time), 0);
}

#[test]
fn predictions_for_humid_frost() {
    let p = generate_ice_predictions(500, 100, -600, 8500, 1100, 1_000_000);
    assert_eq!(p.len(), 5);
    assert_eq!(p[0].prediction_time, 1_000_000 + 3600);
    assert_eq!(p[0].predicted_thickness_mm, 650);
    assert_eq!(p[0].confidence, 9800);
    assert_eq!(p[4].predicted_thickness_mm, 500 + 150 * 24);
    assert_eq!(p[4].confidence, 5200);
    assert_eq!(p[4].risk_level, IceRiskLevel::Low);
}

#[test]
fn predictions_never_below_zero() {
    let p = generate_ice_predictions(100, -1000, 500, 0, 0, 0);
    // Above freezing the rate is halved: -500 per hour.
    assert_eq!(p[0].predicted_thickness_mm, 0);
    assert!(p.iter().all(|x| x.predicted_thickness_mm == 0));
}

#[test]
fn analysis_of_a_window() {
    let now = 10_000_000;
    let ice_data = vec![ice(now - 1800, 1600, -600, Some(9500)), ice(now, 1800, -700, Some(9000))];
    let vib_data = vec![vibration(now, 600), vibration(now, 700)];
    let wind_data = vec![wind(now, 2100), wind(now, 2300)];
    let r = analyze_ice_risk(7, now, &ice_data, &vib_data, &wind_data, 1234);
    assert_eq!(r.tower_id, 7);
    assert_eq!(r.avg_ice_thickness_mm, 1700);
    assert_eq!(r.max_ice_thickness_mm, 1800);
    assert_eq!(r.vibration_level_mm_s, 650);
    assert_eq!(r.vibration_max_mm_s, 700);
    assert_eq!(r.wind_speed_ms, 2200);
    assert_eq!(r.temperature_c, -600);
    assert_eq!(r.humidity_percent, 9500);
    assert_eq!(r.risk_score, 100);
    assert_eq!(r.risk_level, IceRiskLevel::High);
    assert_eq!(r.growth_rate_mm_h, 400);
    assert_eq!(r.time_window_start, now - 1800);
    assert_eq!(r.load_increase_percent, 1234);
    assert_eq!(r.raw_data_points, 2);
    assert_eq!(r.predictions.len(), 5);
    assert!(r.mitigation_strategy.shutdown_recommended);
    assert_eq!(r.confidence, ((40 * 2 + 30 * 2 + 30 * 2) * 100) / 100);
    // The identifier comes from uuid v4: version 4, RFC 4122 variant.
    assert_eq!((r.id >> 76) & 0xf, 4);
    assert_eq!((r.id >> 62) & 0x3, 2);
}

#[test]
fn analysis_without_readings() {
    let r = analyze_ice_risk(7, 5000, &vec![], &vec![], &vec![], 0);
    assert_eq!(r.avg_ice_thickness_mm, 0);
    assert_eq!(r.max_ice_thickness_mm, 0);
    assert_eq!(r.risk_score, 0);
    assert_eq!(r.confidence, 0);
    assert_eq!(r.ice_type, Some(IceType::Mixed));
}

#[test]
fn high_risk_raises_an_alert() {
    let now = 10_000_000;
    let ice_data = vec![ice(now, 1200, -600, Some(9500))];
    let vib_data = vec![vibration(now, 600)];
    let wind_data = vec![wind(now, 2100)];
    let r = analyze_ice_risk(7, now, &ice_data, &vib_data, &wind_data, 0);
    assert_eq!(r.risk_score, 30 + 25 + 20 + 10 + 5);
    let a = ice_risk_alert(&r).expect("a high risk raises an alert");
    assert_eq!(a.alert_type, AlertType::IceThicknessHigh);
    assert_eq!(a.severity, AlertSeverity::High);
    assert_eq!(a.risk_level, RiskLevel::High);
    assert_eq!(a.title, "覆冰风险告警 - 12.0mm");
    assert_eq!(a.description, "检测到塔架覆冰厚度12.0mm，风险等级High，风险评分90.00");
    assert_eq!(a.actual_value, Some(1200));
    assert_eq!(a.unit.as_deref(), Some("mm"));
}

#[test]
fn medium_risk_raises_no_alert() {
    let now = 10_000_000;
    let r = analyze_ice_risk(7, now, &vec![ice(now, 1100, -100, Some(0))], &vec![vibration(now, 350)], &vec![wind(now, 1600)], 0);
    assert_eq!(r.risk_level, IceRiskLevel::Medium);
    assert!(ice_risk_alert(&r).is_none());
}

#[test]
fn raising_every_ice_reading_never_lowers_the_analysis() {
    let now = 10_000;
    let low = vec![ice(now - 600, 400, -300, Some(8500)), ice(now - 300, 900, -300, Some(8500))];
    let high = vec![ice(now - 600, 1200, -300, Some(8500)), ice(now - 300, 2000, -300, Some(8500))];
    let vib = vec![vibration(now - 100, 320)];
    let w = vec![wind(now - 100, 1600)];
    let r1 = analyze_ice_risk(7, now, &low, &vib, &w, 0);
    let r2 = analyze_ice_risk(7, now, &high, &vib, &w, 0);
    assert!(r1.risk_score <= r2.risk_score);
    assert_eq!(r1.risk_score, 20 + 15 + 12 + 5);
    assert_eq!(r2.risk_score, 40 + 15 + 12 + 5);
    assert_eq!(r1.risk_level, IceRiskLevel::Low);
    assert_eq!(r2.risk_level, IceRiskLevel::Medium);
}

#[test]
fn deicing_time_is_half_an_hour_per_millimetre_exactly() {
    let m = generate_mitigation_strategy(IceRiskLevel::High, 1001, 0);
    assert_eq!(m.estimated_deicing_time_hours, Some(5005));
}

#[test]
fn the_score_goes_by_the_exact_mean() {
    let now = 10_000;
    let data = vec![ice(now - 600, 500, 100, None), ice(now - 300, 501, 100, None)];
    let r = analyze_ice_risk(7, now, &data, &vec![], &vec![], 0);
    assert_eq!(r.risk_score, 20);
    assert_eq!(r.avg_ice_thickness_mm, 501);
}
