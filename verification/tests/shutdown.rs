use cableway_monitor::models::ice_detection::{IceDetectionData, PrecipitationType};
use cableway_monitor::models::sensor::ReadingQuality;
use cableway_monitor::models::shutdown_strategy::{
    ConditionOperator, ConditionType, RestartStatus, RiskLevel, ShutdownType, StrategySeverity, StrategyStatus,
    UrgencyLevel,
};
use cableway_monitor::models::vibration::VibrationData;
use cableway_monitor::models::wind_speed::WindSpeedData;
use cableway_monitor::services::shutdown_strategy::{
    determine_shutdown_type, evaluate_shutdown_strategy, execute_shutdown, generate_action_steps,
    generate_restart_plan, generate_trigger_conditions,
};

fn ice(thickness: i64) -> IceDetectionData {
    IceDetectionData {
        id: 1,
        tower_id: 9,
        sensor_id: 2,
        timestamp: 0,
        ice_thickness_mm: thickness,
        ice_density_kg_m3: None,
        ice_weight_kg: None,
        ambient_temp_c: -300,
        wind_speed_ms: None,
        humidity_percent: None,
        precipitation_type: Some(PrecipitationType::Snow),
        quality: ReadingQuality::Good,
    }
}

fn vibration(velocity: i64) -> VibrationData {
    VibrationData {
        id: 1,
        tower_id: 9,
        sensor_id: 3,
        timestamp: 0,
        frequency_hz: 0,
        amplitude_mm_s: 0,
        velocity_mm_s: velocity,
        acceleration_mm_s2: 0,
        displacement_mm: 0,
        direction: None,
        temperature: None,
        quality: ReadingQuality::Good,
        raw_spectrum: None,
    }
}

fn wind(speed: i64) -> WindSpeedData {
    WindSpeedData {
        id: 1,
        tower_id: 9,
        sensor_id: 4,
        timestamp: 0,
        wind_speed_ms: speed,
        wind_direction_deg: 0,
        gust_speed_ms: None,
        temperature: None,
        quality: ReadingQuality::Good,
    }
}

#[test]
fn shutdown_decision_bands() {
    assert_eq!(determine_shutdown_type(1600, 2600, 600), (Some(ShutdownType::Emergency), UrgencyLevel::Immediate, RiskLevel::Critical));
    assert_eq!(determine_shutdown_type(1600, 2100, 0), (Some(ShutdownType::Preemptive), UrgencyLevel::High, RiskLevel::High));
    assert_eq!(determine_shutdown_type(1100, 1600, 0), (Some(ShutdownType::Preemptive), UrgencyLevel::Medium, RiskLevel::Medium));
    assert_eq!(determine_shutdown_type(600, 0, 0), (None, UrgencyLevel::NoUrgency, RiskLevel::NoRisk));
    assert_eq!(determine_shutdown_type(600, 0, 250), (None, UrgencyLevel::Low, RiskLevel::Low));
    assert_eq!(determine_shutdown_type(0, 0, 0), (None, UrgencyLevel::NoUrgency, RiskLevel::NoRisk));
}

#[test]
fn shutdown_decision_monotone_example() {
    let low = determine_shutdown_type(600, 1600, 250);
    let high = determine_shutdown_type(1600, 2600, 600);
    assert!(low.1 <= high.1);
    assert!(low.2 <= high.2);
}

#[test]
fn trigger_conditions_for_readings() {
    let c = generate_trigger_conditions(1200, 1500, 250);
    assert_eq!(c.len(), 3);
    assert_eq!(c[0].condition_type, ConditionType::IceThickness);
    assert_eq!(c[0].threshold, 1000);
    assert_eq!(c[0].operator, ConditionOperator::GreaterThanOrEqual);
    assert_eq!(c[0].description, "当前值12.0mm，已达阈值");
    assert_eq!(c[1].condition_type, ConditionType::WindSpeed);
    assert_eq!(c[1].description, "当前值15.0m/s，未达阈值");
    assert_eq!(c[2].condition_type, ConditionType::VibrationVelocity);
    assert_eq!(c[2].unit, "mm/s");
    assert!(generate_trigger_conditions(500, 1000, 200).is_empty());
}

#[test]
fn action_steps_for_each_urgency() {
    let immediate = generate_action_steps(Some(ShutdownType::Emergency), UrgencyLevel::Immediate);
    assert_eq!(immediate.len(), 3);
    assert_eq!(immediate[0].action, "立即停止索道运行");
    assert_eq!(immediate[1].estimated_duration_minutes, 30);
    assert!(immediate.iter().all(|s| s.is_critical));
    let numbers: Vec<u32> = immediate.iter().map(|s| s.step_number).collect();
    assert_eq!(numbers, vec![1, 2, 3]);
    let high = generate_action_steps(Some(ShutdownType::Preemptive), UrgencyLevel::High);
    assert!(!high[0].is_critical);
    assert!(high[1].is_critical && high[2].is_critical);
    assert_eq!(high[1].responsible_role, "操作员");
    let medium = generate_action_steps(Some(ShutdownType::Preemptive), UrgencyLevel::Medium);
    assert_eq!(medium.len(), 2);
    assert_eq!(medium[0].completion_criteria, "密切关注各参数变化，每5分钟报告一次");
    let none = generate_action_steps(None, UrgencyLevel::NoUrgency);
    assert_eq!(none.len(), 1);
    assert_eq!(none[0].action, "正常运行");
    assert_eq!(generate_action_steps(None, UrgencyLevel::Low).len(), 1);
}

#[test]
fn restart_plan_hours_and_checks() {
    let p = generate_restart_plan(1200, 0, 9, 5, 1000);
    assert_eq!(p.planned_restart_time, 1000 + 48 * 3600);
    assert_eq!(p.required_checks.len(), 14);
    assert_eq!(p.required_checks[0].check_name, "覆冰厚度降低至5mm以下，风速降至15m/s以下");
    assert_eq!(p.required_checks[5].description, "重启前检查");
    assert!(p.required_checks.iter().all(|c| !c.is_completed));
    assert_eq!(p.status, RestartStatus::Pending);
    assert_eq!(generate_restart_plan(600, 0, 9, 5, 0).planned_restart_time, 24 * 3600);
    assert_eq!(generate_restart_plan(0, 2100, 9, 5, 0).planned_restart_time, 12 * 3600);
    assert_eq!(generate_restart_plan(0, 0, 9, 5, 0).planned_restart_time, 6 * 3600);
}

#[test]
fn evaluation_of_a_stormy_window() {
    let (s, plan) = evaluate_shutdown_strategy(9, 77, 1000, &vec![ice(1600), ice(800)], &vec![wind(2600)], &vec![vibration(600)]);
    assert_eq!(s.strategy_type, Some(ShutdownType::Emergency));
    assert_eq!(s.severity, StrategySeverity::Extreme);
    assert_eq!(s.status, StrategyStatus::PendingApproval);
    assert_eq!(s.title, "Emergency停运策略");
    assert_eq!(s.description, "基于覆冰16.0mm、风速26.0m/s、振动6.0mm/s的停运评估");
    assert_eq!(s.estimated_duration_minutes, 120);
    assert_eq!(s.related_alert_ids, vec![77]);
    assert_eq!(s.action_steps.len(), 3);
    assert_eq!(s.trigger_conditions.len(), 3);
    assert_eq!(plan.planned_restart_time, 1000 + 48 * 3600);
    assert_eq!(plan.tower_id, 9);
}

#[test]
fn evaluation_of_calm_window() {
    let (s, plan) = evaluate_shutdown_strategy(9, 1, 0, &vec![], &vec![], &vec![]);
    assert_eq!(s.title, "None停运策略");
    assert_eq!(s.severity, StrategySeverity::Advisory);
    assert_eq!(s.strategy_type, None);
    assert_eq!(s.estimated_duration_minutes, 30);
    assert!(s.trigger_conditions.is_empty());
    assert_eq!(plan.planned_restart_time, 6 * 3600);
}

#[test]
fn executed_shutdown_log() {
    let log = execute_shutdown(3, 4, 500);
    assert_eq!(log.strategy_id, 3);
    assert_eq!(log.executed_by, 4);
    assert_eq!(log.shutdown_type, ShutdownType::Preemptive);
    assert_eq!(log.reason, "根据系统推荐策略执行停运");
    assert_eq!(log.start_time, 500);
    assert_eq!(log.passengers_affected, Some(0));
}

#[test]
fn worse_maxima_never_give_a_milder_strategy() {
    let (mild, _) = evaluate_shutdown_strategy(9, 1, 0, &vec![ice(600)], &vec![wind(1600)], &vec![vibration(100)]);
    let (worse, _) = evaluate_shutdown_strategy(9, 1, 0, &vec![ice(1600)], &vec![wind(2100)], &vec![vibration(100)]);
    assert_eq!(mild.strategy_type, None);
    assert_eq!(mild.severity, StrategySeverity::Watch);
    assert_eq!(worse.strategy_type, Some(ShutdownType::Preemptive));
    assert_eq!(worse.severity, StrategySeverity::Severe);
    assert!(mild.estimated_duration_minutes <= worse.estimated_duration_minutes);
}
