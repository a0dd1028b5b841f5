use cableway_monitor::config::SystemConfig;
use cableway_monitor::db::{alert_from_row, alert_row, ClickHouseClient};
use cableway_monitor::error::AppError;
use cableway_monitor::models::alert::{
    Alert, AlertMessage, AlertQuery, AlertSeverity, AlertStatus, AlertTrigger, AlertType,
};
use cableway_monitor::models::tower::RiskLevel;
use cableway_monitor::services::alert::{acknowledge_alert, check_alerts, create_alert, resolve_alert, summarize_alerts};

fn thresholds() -> SystemConfig {
    SystemConfig { ice_alert_threshold_mm: 1500, vibration_alert_threshold_mms: 30, wind_speed_threshold_ms: 2000 }
}

fn stored(id: u128, severity: AlertSeverity, status: AlertStatus, created_at: i64) -> Alert {
    Alert {
        id,
        tower_id: 5,
        alert_type: AlertType::WindSpeedHigh,
        severity,
        status,
        title: "t".to_string(),
        description: "d".to_string(),
        triggered_by: AlertTrigger::System { component: "system".to_string(), error_code: String::new() },
        threshold_value: Some(2000),
        actual_value: Some(2500),
        unit: Some("m/s".to_string()),
        created_at,
        updated_at: created_at,
        acknowledged_at: None,
        acknowledged_by: None,
        resolved_at: None,
        resolved_by: None,
        resolution_notes: None,
        video_verification_id: None,
        related_data_ids: vec![],
    }
}

#[test]
fn reading_below_threshold_raises_nothing() {
    assert!(check_alerts(&thresholds(), 5, "wind_speed", 1999, 0).is_none());
    assert!(check_alerts(&thresholds(), 5, "humidity", 99999, 0).is_none());
}

#[test]
fn reading_severities_follow_ratios() {
    let c = thresholds();
    let at = check_alerts(&c, 5, "wind_speed", 2000, 7).unwrap();
    assert_eq!(at.severity, AlertSeverity::Info);
    assert_eq!(at.risk_level, RiskLevel::Low);
    assert_eq!(check_alerts(&c, 5, "wind_speed", 2201, 7).unwrap().severity, AlertSeverity::Warning);
    assert_eq!(check_alerts(&c, 5, "wind_speed", 2200, 7).unwrap().severity, AlertSeverity::Info);
    assert_eq!(check_alerts(&c, 5, "wind_speed", 2401, 7).unwrap().severity, AlertSeverity::High);
    assert_eq!(check_alerts(&c, 5, "wind_speed", 3001, 7).unwrap().severity, AlertSeverity::Critical);
    assert_eq!(check_alerts(&c, 5, "wind_speed", 3000, 7).unwrap().severity, AlertSeverity::High);
}

#[test]
fn reading_alert_texts() {
    let a = check_alerts(&thresholds(), 5, "ice_thickness", 2000, 99).unwrap();
    assert_eq!(a.alert_type, AlertType::IceThicknessHigh);
    assert_eq!(a.title, "IceThicknessHigh告警");
    assert_eq!(a.description, "IceThicknessHigh超过阈值，当前值20.00mm，阈值15.00mm");
    assert_eq!(a.actual_value, Some(2000));
    assert_eq!(a.threshold_value, Some(1500));
    assert_eq!(a.timestamp, 99);
    let v = check_alerts(&thresholds(), 5, "vibration", 31, 0).unwrap();
    assert_eq!(v.alert_type, AlertType::VibrationAnomaly);
    assert_eq!(v.unit.as_deref(), Some("mm/s"));
}

#[test]
fn stored_alert_from_message() {
    let m = AlertMessage {
        alert_id: 77,
        tower_id: 5,
        tower_name: String::new(),
        alert_type: AlertType::IceThicknessHigh,
        severity: AlertSeverity::High,
        title: "a".to_string(),
        description: "b".to_string(),
        actual_value: Some(1),
        threshold_value: None,
        unit: None,
        timestamp: 3,
        risk_level: RiskLevel::High,
    };
    let a = create_alert(&m, 10);
    assert_eq!(a.id, 77);
    assert_eq!(a.status, AlertStatus::Open);
    assert_eq!(a.created_at, 10);
    match a.triggered_by {
        AlertTrigger::System { component, error_code } => {
            assert_eq!(component, "ICE-MONITOR");
            assert_eq!(error_code, "");
        }
        _ => panic!("raised by the system"),
    }
}

#[test]
fn acknowledge_then_resolve_keeps_first_acknowledger() {
    let a = acknowledge_alert(vec![stored(1, AlertSeverity::High, AlertStatus::Open, 0)], 1, 100, 50).unwrap();
    assert_eq!(a.acknowledged_by, Some(100));
    assert_eq!(a.acknowledged_at, Some(50));
    assert_eq!(a.status, AlertStatus::Open);
    let r = resolve_alert(vec![a], 1, 200, "done".to_string(), 60).unwrap();
    assert_eq!(r.status, AlertStatus::Resolved);
    assert_eq!(r.acknowledged_by, Some(100));
    assert_eq!(r.acknowledged_at, Some(50));
    assert_eq!(r.resolved_by, Some(200));
    assert_eq!(r.resolution_notes.as_deref(), Some("done"));
}

#[test]
fn resolving_unacknowledged_alert_acknowledges_it() {
    let r = resolve_alert(vec![stored(1, AlertSeverity::High, AlertStatus::Open, 0)], 1, 200, "n".to_string(), 60).unwrap();
    assert_eq!(r.acknowledged_by, Some(200));
    assert_eq!(r.acknowledged_at, Some(60));
}

#[test]
fn missing_alert_is_not_found() {
    match acknowledge_alert(vec![], 0x1234, 1, 1) {
        Err(AppError::NotFound(m)) => assert_eq!(m, "Alert 00000000-0000-0000-0000-000000001234 not found"),
        _ => panic!("not found"),
    }
    assert!(matches!(resolve_alert(vec![], 1, 1, String::new(), 1), Err(AppError::NotFound(_))));
}

#[test]
fn summary_counts() {
    let alerts = vec![
        stored(1, AlertSeverity::Critical, AlertStatus::Open, 50000),
        stored(2, AlertSeverity::Emergency, AlertStatus::Resolved, 50000),
        stored(3, AlertSeverity::Info, AlertStatus::Acknowledged, 10),
        stored(4, AlertSeverity::Critical, AlertStatus::InProgress, 90000),
    ];
    let s = summarize_alerts(&alerts, 90000);
    assert_eq!(s.total_open, 1);
    assert_eq!(s.total_acknowledged, 1);
    assert_eq!(s.last_24h_count, 3);
    assert_eq!(s.unresolved_critical, 2);
    assert!(s.by_severity.is_empty());
}

#[test]
fn stored_rows_round_trip() {
    let a = stored(9, AlertSeverity::Warning, AlertStatus::Acknowledged, 5);
    let row = alert_row(&a);
    assert_eq!(row.alert_type, "windspeedhigh");
    assert_eq!(row.severity, "warning");
    assert_eq!(row.status, "acknowledged");
    let back = alert_from_row(row);
    assert_eq!(back.severity, AlertSeverity::Warning);
    assert_eq!(back.status, AlertStatus::Acknowledged);
    // Kinds are written in lower case and read in snake case.
    assert_eq!(back.alert_type, AlertType::SystemError);
    let in_progress = alert_from_row(alert_row(&stored(9, AlertSeverity::High, AlertStatus::InProgress, 5)));
    assert_eq!(in_progress.status, AlertStatus::Open);
}

#[test]
fn alert_query_text_and_parameters() {
    let q = AlertQuery {
        tower_id: Some(0xab),
        alert_type: Some(AlertType::SensorFault),
        severity: Some(AlertSeverity::High),
        status: Some(AlertStatus::InProgress),
        start_time: None,
        end_time: None,
        page: Some(2),
        page_size: Some(10),
    };
    let (sql, params) = client("cableway_monitor").alerts_query_with(&q, None, Some("2024-01-01T00:00:00+00:00".to_string()));
    assert!(sql.starts_with("SELECT id, tower_id"));
    assert!(sql.contains("FROM cableway_monitor.alerts\n             WHERE 1=1 AND tower_id = ? AND status = ? AND severity = ? AND created_at <= ?"));
    assert!(sql.ends_with(" ORDER BY created_at DESC LIMIT 10 OFFSET 20"));
    assert_eq!(params, vec![
        "00000000-0000-0000-0000-0000000000ab".to_string(),
        "inprogress".to_string(),
        "high".to_string(),
        "2024-01-01T00:00:00+00:00".to_string(),
    ]);
}

#[test]
fn alert_query_formats_times_as_rfc3339() {
    let q = AlertQuery {
        tower_id: None,
        alert_type: None,
        severity: None,
        status: None,
        start_time: Some(1_704_067_200),
        end_time: None,
        page: None,
        page_size: None,
    };
    let (sql, params) = client("db").alerts_query(&q).expect("a time chrono can write");
    assert!(sql.ends_with(" AND created_at >= ? ORDER BY created_at DESC LIMIT 50 OFFSET 0"));
    assert_eq!(params, vec!["2024-01-01T00:00:00+00:00".to_string()]);
}

#[test]
fn alert_query_time_bounds_at_the_edges_of_chrono() {
    let mut q = AlertQuery {
        tower_id: None,
        alert_type: None,
        severity: None,
        status: None,
        start_time: Some(-8_000_000_000_000),
        end_time: Some(8_000_000_000_000),
        page: None,
        page_size: None,
    };
    let (_, params) = client("db").alerts_query(&q).expect("times within chrono's range");
    assert_eq!(params.len(), 2);
    assert!(params[1].starts_with("+255479-"));
    q.end_time = Some(i64::MAX);
    assert!(client("db").alerts_query(&q).is_none());
}

fn client(database: &str) -> ClickHouseClient {
    ClickHouseClient::new("http://127.0.0.1:8123".to_string(), database.to_string())
}

#[test]
fn client_names_its_database() {
    let c = client("cableway_monitor");
    assert_eq!(c.url, "http://127.0.0.1:8123");
    assert_eq!(c.init_database_query(), "CREATE DATABASE IF NOT EXISTS cableway_monitor");
}
