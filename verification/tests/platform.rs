use cableway_monitor::config::{
    AppConfig, ClickHouseConfig, JwtConfig, NatsConfig, NodeConfig, RedisConfig, ServerConfig, SystemConfig, VideoConfig,
};
use cableway_monitor::error::AppError;
use cableway_monitor::handlers::{bearer_token, health_status, request_priority};
use cableway_monitor::models::alert::{AlertMessage, AlertSeverity, AlertType};
use cableway_monitor::models::ice_detection::{IceReading, PrecipitationType};
use cableway_monitor::models::inspection::Priority;
use cableway_monitor::models::sensor::{CreateSensorRequest, SensorStatus, SensorType};
use cableway_monitor::models::tower::{CreateTowerRequest, Location, RiskLevel, Tower, TowerStatus, UpdateTowerRequest};
use cableway_monitor::models::video::{AttachmentType, VerificationPriority};
use cableway_monitor::models::weather;
use cableway_monitor::models::wind_speed::beaufort_scale;
use cableway_monitor::mq::{alert_needs_follow_up, ice_record, tower_specific, ALERT_TRIGGERED, VIBRATION_DATA, WIND_SPEED_DATA};
use cableway_monitor::models::user::UserRole;
use cableway_monitor::paging::paginate;
use cableway_monitor::services::data_collection::{
    forecast_precipitation, ice_precipitation, simulated_ice_thickness, simulated_tower_status,
};
use cableway_monitor::services::data_init::init_sample_data;
use cableway_monitor::services::sensor::{create_sensor, get_sensor, ingestion_kind, list_sensors, sensor_data_kind, SensorDataKind};
use cableway_monitor::services::tower::{calculate_risk_level, create_tower, get_tower, update_tower};
use cableway_monitor::services::video::{
    ai_verification_result, get_camera_list, manual_verify, request_auto_verification, simulate_ai_analysis,
    start_live_stream,
};
use cableway_monitor::text::{decimal_string, uuid_string};
use cableway_monitor::websocket::{channel_key, handle_client_message, invalid_message, ClientAction, Subscriptions, WebSocketMessage};

fn tower(id: u128, name: &str, position: u32) -> Tower {
    Tower {
        id,
        name: name.to_string(),
        code: format!("TW-{:03}", position),
        location: Location { latitude: 0, longitude: 0, elevation_meters: 0, description: None },
        height_meters: 3500,
        construction_date: None,
        status: TowerStatus::Operational,
        cable_line_id: 1,
        position_in_line: position,
        max_load_kg: 5000000,
        last_inspection_date: None,
        created_at: 0,
        updated_at: 0,
        sensors: vec![],
    }
}

fn config(password: Option<&str>) -> AppConfig {
    AppConfig {
        server: ServerConfig { host: "0.0.0.0".to_string(), port: 8080 },
        clickhouse: ClickHouseConfig {
            host: "127.0.0.1".to_string(),
            port: 8123,
            user: "default".to_string(),
            password: String::new(),
            database: "cableway_monitor".to_string(),
        },
        nats: NatsConfig { host: "nats".to_string(), port: 4222, user: None, password: None },
        redis: RedisConfig { host: "cache".to_string(), port: 6379, password: password.map(|p| p.to_string()) },
        jwt: JwtConfig { secret: "s".to_string(), expire_hours: 24 },
        system: SystemConfig { ice_alert_threshold_mm: 1500, vibration_alert_threshold_mms: 30, wind_speed_threshold_ms: 2000 },
        video: VideoConfig { server_url: "http://127.0.0.1:8090".to_string(), api_key: "k".to_string() },
        node: NodeConfig { node_id: "edge-001".to_string(), node_location: "景区入口".to_string() },
    }
}

#[test]
fn service_addresses() {
    let c = config(None);
    assert_eq!(c.clickhouse_url(), "http://127.0.0.1:8123");
    assert_eq!(c.nats_url(), "nats://nats:4222");
    assert_eq!(c.redis_url(), "redis://cache:6379");
    assert_eq!(config(Some("pw")).redis_url(), "redis://:pw@cache:6379");
}

#[test]
fn error_statuses_and_texts() {
    assert_eq!(AppError::NotFound("x".to_string()).status_code(), 404);
    assert_eq!(AppError::Validation("x".to_string()).status_code(), 400);
    assert_eq!(AppError::BadRequest("x".to_string()).status_code(), 400);
    assert_eq!(AppError::Unauthorized("x".to_string()).status_code(), 401);
    assert_eq!(AppError::Authentication("x".to_string()).status_code(), 401);
    assert_eq!(AppError::Forbidden("x".to_string()).status_code(), 403);
    assert_eq!(AppError::Authorization("x".to_string()).status_code(), 403);
    assert_eq!(AppError::Database("x".to_string()).status_code(), 500);
    assert_eq!(AppError::Nats("x".to_string()).status_code(), 500);
    assert_eq!(AppError::Redis("x".to_string()).status_code(), 500);
    assert_eq!(AppError::Internal("x".to_string()).status_code(), 500);
    assert_eq!(AppError::ExternalService("x".to_string()).status_code(), 502);
    assert_eq!(AppError::NotFound("Tower".to_string()).to_text(), "NotFound: Tower");
    assert_eq!(AppError::ExternalService("down".to_string()).to_text(), "External service error: down");
    assert_eq!(AppError::Redis("gone".to_string()).message(), "gone");
}

#[test]
fn beaufort_forces() {
    assert_eq!(beaufort_scale(0).force, 0);
    assert_eq!(beaufort_scale(29).name, "Calm");
    assert_eq!(beaufort_scale(30).force, 1);
    assert_eq!(beaufort_scale(1720).force, 8);
    assert_eq!(beaufort_scale(1720).description, "大风");
    assert_eq!(beaufort_scale(1720).impact_on_cableway, "建议停运");
    assert_eq!(beaufort_scale(3269).force, 11);
    assert_eq!(beaufort_scale(3270).force, 12);
    assert_eq!(beaufort_scale(3270).max_speed_ms, 10000);
    assert_eq!(beaufort_scale(550).min_speed_ms, 550);
}

#[test]
fn beaufort_never_falls_with_speed() {
    let mut last = 0;
    for s in (0..4000).step_by(7) {
        let f = beaufort_scale(s).force;
        assert!(f >= last);
        last = f;
    }
}

#[test]
fn tower_risk_levels() {
    assert_eq!(calculate_risk_level(600, 2600, 0), RiskLevel::Critical);
    assert_eq!(calculate_risk_level(0, 2600, 1100), RiskLevel::Critical);
    assert_eq!(calculate_risk_level(0, 1800, 600), RiskLevel::High);
    assert_eq!(calculate_risk_level(400, 1100, 0), RiskLevel::Medium);
    assert_eq!(calculate_risk_level(200, 0, 0), RiskLevel::Low);
    assert_eq!(calculate_risk_level(0, 0, 0), RiskLevel::NoRisk);
}

#[test]
fn tower_creation_and_update() {
    let t = create_tower(
        CreateTowerRequest {
            name: "一号塔架".to_string(),
            code: "TW-001".to_string(),
            location: Location { latitude: 1, longitude: 2, elevation_meters: 3, description: None },
            height_meters: 3500,
            construction_date: None,
            cable_line_id: 4,
            position_in_line: 1,
            max_load_kg: 10,
        },
        77,
    );
    assert_eq!(t.status, TowerStatus::Operational);
    assert_eq!(t.created_at, 77);
    let u = update_tower(t, UpdateTowerRequest { name: None, status: Some(TowerStatus::Maintenance), last_inspection_date: None }, 90);
    assert_eq!(u.name, "一号塔架");
    assert_eq!(u.status, TowerStatus::Maintenance);
    assert_eq!(u.updated_at, 90);
    assert_eq!(u.created_at, 77);
}

#[test]
fn missing_tower_is_not_found() {
    match get_tower(None, 1) {
        Err(AppError::NotFound(m)) => assert_eq!(m, "Tower 00000000-0000-0000-0000-000000000001 not found"),
        _ => panic!("not found"),
    }
    assert_eq!(get_tower(Some(tower(3, "a", 1)), 3).unwrap().id, 3);
}

#[test]
fn sensors_of_towers() {
    let towers = vec![tower(1, "a", 1), tower(2, "b", 2)];
    let all = list_sensors(&towers, None, None, None, 0, 100, 10_000_000);
    assert_eq!(all.len(), 10);
    assert_eq!(all[0].device_id, "VIB-001-1");
    assert_eq!(all[5].device_id, "VIB-001-2");
    assert_eq!(all[0].sampling_rate_hz, 10000);
    assert_eq!(all[1].sampling_rate_hz, 1000);
    assert_eq!(all[2].sampling_rate_hz, 100);
    assert_eq!(all[0].status, SensorStatus::Active);
    assert_eq!(all[0].calibration_date, Some(10_000_000 - 30 * 86400));
    let wind = list_sensors(&towers, Some(2), Some(SensorType::WindSpeed), Some(SensorStatus::Faulty), 0, 100, 10_000_000);
    assert_eq!(wind.len(), 1);
    assert_eq!(wind[0].device_id, "WIND-001-2");
    assert_eq!(wind[0].status, SensorStatus::Faulty);
    let page = list_sensors(&towers, None, None, None, 1, 4, 10_000_000);
    assert_eq!(page.len(), 4);
    assert_eq!(page[0].device_id, "HUM-001-1");
}

#[test]
fn sensor_creation_lookup_and_data_kinds() {
    let s = create_sensor(
        CreateSensorRequest {
            device_id: "D".to_string(),
            sensor_type: SensorType::Tilt,
            model: "M".to_string(),
            manufacturer: "F".to_string(),
            sampling_rate_hz: 100,
            measurement_range_min: 0,
            measurement_range_max: 1,
            accuracy: 1,
            calibration_interval_days: 30,
        },
        5,
    );
    assert_eq!(s.status, SensorStatus::Active);
    assert_eq!(s.created_at, 5);
    assert!(matches!(get_sensor(1), Err(AppError::NotFound(m)) if m == "Sensor 00000000-0000-0000-0000-000000000001 not found"));
    assert_eq!(sensor_data_kind("weather").unwrap(), SensorDataKind::Weather);
    assert!(matches!(sensor_data_kind("rain"), Err(AppError::BadRequest(m)) if m == "Unknown data type: rain"));
    assert_eq!(ingestion_kind("ice_detection").unwrap(), SensorDataKind::IceDetection);
    assert!(matches!(ingestion_kind("weather"), Err(AppError::BadRequest(m)) if m == "Unknown data type: weather"));
}

#[test]
fn camera_list_and_streams() {
    let towers = vec![tower(1, "一号塔架", 1), tower(2, "二号塔架", 12)];
    let cams = get_camera_list(&towers, None, 9);
    assert_eq!(cams.len(), 2);
    assert_eq!(cams[0].device_id, "CAM-001");
    assert_eq!(cams[1].device_id, "CAM-012");
    assert_eq!(cams[0].name, "一号塔架监控摄像头");
    assert_eq!(cams[1].rtsp_url.as_deref(), Some("rtsp://192.168.1.100:554/stream12"));
    assert_eq!(get_camera_list(&towers, Some(2), 9).len(), 1);
    let session = start_live_stream(&towers, 2, 8, 100).unwrap();
    assert_eq!(session.stream_url, "ws://192.168.1.100:8080/stream/TW-012");
    assert!(matches!(start_live_stream(&towers, 3, 8, 100), Err(AppError::NotFound(_))));
}

#[test]
fn verification_requests_and_results() {
    let alert = AlertMessage {
        alert_id: 40,
        tower_id: 2,
        tower_name: String::new(),
        alert_type: AlertType::IceThicknessHigh,
        severity: AlertSeverity::Warning,
        title: String::new(),
        description: String::new(),
        actual_value: None,
        threshold_value: None,
        unit: None,
        timestamp: 0,
        risk_level: RiskLevel::Medium,
    };
    let req = request_auto_verification(&alert, 100);
    assert_eq!(req.priority, Priority::Medium);
    assert_eq!(req.requested_by, 0);
    assert_eq!(req.expires_at, Some(1900));
    assert_eq!(req.items_to_verify, vec!["ice_detection".to_string(), "structure_inspection".to_string()]);
    let r = ai_verification_result(2, 0x10, 9000, 9600, Some(850), 500);
    assert_eq!(r.ai_confidence, Some(9300));
    assert!(r.human_review_required);
    assert_eq!(r.overall_findings[0], "检测到覆冰，厚度约8.5mm");
    let ice = r.ice_verification.as_ref().unwrap();
    assert!(ice.ice_present);
    assert_eq!(ice.ice_type, cableway_monitor::models::ice_detection::IceType::Glaze);
    assert_eq!(r.attachments[0].attachment_type, AttachmentType::VideoClip);
    assert_eq!(r.attachments[0].url, "/api/v1/video/clips/00000000-0000-0000-0000-000000000010.mp4");
    assert_eq!(r.attachments[0].ai_annotations.len(), 1);
    let quiet = ai_verification_result(2, 0x10, 7200, 9800, None, 500);
    assert!(!quiet.human_review_required);
    assert_eq!(quiet.overall_findings[0], "未检测到明显覆冰");
}

#[test]
fn simulated_analysis_draws_within_ranges() {
    for _ in 0..50 {
        let r = simulate_ai_analysis(1, 2, 1000);
        let ice = r.ice_verification.as_ref().unwrap();
        assert!((7000..9500).contains(&ice.thickness_confidence));
        if ice.ice_present {
            assert!((300..1200).contains(&ice.estimated_thickness_mm));
        } else {
            assert_eq!(ice.estimated_thickness_mm, 0);
        }
        let c = r.ai_confidence.unwrap();
        assert!((7500..9650).contains(&c));
    }
}

#[test]
fn manual_verification_result() {
    let r = manual_verify(5, 6, true, "ok".to_string(), 1000);
    assert_eq!(r.id, 5);
    assert_eq!(r.reviewed_by, Some(6));
    assert_eq!(r.ice_verification.as_ref().unwrap().estimated_thickness_mm, 1000);
    assert_eq!(r.started_at, 700);
    assert!(r.human_reviewed);
}

#[test]
fn verification_priority_names() {
    assert_eq!(request_priority("High").unwrap(), VerificationPriority::High);
    assert!(matches!(request_priority("soon"), Err(AppError::BadRequest(m)) if m == "Invalid priority: Invalid priority: soon"));
    assert_eq!(VerificationPriority::from_text("MEDIUM"), Ok(VerificationPriority::Medium));
}

#[test]
fn subscriptions_behave_as_a_set() {
    let mut s = Subscriptions::new();
    let r = handle_client_message(&mut s, WebSocketMessage::Subscribe { channel: "alerts".to_string(), tower_id: Some(7) });
    assert!(matches!(r, ClientAction::Updated));
    assert!(s.wants_alert(7));
    assert!(!s.wants_alert(8));
    s.subscribe("alerts", Some(7));
    s.subscribe("towers", None);
    s.unsubscribe("alerts", Some(7));
    assert!(!s.wants_alert(7));
    assert!(s.contains(&"towers".to_string()));
    s.subscribe("alerts", None);
    assert!(s.wants_alert(8));
    let r = handle_client_message(&mut s, WebSocketMessage::Heartbeat { timestamp: 0 });
    assert!(matches!(r, ClientAction::Unexpected));
    assert_eq!(channel_key("alerts", Some(1)), "alerts:00000000-0000-0000-0000-000000000001");
    match invalid_message("eof") {
        WebSocketMessage::Error { message } => assert_eq!(message, "Invalid message: eof"),
        _ => panic!("an error message"),
    }
}

#[test]
fn message_subjects() {
    assert_eq!(VIBRATION_DATA, "sensor.vibration");
    assert_eq!(WIND_SPEED_DATA, "sensor.wind_speed");
    assert_eq!(ALERT_TRIGGERED, "alert.triggered");
    assert_eq!(tower_specific("tower.status", 1), "tower.status.00000000-0000-0000-0000-000000000001");
}

#[test]
fn ice_reading_records() {
    let reading = IceReading {
        sensor_id: 1,
        tower_id: 2,
        timestamp: 3,
        ice_thickness_mm: 1000,
        ice_density_kg_m3: Some(90000),
        ambient_temp_c: -500,
        wind_speed_ms: None,
        humidity_percent: Some(9100),
        precipitation_type: Some(PrecipitationType::Snow),
    };
    let c = SystemConfig { ice_alert_threshold_mm: 1500, vibration_alert_threshold_mms: 30, wind_speed_threshold_ms: 2000 };
    let (data, check) = ice_record(reading, &c);
    // 900 kg/m3 over 10 mm: 9 kg.
    assert_eq!(data.ice_weight_kg, Some(900));
    assert!(!check);
}

#[test]
fn alert_follow_up_from_high_severity() {
    let mut alert = AlertMessage {
        alert_id: 1,
        tower_id: 2,
        tower_name: String::new(),
        alert_type: AlertType::WindSpeedHigh,
        severity: AlertSeverity::Warning,
        title: String::new(),
        description: String::new(),
        actual_value: None,
        threshold_value: None,
        unit: None,
        timestamp: 0,
        risk_level: RiskLevel::Medium,
    };
    assert!(!alert_needs_follow_up(&alert));
    alert.severity = AlertSeverity::High;
    assert!(alert_needs_follow_up(&alert));
}

#[test]
fn pages_of_a_list() {
    assert_eq!(paginate(vec![1, 2, 3, 4, 5], 1, 2), vec![3, 4]);
    assert_eq!(paginate(vec![1, 2, 3, 4, 5], 2, 2), vec![5]);
    assert_eq!(paginate(vec![1, 2, 3], 5, 2), Vec::<i32>::new());
}

#[test]
fn identifiers_and_numbers_as_text() {
    assert_eq!(uuid_string(0x0123456789abcdef0123456789abcdefu128), "01234567-89ab-cdef-0123-456789abcdef");
    assert_eq!(decimal_string(0), "0");
    assert_eq!(decimal_string(12345), "12345");
}

#[test]
fn sample_line() {
    let data = init_sample_data(1_700_000_000).expect("the random source works");
    let (towers, sensors, cameras) = (data.towers, data.sensors, data.cameras);
    assert_eq!(data.admin.username, "admin");
    assert_eq!(data.admin.role, UserRole::Admin);
    assert!(data.admin.is_active);
    assert_eq!(data.admin.created_at, 1_700_000_000);
    assert!(data.admin_password_hash.starts_with("$2b$12$"));
    assert_eq!(data.admin_password_hash.len(), 60);
    assert!(bcrypt::verify("admin123", &data.admin_password_hash).unwrap());
    assert!(!bcrypt::verify("admin124", &data.admin_password_hash).unwrap());
    assert_eq!(towers.len(), 5);
    assert_eq!(towers[0].code, "TW-001");
    assert_eq!(towers[4].name, "五号塔架");
    assert_eq!(towers[2].location.latitude, 30123450 + 2000);
    assert_eq!(towers[1].height_meters, 3750);
    assert_eq!(towers[3].position_in_line, 4);
    assert!(towers.iter().all(|t| t.cable_line_id == towers[0].cable_line_id));
    assert_eq!(sensors.len(), 25);
    assert_eq!(sensors[8].device_id, "TEMP-001-2");
    assert_eq!(sensors[8].measurement_range_min, -4000);
    assert_eq!(sensors[9].accuracy, 100);
    assert_eq!(cameras[4].device_id, "CAM-005");
    assert_eq!(cameras[4].location, "五号塔架顶部");
}

#[test]
fn simulation_decisions() {
    assert_eq!(simulated_ice_thickness(-1000, 9000, 0), 500 + 100);
    assert_eq!(simulated_ice_thickness(-5000, 10000, 0), 1500);
    assert_eq!(simulated_ice_thickness(100, 9000, -50), 0);
    assert_eq!(ice_precipitation(-100, 9500, 0), Some(PrecipitationType::Snow));
    assert_eq!(ice_precipitation(100, 9500, 10), Some(PrecipitationType::FreezingRain));
    assert_eq!(ice_precipitation(100, 9500, 0), None);
    assert_eq!(forecast_precipitation(-1), (7000, weather::PrecipitationType::Snow));
    assert_eq!(forecast_precipitation(0), (3000, weather::PrecipitationType::Rain));
    let s = simulated_tower_status(&tower(1, "a", 1), 600, 2600, 0, 5);
    assert_eq!(s.risk_level, RiskLevel::Critical);
    assert_eq!(s.status, TowerStatus::Warning);
    let calm = simulated_tower_status(&tower(1, "a", 1), 0, 0, 0, 5);
    assert_eq!(calm.status, TowerStatus::Operational);
}

#[test]
fn health_and_tokens() {
    let h = health_status(false, "0.1.0", 12, 34, 5);
    assert_eq!(h.status, "healthy");
    assert_eq!(h.services.database, "unhealthy");
    assert_eq!(h.services.nats, "healthy");
    assert_eq!(bearer_token(Some("Bearer abc")).unwrap(), "abc");
    assert!(matches!(bearer_token(Some("Basic abc")), Err(AppError::Unauthorized(m)) if m == "认证令牌格式错误"));
    assert!(matches!(bearer_token(None), Err(AppError::Unauthorized(m)) if m == "缺少认证令牌"));
    assert!(matches!(bearer_token(Some("Bear")), Err(AppError::Unauthorized(_))));
}

#[test]
fn subscribing_then_unsubscribing_gives_back_the_subscriptions() {
    let mut s = Subscriptions::new();
    s.subscribe("alerts", None);
    s.subscribe("towers", Some(3));
    s.subscribe("sensors", Some(4));
    s.unsubscribe("sensors", Some(4));
    assert!(s.contains(&"alerts".to_string()));
    assert!(s.contains(&channel_key("towers", Some(3))));
    assert!(!s.contains(&channel_key("sensors", Some(4))));
    s.unsubscribe("never", None);
    assert!(s.contains(&"alerts".to_string()));
    assert!(s.contains(&channel_key("towers", Some(3))));
}
