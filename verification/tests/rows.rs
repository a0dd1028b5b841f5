use cableway_monitor::models::ice_detection::{IceDetectionData, PrecipitationType as IcePrecipitation};
use cableway_monitor::models::sensor::ReadingQuality;
use cableway_monitor::models::weather::{PrecipitationType, WeatherData, WeatherDataSource};
use cableway_monitor::models::user::{User, UserRole};
use cableway_monitor::rows::{ice_detection_row, inspection_row, sensor_row, shutdown_log_row, user_row, weather_row};
use cableway_monitor::services::data_init::sample_sensor;
use cableway_monitor::services::inspection::generate_sample_inspections;
use cableway_monitor::services::shutdown_strategy::execute_shutdown;

#[test]
fn ice_rows_write_optional_precipitation_as_debug_text() {
    let mut d = IceDetectionData {
        id: 1, tower_id: 2, sensor_id: 3, timestamp: 4, ice_thickness_mm: 1250,
        ice_density_kg_m3: Some(90000), ice_weight_kg: None, ambient_temp_c: -300,
        wind_speed_ms: Some(800), humidity_percent: Some(9200),
        precipitation_type: Some(IcePrecipitation::FreezingRain), quality: ReadingQuality::Bad,
    };
    let r = ice_detection_row(&d);
    assert_eq!(r.precipitation_type, "some(freezingrain)");
    assert_eq!(r.quality, "bad");
    assert_eq!(r.ice_thickness_mm, 1250);
    d.precipitation_type = None;
    assert_eq!(ice_detection_row(&d).precipitation_type, "none");
    d.precipitation_type = Some(IcePrecipitation::NoPrecipitation);
    assert_eq!(ice_detection_row(&d).precipitation_type, "some(none)");
}

#[test]
fn weather_rows_write_kinds_in_lower_case() {
    let d = WeatherData {
        id: 1, tower_id: 2, timestamp: 3, temperature_c: -250, humidity_percent: 9000, pressure_hpa: 101300,
        wind_speed_ms: 1200, wind_direction_deg: 18000, wind_gust_ms: None, precipitation_mm: Some(120),
        precipitation_type: PrecipitationType::Drizzle, visibility_m: None, cloud_cover_percent: None,
        solar_radiation_w_m2: None, dew_point_c: None, wind_chill_c: None,
        source: WeatherDataSource::WeatherAPI, quality: ReadingQuality::Good,
    };
    let r = weather_row(&d);
    assert_eq!(r.precipitation_type, "drizzle");
    assert_eq!(r.source, "weatherapi");
    assert_eq!(r.quality, "good");
    assert_eq!(r.pressure_hpa, 101300);
}

#[test]
fn inspection_sensor_and_shutdown_rows() {
    let records = generate_sample_inspections(1_700_000_000);
    let r = inspection_row(&records[1]);
    assert_eq!(r.inspection_type, "afterstorm");
    assert_eq!(r.status, "completed");
    assert_eq!(r.overall_condition, "good");
    assert_eq!(r.follow_up_required, 0);
    assert_eq!(r.inspector_name, records[1].inspector_name);

    let s = sample_sensor(0, 1, 1_700_000_000);
    let sr = sensor_row(&s);
    assert_eq!(sr.sensor_type, "windspeed");
    assert_eq!(sr.status, "active");
    assert_eq!(sr.device_id, "WIND-001-1");

    let log = execute_shutdown(7, 8, 1_700_000_000);
    let lr = shutdown_log_row(&log);
    assert_eq!(lr.shutdown_type, "preemptive");
    assert_eq!(lr.precipitation_type, "none");
    assert_eq!(lr.reason, "根据系统推荐策略执行停运");
    assert_eq!(lr.passengers_affected, Some(0));
}

#[test]
fn user_rows_store_the_role_and_the_hash() {
    let u = User {
        id: 3, username: "ops".to_string(), email: "ops@cableway.local".to_string(), full_name: "运维".to_string(),
        role: UserRole::Operator, department: "运维部".to_string(), phone: None, is_active: false,
        last_login: Some(5), created_at: 1, updated_at: 2,
    };
    let r = user_row(&u, "$2b$12$abc");
    assert_eq!(r.role, "operator");
    assert_eq!(r.is_active, 0);
    assert_eq!(r.password_hash, "$2b$12$abc");
    assert_eq!(r.username, "ops");
    assert_eq!(r.last_login, Some(5));
}
