use cableway_monitor::models::sensor::ReadingQuality;
use cableway_monitor::models::tower::{TowerListQuery, TowerStatus};
use cableway_monitor::models::vibration::VibrationData;
use cableway_monitor::models::wind_speed::WindSpeedData;
use cableway_monitor::services::data_init::sample_tower;
use cableway_monitor::db::ClickHouseClient;
use cableway_monitor::store::{
    quality_from_text, quality_text, tower_from_row, tower_row, tower_status_from_text, tower_status_text,
    vibration_from_row, vibration_row, wind_speed_from_row, wind_speed_row,
};

fn db(database: &str) -> ClickHouseClient {
    ClickHouseClient::new("http://localhost:8123".to_string(), database.to_string())
}

#[test]
fn tower_statuses_and_qualities_round_trip() {
    for s in [
        TowerStatus::Operational,
        TowerStatus::Warning,
        TowerStatus::Shutdown,
        TowerStatus::Maintenance,
        TowerStatus::Decommissioned,
    ] {
        assert_eq!(tower_status_from_text(tower_status_text(s)), s);
    }
    for q in [ReadingQuality::Good, ReadingQuality::Suspect, ReadingQuality::Bad, ReadingQuality::Missing] {
        assert_eq!(quality_from_text(quality_text(q)), q);
    }
    assert_eq!(tower_status_text(TowerStatus::Decommissioned), "decommissioned");
    assert_eq!(tower_status_from_text("Warning"), TowerStatus::Operational);
    assert_eq!(quality_from_text("unknown"), ReadingQuality::Good);
}

#[test]
fn towers_query_filters_and_pages() {
    let q = TowerListQuery {
        cable_line_id: Some(0x10),
        status: Some(TowerStatus::Maintenance),
        page: Some(3),
        page_size: Some(20),
    };
    let sql = db("cableway_monitor").towers_query(&q);
    assert!(sql.contains("FROM cableway_monitor.towers\n             WHERE 1=1"));
    assert!(sql.ends_with(
        "1=1 AND cable_line_id = '00000000-0000-0000-0000-000000000010' and status = 'maintenance' ORDER BY position_in_line ASC LIMIT 20 OFFSET 60"
    ));
    let all = TowerListQuery { cable_line_id: None, status: None, page: None, page_size: None };
    assert!(db("db").towers_query(&all).ends_with("WHERE 1=1 ORDER BY position_in_line ASC LIMIT 100 OFFSET 0"));
    assert!(db("db").tower_by_id_query().ends_with("FROM db.towers\n             WHERE id = ?"));
}

#[test]
fn reading_queries_name_their_tables() {
    assert!(db("db").vibration_query().contains("FROM db.vibration_data\n"));
    assert!(db("db").wind_speed_query().contains("gust_speed_ms, temperature, quality\n             FROM db.wind_speed_data"));
    let ice = db("db").ice_detection_query();
    assert!(ice.starts_with("SELECT id, tower_id, sensor_id, timestamp, ice_thickness_mm"));
    assert!(ice.ends_with("WHERE tower_id = ? AND timestamp >= ? AND timestamp <= ?\n             ORDER BY timestamp ASC"));
}

#[test]
fn rows_read_back_what_was_written() {
    let mut t = sample_tower(2, "3号塔", 77, 1_700_000_000);
    t.status = TowerStatus::Shutdown;
    let row = tower_row(&t);
    assert_eq!(row.status, "shutdown");
    assert_eq!(row.latitude, t.location.latitude);
    let back = tower_from_row(row);
    assert_eq!(back.id, t.id);
    assert_eq!(back.name, "3号塔");
    assert_eq!(back.code, t.code);
    assert_eq!(back.status, TowerStatus::Shutdown);
    assert_eq!(back.location.elevation_meters, t.location.elevation_meters);
    assert_eq!(back.position_in_line, t.position_in_line);
    assert!(back.sensors.is_empty());

    let v = VibrationData {
        id: 1, tower_id: 2, sensor_id: 3, timestamp: 4, frequency_hz: 250, amplitude_mm_s: 15,
        velocity_mm_s: 150, acceleration_mm_s2: 1500, displacement_mm: 8, direction: Some(9000),
        temperature: None, quality: ReadingQuality::Suspect, raw_spectrum: Some(vec![10, 50]),
    };
    let vr = vibration_row(&v);
    assert_eq!(vr.quality, "suspect");
    let v2 = vibration_from_row(vr);
    assert_eq!(v2.quality, ReadingQuality::Suspect);
    assert_eq!(v2.velocity_mm_s, 150);
    assert_eq!(v2.direction, Some(9000));
    assert!(v2.raw_spectrum.is_none());

    let w = WindSpeedData {
        id: 5, tower_id: 6, sensor_id: 7, timestamp: 8, wind_speed_ms: 1234, wind_direction_deg: 27000,
        gust_speed_ms: Some(1851), temperature: Some(-150), quality: ReadingQuality::Missing,
    };
    let w2 = wind_speed_from_row(wind_speed_row(&w));
    assert_eq!(w2.quality, ReadingQuality::Missing);
    assert_eq!(w2.wind_speed_ms, 1234);
    assert_eq!(w2.gust_speed_ms, Some(1851));
    assert_eq!(w2.temperature, Some(-150));
}
