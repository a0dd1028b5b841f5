use cableway_monitor::models::ice_detection::PrecipitationType;
use cableway_monitor::models::tower::{RiskLevel, TowerStatus};
use cableway_monitor::models::weather;
use cableway_monitor::services::data_collection::{simulate_sensor_readings, simulated_ice_thickness};
use cableway_monitor::services::data_init::sample_tower;

#[test]
fn simulated_readings_follow_their_baselines() {
    let tower = sample_tower(0, "一号塔架", 5, 1_700_000_000);
    for round in 0..200 {
        let hour = (round % 24) as u32;
        let (v, w, ice, wx, status) = simulate_sensor_readings(&tower, 42, 1_700_000_000, hour, 150, 1000, -300);
        assert_eq!(v.sensor_id, 42);
        assert_eq!(v.tower_id, tower.id);
        assert!((120..180).contains(&v.velocity_mm_s));
        assert!((230..270).contains(&v.frequency_hz));
        assert_eq!(v.amplitude_mm_s, v.velocity_mm_s / 10);
        assert_eq!(v.acceleration_mm_s2, v.velocity_mm_s * 10);
        assert_eq!(v.displacement_mm, v.velocity_mm_s / 20);
        assert_eq!(v.raw_spectrum, Some(vec![10, 50, 120, 80, 30]));

        assert!((800..1200).contains(&w.wind_speed_ms));
        assert_eq!(w.gust_speed_ms, Some(w.wind_speed_ms * 3 / 2));
        assert!((0..36000).contains(&w.wind_direction_deg));

        assert!((-400..-200).contains(&ice.ambient_temp_c));
        let humidity = ice.humidity_percent.unwrap();
        assert!((7500..9500).contains(&humidity));
        let base = simulated_ice_thickness(ice.ambient_temp_c, humidity, 0);
        assert!(ice.ice_thickness_mm >= 0 && ice.ice_thickness_mm <= base + 100);
        assert_eq!(ice.ice_density_kg_m3.is_some(), ice.ice_thickness_mm > 0);
        assert_eq!(ice.wind_speed_ms, Some(w.wind_speed_ms));
        if humidity > 9000 {
            assert_eq!(ice.precipitation_type, Some(PrecipitationType::Snow));
        }

        assert_eq!(wx.temperature_c, ice.ambient_temp_c);
        assert_eq!(wx.humidity_percent, humidity);
        assert_eq!(wx.precipitation_type, weather::PrecipitationType::Snow);
        assert_eq!(wx.dew_point_c, Some(ice.ambient_temp_c - 200));
        assert_eq!(wx.wind_chill_c, Some(ice.ambient_temp_c - w.wind_speed_ms / 2));
        assert_eq!(wx.visibility_m, Some(1_000_000 - ice.ice_thickness_mm * 50));
        assert_eq!(wx.wind_gust_ms, w.gust_speed_ms);
        if hour <= 6 || hour >= 18 {
            assert_eq!(wx.solar_radiation_w_m2, Some(0));
        }
        if ice.ice_thickness_mm == 0 {
            assert_eq!(wx.precipitation_mm, Some(0));
        }

        assert_eq!(status.vibration_level, v.velocity_mm_s);
        assert_eq!(status.ice_thickness, ice.ice_thickness_mm);
        assert_eq!(status.status, TowerStatus::Operational);
    }
}

#[test]
fn simulated_readings_never_go_below_zero_and_can_be_critical() {
    let tower = sample_tower(1, "二号塔架", 5, 1_700_000_000);
    let (v, w, _, _, _) = simulate_sensor_readings(&tower, 1, 0, 12, -1000, -5000, 500);
    assert_eq!(v.velocity_mm_s, 0);
    assert_eq!(w.wind_speed_ms, 0);
    assert_eq!(w.gust_speed_ms, Some(0));
    let (_, _, _, _, status) = simulate_sensor_readings(&tower, 1, 0, 12, 900, 3000, -5000);
    assert_eq!(status.risk_level, RiskLevel::Critical);
    assert_eq!(status.status, TowerStatus::Warning);
}
