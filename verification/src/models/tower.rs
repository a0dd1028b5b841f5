use vstd::prelude::*;

verus! {

/// A tower of the cableway. Lengths are in hundredths of a metre, the load
/// in hundredths of a kilogram, times are Unix seconds.
#[derive(Debug, Clone)]
pub struct Tower {
    pub id: u128,
    pub name: String,
    pub code: String,
    pub location: Location,
    pub height_meters: i64,
    pub construction_date: Option<i64>,
    pub status: TowerStatus,
    pub cable_line_id: u128,
    pub position_in_line: u32,
    pub max_load_kg: i64,
    pub last_inspection_date: Option<i64>,
    pub created_at: i64,
    pub updated_at: i64,
    pub sensors: Vec<SensorMount>,
}

/// A position. Latitude and longitude are in millionths of a degree, the
/// elevation in hundredths of a metre.
#[derive(Debug, Clone)]
pub struct Location {
    pub latitude: i64,
    pub longitude: i64,
    pub elevation_meters: i64,
    pub description: Option<String>,
}

#[derive(Debug, Clone, Copy, PartialEq, Eq, Structural)]
pub enum TowerStatus {
    Operational,
    Warning,
    Shutdown,
    Maintenance,
    Decommissioned,
}

/// A sensor mounted on a tower; the height is in hundredths of a metre and the
/// direction in hundredths of a degree.
#[derive(Debug, Clone)]
pub struct SensorMount {
    pub sensor_id: u128,
    pub mount_position: String,
    pub mount_height_meters: i64,
    pub direction: Option<i64>,
    pub installed_at: i64,
}

#[derive(Debug, Clone)]
pub struct CreateTowerRequest {
    pub name: String,
    pub code: String,
    pub location: Location,
    pub height_meters: i64,
    pub construction_date: Option<i64>,
    pub cable_line_id: u128,
    pub position_in_line: u32,
    pub max_load_kg: i64,
}

#[derive(Debug, Clone)]
pub struct UpdateTowerRequest {
    pub name: Option<String>,
    pub status: Option<TowerStatus>,
    pub last_inspection_date: Option<i64>,
}

/// The current state of a tower; vibration in hundredths of mm/s, wind in
/// hundredths of m/s, ice in hundredths of a millimetre.
#[derive(Debug, Clone)]
pub struct TowerStatusResponse {
    pub tower_id: u128,
    pub tower_name: String,
    pub status: TowerStatus,
    pub vibration_level: i64,
    pub wind_speed: i64,
    pub ice_thickness: i64,
    pub risk_level: RiskLevel,
    pub last_update: i64,
}

/// Risk of a tower. The order is that of the variants.
#[derive(Debug, Clone, Copy, PartialEq, Eq, Structural, PartialOrd, Ord)]
pub enum RiskLevel {
    NoRisk,
    Low,
    Medium,
    High,
    Critical,
}

impl RiskLevel {
    /// Position in declaration order, the order that the derived `Ord` follows.
    pub open spec fn spec_rank(self) -> int {
        match self {
            RiskLevel::NoRisk => 0,
            RiskLevel::Low => 1,
            RiskLevel::Medium => 2,
            RiskLevel::High => 3,
            RiskLevel::Critical => 4,
        }
    }

    /// Position in declaration order.
    pub fn rank(&self) -> (r: u8)
        ensures
            r == self.spec_rank(),
    {
        match self {
            RiskLevel::NoRisk => 0,
            RiskLevel::Low => 1,
            RiskLevel::Medium => 2,
            RiskLevel::High => 3,
            RiskLevel::Critical => 4,
        }
    }
}

impl Default for RiskLevel {
    fn default() -> (r: Self)
        ensures
            r == RiskLevel::NoRisk,
    {
        RiskLevel::NoRisk
    }
}

#[derive(Debug, Clone)]
pub struct TowerListQuery {
    pub cable_line_id: Option<u128>,
    pub status: Option<TowerStatus>,
    pub page: Option<u32>,
    pub page_size: Option<u32>,
}

} // verus!
