use vstd::prelude::*;

verus! {

/// A stored wind reading: speeds in hundredths of m/s, direction in hundredths
/// of a degree, temperature in hundredths of a degree Celsius.
#[derive(Debug, Clone)]
pub struct WindSpeedData {
    pub id: u128,
    pub tower_id: u128,
    pub sensor_id: u128,
    pub timestamp: i64,
    pub wind_speed_ms: i64,
    pub wind_direction_deg: i64,
    pub gust_speed_ms: Option<i64>,
    pub temperature: Option<i64>,
    pub quality: super::sensor::ReadingQuality,
}

/// An incoming wind reading, in the units of `WindSpeedData`.
#[derive(Debug, Clone)]
pub struct WindSpeedReading {
    pub sensor_id: u128,
    pub tower_id: u128,
    pub timestamp: i64,
    pub wind_speed_ms: i64,
    pub wind_direction_deg: i64,
    pub gust_speed_ms: Option<i64>,
    pub temperature: Option<i64>,
}

#[derive(Debug, Clone)]
pub struct WindAnalysisResult {
    pub tower_id: u128,
    pub analysis_time: i64,
    pub time_window_start: i64,
    pub time_window_end: i64,
    pub avg_speed: i64,
    pub max_speed: i64,
    pub min_speed: i64,
    pub std_speed: i64,
    pub avg_direction: i64,
    pub direction_variance: i64,
    pub max_gust: i64,
    pub wind_load_factor: i64,
    pub risk_assessment: WindRiskLevel,
    pub sustained_high_speed_duration_min: Option<i64>,
}

#[derive(Debug, Clone, Copy, PartialEq, Eq, Structural)]
pub enum WindRiskLevel {
    Low,
    Moderate,
    High,
    Extreme,
}

impl Default for WindRiskLevel {
    fn default() -> (r: Self)
        ensures
            r == WindRiskLevel::Low,
    {
        WindRiskLevel::Low
    }
}

/// A force of the Beaufort scale; the speeds bounding it are in hundredths of m/s.
#[derive(Debug, Clone)]
pub struct BeaufortScale {
    pub force: u8,
    pub name: String,
    pub min_speed_ms: i64,
    pub max_speed_ms: i64,
    pub description: String,
    pub impact_on_cableway: String,
}

} // verus!

verus! {

/// The force of the Beaufort scale for a wind speed in hundredths of m/s.
pub open spec fn beaufort_force(speed: int) -> int {
    if speed < 30 {
        0
    } else if speed < 160 {
        1
    } else if speed < 340 {
        2
    } else if speed < 550 {
        3
    } else if speed < 800 {
        4
    } else if speed < 1080 {
        5
    } else if speed < 1390 {
        6
    } else if speed < 1720 {
        7
    } else if speed < 2080 {
        8
    } else if speed < 2450 {
        9
    } else if speed < 2850 {
        10
    } else if speed < 3270 {
        11
    } else {
        12
    }
}

/// The name, speed bounds (hundredths of m/s), description and impact on the
/// cableway of each force.
pub open spec fn beaufort_row(force: int) -> (Seq<char>, int, int, Seq<char>, Seq<char>) {
    if force == 0 {
        ("Calm"@, 0, 20, "无风"@, "正常运行"@)
    } else if force == 1 {
        ("Light air"@, 30, 150, "软风"@, "正常运行"@)
    } else if force == 2 {
        ("Light breeze"@, 160, 330, "轻风"@, "正常运行"@)
    } else if force == 3 {
        ("Gentle breeze"@, 340, 540, "微风"@, "正常运行"@)
    } else if force == 4 {
        ("Moderate breeze"@, 550, 790, "和风"@, "正常运行，注意观察"@)
    } else if force == 5 {
        ("Fresh breeze"@, 800, 1070, "清劲风"@, "正常运行，加强监测"@)
    } else if force == 6 {
        ("Strong breeze"@, 1080, 1380, "强风"@, "降低速度运行"@)
    } else if force == 7 {
        ("Near gale"@, 1390, 1710, "疾风"@, "准备停运"@)
    } else if force == 8 {
        ("Gale"@, 1720, 2070, "大风"@, "建议停运"@)
    } else if force == 9 {
        ("Strong gale"@, 2080, 2440, "烈风"@, "必须停运"@)
    } else if force == 10 {
        ("Storm"@, 2450, 2840, "狂风"@, "停运，紧急加固措施"@)
    } else if force == 11 {
        ("Violent storm"@, 2850, 3260, "暴风"@, "停运，应急响应"@)
    } else {
        ("Hurricane"@, 3270, 10000, "飓风"@, "停运，紧急疏散"@)
    }
}

/// Whether an entry is the row of its force.
pub open spec fn beaufort_matches(b: BeaufortScale, force: int) -> bool {
    let row = beaufort_row(force);
    &&& b.force as int == force
    &&& b.name@ == row.0
    &&& b.min_speed_ms as int == row.1
    &&& b.max_speed_ms as int == row.2
    &&& b.description@ == row.3
    &&& b.impact_on_cableway@ == row.4
}

fn beaufort_entry(force: u8, name: &str, min: i64, max: i64, description: &str, impact: &str) -> (b: BeaufortScale)
    ensures
        b.force == force,
        b.name@ == name@,
        b.min_speed_ms == min,
        b.max_speed_ms == max,
        b.description@ == description@,
        b.impact_on_cableway@ == impact@,
{
    BeaufortScale {
        force,
        name: String::from_str(name),
        min_speed_ms: min,
        max_speed_ms: max,
        description: String::from_str(description),
        impact_on_cableway: String::from_str(impact),
    }
}

/// The Beaufort force of a wind speed (hundredths of m/s), with its bounds and
/// what it means for the cableway.
pub fn beaufort_scale(speed_ms: i64) -> (r: BeaufortScale)
    ensures
        beaufort_matches(r, beaufort_force(speed_ms as int)),
{
    if speed_ms < 30 {
        beaufort_entry(0, "Calm", 0, 20, "无风", "正常运行")
    } else if speed_ms < 160 {
        beaufort_entry(1, "Light air", 30, 150, "软风", "正常运行")
    } else if speed_ms < 340 {
        beaufort_entry(2, "Light breeze", 160, 330, "轻风", "正常运行")
    } else if speed_ms < 550 {
        beaufort_entry(3, "Gentle breeze", 340, 540, "微风", "正常运行")
    } else if speed_ms < 800 {
        beaufort_entry(4, "Moderate breeze", 550, 790, "和风", "正常运行，注意观察")
    } else if speed_ms < 1080 {
        beaufort_entry(5, "Fresh breeze", 800, 1070, "清劲风", "正常运行，加强监测")
    } else if speed_ms < 1390 {
        beaufort_entry(6, "Strong breeze", 1080, 1380, "强风", "降低速度运行")
    } else if speed_ms < 1720 {
        beaufort_entry(7, "Near gale", 1390, 1710, "疾风", "准备停运")
    } else if speed_ms < 2080 {
        beaufort_entry(8, "Gale", 1720, 2070, "大风", "建议停运")
    } else if speed_ms < 2450 {
        beaufort_entry(9, "Strong gale", 2080, 2440, "烈风", "必须停运")
    } else if speed_ms < 2850 {
        beaufort_entry(10, "Storm", 2450, 2840, "狂风", "停运，紧急加固措施")
    } else if speed_ms < 3270 {
        beaufort_entry(11, "Violent storm", 2850, 3260, "暴风", "停运，应急响应")
    } else {
        beaufort_entry(12, "Hurricane", 3270, 10000, "飓风", "停运，紧急疏散")
    }
}

/// The Beaufort scale: force 0 below 0.3 m/s, 1 from 0.3, 2 from 1.6, 3 from
/// 3.4, 4 from 5.5, 5 from 8.0, 6 from 10.8, 7 from 13.9, 8 from 17.2, 9 from
/// 20.8, 10 from 24.5, 11 from 28.5, 12 from 32.7 m/s, each up to the next
/// force's lower bound.
pub proof fn lemma_beaufort_table(speed: int)
    ensures
        speed < 30 ==> beaufort_force(speed) == 0,
        30 <= speed < 160 ==> beaufort_force(speed) == 1,
        160 <= speed < 340 ==> beaufort_force(speed) == 2,
        340 <= speed < 550 ==> beaufort_force(speed) == 3,
        550 <= speed < 800 ==> beaufort_force(speed) == 4,
        800 <= speed < 1080 ==> beaufort_force(speed) == 5,
        1080 <= speed < 1390 ==> beaufort_force(speed) == 6,
        1390 <= speed < 1720 ==> beaufort_force(speed) == 7,
        1720 <= speed < 2080 ==> beaufort_force(speed) == 8,
        2080 <= speed < 2450 ==> beaufort_force(speed) == 9,
        2450 <= speed < 2850 ==> beaufort_force(speed) == 10,
        2850 <= speed < 3270 ==> beaufort_force(speed) == 11,
        3270 <= speed ==> beaufort_force(speed) == 12,
{
}

/// A stronger wind never has a lower force, and a speed of 0 or more lies
/// within the bounds of its force (below the next force's lower bound).
pub proof fn lemma_beaufort_consistent(s1: int, s2: int)
    requires
        0 <= s1 <= s2,
    ensures
        beaufort_force(s1) <= beaufort_force(s2),
        0 <= beaufort_force(s1) <= 12,
        beaufort_row(beaufort_force(s1)).1 <= s1,
        beaufort_force(s1) < 12 ==> s1 < beaufort_row(beaufort_force(s1)).2 + 10,
{
}

} // verus!
