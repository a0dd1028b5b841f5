//! Shutdown evaluation: the score of ice, wind and vibration, the decision it
//! leads to, the conditions that triggered it, the steps to take, and the plan
//! for restarting.
//!
//! Readings are in hundredths: ice in mm, wind in m/s, vibration in mm/s.
use vstd::prelude::*;
use crate::models::shutdown_strategy::{
    ShutdownType, UrgencyLevel, RiskLevel, TriggerCondition, ConditionType, ConditionOperator, ActionStep,
    RestartPlan, RestartCheck, RestartStatus, ShutdownStrategy, StrategyStatus, StrategySeverity, ShutdownLog,
    WeatherConditions,
};
use crate::models::ice_detection::IceDetectionData;
use crate::models::vibration::VibrationData;
use crate::models::wind_speed::WindSpeedData;
use crate::readings::{seq_max0, ice_thickness_series, velocity_series, wind_speed_series, ice_thicknesses, velocities, wind_speeds, max_of};
use crate::text::{fixed_text, append_fixed};
use crate::ids::new_uuid;

verus! {

/// Points of the ice thickness: above 15 mm 40, above 10 mm 30, above 5 mm 15.
pub open spec fn shutdown_ice_points(ice: int) -> int {
    if ice > 1500 { 40 } else if ice > 1000 { 30 } else if ice > 500 { 15 } else { 0 }
}

/// Points of the wind speed: above 25 m/s 35, above 20 m/s 25, above 15 m/s 15.
pub open spec fn shutdown_wind_points(wind: int) -> int {
    if wind > 2500 { 35 } else if wind > 2000 { 25 } else if wind > 1500 { 15 } else { 0 }
}

/// Points of the vibration: above 5 mm/s 25, above 3 mm/s 15, above 2 mm/s 8.
pub open spec fn shutdown_vibration_points(vibration: int) -> int {
    if vibration > 500 { 25 } else if vibration > 300 { 15 } else if vibration > 200 { 8 } else { 0 }
}

/// The shutdown score, from 0 to 100 points.
pub open spec fn shutdown_score(ice: int, wind: int, vibration: int) -> int {
    shutdown_ice_points(ice) + shutdown_wind_points(wind) + shutdown_vibration_points(vibration)
}

/// The decision for a score: from 80 an emergency shutdown now; from 60 a
/// preemptive shutdown with high urgency; from 40 a preemptive shutdown with
/// medium urgency; from 20 no shutdown yet, with low urgency (a shutdown on
/// conditions); below, none.
pub open spec fn shutdown_decision(score: int) -> (Option<ShutdownType>, UrgencyLevel, RiskLevel) {
    if score >= 80 {
        (Some(ShutdownType::Emergency), UrgencyLevel::Immediate, RiskLevel::Critical)
    } else if score >= 60 {
        (Some(ShutdownType::Preemptive), UrgencyLevel::High, RiskLevel::High)
    } else if score >= 40 {
        (Some(ShutdownType::Preemptive), UrgencyLevel::Medium, RiskLevel::Medium)
    } else if score >= 20 {
        (None, UrgencyLevel::Low, RiskLevel::Low)
    } else {
        (None, UrgencyLevel::NoUrgency, RiskLevel::NoRisk)
    }
}

/// Decides on a shutdown from the maximum ice thickness, wind speed and
/// vibration: the type of shutdown (none while only conditions are to be
/// watched), its urgency and the risk.
pub fn determine_shutdown_type(ice_thickness: i64, wind_speed: i64, vibration: i64)
    -> (r: (Option<ShutdownType>, UrgencyLevel, RiskLevel))
    ensures
        r == shutdown_decision(shutdown_score(ice_thickness as int, wind_speed as int, vibration as int)),
{
    let mut score: u32 = 0;

    if ice_thickness > 1500 { score += 40; }
    else if ice_thickness > 1000 { score += 30; }
    else if ice_thickness > 500 { score += 15; }

    if wind_speed > 2500 { score += 35; }
    else if wind_speed > 2000 { score += 25; }
    else if wind_speed > 1500 { score += 15; }

    if vibration > 500 { score += 25; }
    else if vibration > 300 { score += 15; }
    else if vibration > 200 { score += 8; }

    if score >= 80 {
        (Some(ShutdownType::Emergency), UrgencyLevel::Immediate, RiskLevel::Critical)
    } else if score >= 60 {
        (Some(ShutdownType::Preemptive), UrgencyLevel::High, RiskLevel::High)
    } else if score >= 40 {
        (Some(ShutdownType::Preemptive), UrgencyLevel::Medium, RiskLevel::Medium)
    } else if score >= 20 {
        (None, UrgencyLevel::Low, RiskLevel::Low)
    } else {
        (None, UrgencyLevel::NoUrgency, RiskLevel::NoRisk)
    }
}

/// Each maximum adds its own points to the shutdown score: with no other
/// reading, ice above 5, 10 and 15 mm scores 15, 30 and 40 points; wind above
/// 15, 20 and 25 m/s 15, 25 and 35; vibration above 2, 3 and 5 mm/s 8, 15 and
/// 25; nothing scores 0, and the score of all three is the sum of the scores
/// of each. So the worst readings score exactly 100.
pub proof fn lemma_shutdown_score_table(ice: int, wind: int, vibration: int)
    ensures
        shutdown_score(0, 0, 0) == 0,
        shutdown_score(ice, wind, vibration)
            == shutdown_score(ice, 0, 0) + shutdown_score(0, wind, 0) + shutdown_score(0, 0, vibration),
        ice <= 500 ==> shutdown_score(ice, 0, 0) == 0,
        500 < ice <= 1000 ==> shutdown_score(ice, 0, 0) == 15,
        1000 < ice <= 1500 ==> shutdown_score(ice, 0, 0) == 30,
        1500 < ice ==> shutdown_score(ice, 0, 0) == 40,
        wind <= 1500 ==> shutdown_score(0, wind, 0) == 0,
        1500 < wind <= 2000 ==> shutdown_score(0, wind, 0) == 15,
        2000 < wind <= 2500 ==> shutdown_score(0, wind, 0) == 25,
        2500 < wind ==> shutdown_score(0, wind, 0) == 35,
        vibration <= 200 ==> shutdown_score(0, 0, vibration) == 0,
        200 < vibration <= 300 ==> shutdown_score(0, 0, vibration) == 8,
        300 < vibration <= 500 ==> shutdown_score(0, 0, vibration) == 15,
        500 < vibration ==> shutdown_score(0, 0, vibration) == 25,
        1500 < ice && 2500 < wind && 500 < vibration ==> shutdown_score(ice, wind, vibration) == 100,
{
}

/// The decisions by score: from 80 points an emergency shutdown, immediate,
/// of critical risk; from 60 below 80 a preemptive one of high urgency and
/// risk; from 40 below 60 a preemptive one of medium urgency and risk; from
/// 20 below 40 no shutdown, of low urgency and risk; below 20 none, without
/// urgency or risk.
pub proof fn lemma_shutdown_decision_bands(score: int)
    ensures
        score >= 80 ==> shutdown_decision(score) == (Some(ShutdownType::Emergency), UrgencyLevel::Immediate, RiskLevel::Critical),
        60 <= score < 80 ==> shutdown_decision(score) == (Some(ShutdownType::Preemptive), UrgencyLevel::High, RiskLevel::High),
        40 <= score < 60 ==> shutdown_decision(score) == (Some(ShutdownType::Preemptive), UrgencyLevel::Medium, RiskLevel::Medium),
        20 <= score < 40 ==> shutdown_decision(score) == (None::<ShutdownType>, UrgencyLevel::Low, RiskLevel::Low),
        score < 20 ==> shutdown_decision(score) == (None::<ShutdownType>, UrgencyLevel::NoUrgency, RiskLevel::NoRisk),
{
}

/// Worse readings never make a shutdown less urgent or the risk lower, and the
/// urgency always goes with the risk of the same rank.
pub proof fn lemma_shutdown_decision_monotone(
    ice1: int, wind1: int, vib1: int,
    ice2: int, wind2: int, vib2: int,
)
    requires
        ice1 <= ice2,
        wind1 <= wind2,
        vib1 <= vib2,
    ensures
        shutdown_decision(shutdown_score(ice1, wind1, vib1)).1.spec_rank()
            <= shutdown_decision(shutdown_score(ice2, wind2, vib2)).1.spec_rank(),
        shutdown_decision(shutdown_score(ice1, wind1, vib1)).2.spec_rank()
            <= shutdown_decision(shutdown_score(ice2, wind2, vib2)).2.spec_rank(),
        shutdown_decision(shutdown_score(ice1, wind1, vib1)).1.spec_rank()
            == shutdown_decision(shutdown_score(ice1, wind1, vib1)).2.spec_rank(),
{
}

/// A shutdown is recommended exactly from a score of 40 on, and an emergency
/// one exactly from 80 on.
pub proof fn lemma_shutdown_recommended_iff(ice: int, wind: int, vibration: int)
    ensures
        shutdown_decision(shutdown_score(ice, wind, vibration)).0.is_some()
            <==> shutdown_score(ice, wind, vibration) >= 40,
        shutdown_decision(shutdown_score(ice, wind, vibration)).0 == Some(ShutdownType::Emergency)
            <==> shutdown_score(ice, wind, vibration) >= 80,
{
}

} // verus!

verus! {

/// A trigger condition as plain values, without its identifier.
pub open spec fn condition_view(c: TriggerCondition)
    -> (ConditionType, Seq<char>, ConditionOperator, int, Seq<char>, Option<i64>, Seq<char>)
{
    (c.condition_type, c.metric@, c.operator, c.threshold as int, c.unit@, c.duration_minutes, c.description@)
}

/// The description of a condition: the current value to one decimal place
/// with its unit, and whether it has reached the threshold.
pub open spec fn condition_text(value: int, unit: Seq<char>, reached: bool) -> Seq<char> {
    "当前值"@ + fixed_text(value, 1) + unit + if reached { "，已达阈值"@ } else { "，未达阈值"@ }
}

/// The condition on one reading, compared with `>=` against its threshold.
pub open spec fn condition_for(kind: ConditionType, metric: Seq<char>, threshold: int, value: int, unit: Seq<char>)
    -> (ConditionType, Seq<char>, ConditionOperator, int, Seq<char>, Option<i64>, Seq<char>)
{
    (kind, metric, ConditionOperator::GreaterThanOrEqual, threshold, unit, None, condition_text(value, unit, value >= threshold))
}

/// The conditions watched: the ice above 5 mm against 10 mm, the wind above
/// 10 m/s against 20 m/s, the vibration above 2 mm/s against 3 mm/s.
pub open spec fn trigger_conditions_for(ice: int, wind: int, vibration: int)
    -> Seq<(ConditionType, Seq<char>, ConditionOperator, int, Seq<char>, Option<i64>, Seq<char>)>
{
    let s0: Seq<(ConditionType, Seq<char>, ConditionOperator, int, Seq<char>, Option<i64>, Seq<char>)> = Seq::empty();
    let s1 = if ice > 500 {
        s0.push(condition_for(ConditionType::IceThickness, "ice_thickness_mm"@, 1000, ice, "mm"@))
    } else { s0 };
    let s2 = if wind > 1000 {
        s1.push(condition_for(ConditionType::WindSpeed, "wind_speed_ms"@, 2000, wind, "m/s"@))
    } else { s1 };
    if vibration > 200 {
        s2.push(condition_for(ConditionType::VibrationVelocity, "velocity_mm_s"@, 300, vibration, "mm/s"@))
    } else { s2 }
}

fn push_condition(
    v: &mut Vec<TriggerCondition>, kind: ConditionType, metric: &str, threshold: i64, value: i64, unit: &str,
)
    ensures
        final(v)@.map_values(|c: TriggerCondition| condition_view(c)) == old(v)@.map_values(
            |c: TriggerCondition| condition_view(c),
        ).push(condition_for(kind, metric@, threshold as int, value as int, unit@)),
{
    let mut description = String::from_str("当前值");
    append_fixed(&mut description, value, 1);
    description.append(unit);
    if value >= threshold {
        description.append("，已达阈值");
    } else {
        description.append("，未达阈值");
    }
    let ghost before = v@;
    v.push(TriggerCondition {
        id: new_uuid(),
        condition_type: kind,
        metric: String::from_str(metric),
        operator: ConditionOperator::GreaterThanOrEqual,
        threshold,
        unit: String::from_str(unit),
        duration_minutes: None,
        description,
    });
    assert(v@.map_values(|c: TriggerCondition| condition_view(c)) =~= before.map_values(
        |c: TriggerCondition| condition_view(c),
    ).push(condition_for(kind, metric@, threshold as int, value as int, unit@)));
}

/// Lists the conditions that a shutdown is judged on, with the current values.
pub fn generate_trigger_conditions(ice_thickness: i64, wind_speed: i64, vibration: i64)
    -> (r: Vec<TriggerCondition>)
    ensures
        r@.map_values(|c: TriggerCondition| condition_view(c))
            == trigger_conditions_for(ice_thickness as int, wind_speed as int, vibration as int),
{
    let mut conditions: Vec<TriggerCondition> = Vec::new();
    assert(conditions@.map_values(|c: TriggerCondition| condition_view(c)) =~= Seq::empty());
    if ice_thickness > 500 {
        push_condition(&mut conditions, ConditionType::IceThickness, "ice_thickness_mm", 1000, ice_thickness, "mm");
    }
    if wind_speed > 1000 {
        push_condition(&mut conditions, ConditionType::WindSpeed, "wind_speed_ms", 2000, wind_speed, "m/s");
    }
    if vibration > 200 {
        push_condition(&mut conditions, ConditionType::VibrationVelocity, "velocity_mm_s", 300, vibration, "mm/s");
    }
    conditions
}

} // verus!

verus! {

/// A step as plain values, without its identifier: number, action, role,
/// minutes, whether it is critical, prerequisites and completion criteria.
pub open spec fn step_view(s: ActionStep) -> (int, Seq<char>, Seq<char>, int, bool, Seq<u128>, Seq<char>) {
    (s.step_number as int, s.action@, s.responsible_role@, s.estimated_duration_minutes as int, s.is_critical,
        s.prerequisites@, s.completion_criteria@)
}

/// A step with no prerequisites.
pub open spec fn step(n: int, action: Seq<char>, criteria: Seq<char>, role: Seq<char>, minutes: int, critical: bool)
    -> (int, Seq<char>, Seq<char>, int, bool, Seq<u128>, Seq<char>)
{
    (n, action, role, minutes, critical, Seq::empty(), criteria)
}

/// The steps for an urgency: stop at once, evacuate and cut the power when
/// immediate; prepare, bring the cars to a station and stop when high; watch
/// closely and prepare a plan when medium; carry on otherwise.
pub open spec fn action_steps_for(urgency: UrgencyLevel)
    -> Seq<(int, Seq<char>, Seq<char>, int, bool, Seq<u128>, Seq<char>)>
{
    match urgency {
        UrgencyLevel::Immediate => seq![
            step(1, "立即停止索道运行"@, "按下紧急停止按钮，停止所有轿厢运行"@, "操作员"@, 1, true),
            step(2, "疏散索道乘客"@, "通过广播安抚乘客，启动应急疏散程序"@, "安全员"@, 30, true),
            step(3, "关闭电源"@, "切断主电源，防止意外启动"@, "电工"@, 5, true),
        ],
        UrgencyLevel::High => seq![
            step(1, "做好停运准备"@, "通知所有岗位人员准备停运"@, "值班主任"@, 5, false),
            step(2, "将轿厢运行至就近车站"@, "低速运行，确保所有乘客安全下车"@, "操作员"@, 15, true),
            step(3, "停止索道运行"@, "确认所有乘客下车后，停止运行"@, "操作员"@, 2, true),
        ],
        UrgencyLevel::Medium => seq![
            step(1, "加强监控"@, "密切关注各参数变化，每5分钟报告一次"@, "监控员"@, 0, false),
            step(2, "准备停运预案"@, "制定详细的停运计划，等待进一步指令"@, "值班主任"@, 10, false),
        ],
        _ => seq![
            step(1, "正常运行"@, "继续正常运行，保持常规监控"@, "全体"@, 0, false),
        ],
    }
}

fn push_step(
    v: &mut Vec<ActionStep>, n: u32, action: &str, criteria: &str, role: &str, minutes: i64, critical: bool,
)
    ensures
        final(v)@.map_values(|s: ActionStep| step_view(s)) == old(v)@.map_values(|s: ActionStep| step_view(s)).push(
            step(n as int, action@, criteria@, role@, minutes as int, critical),
        ),
{
    let ghost before = v@;
    let prerequisites: Vec<u128> = Vec::new();
    v.push(ActionStep {
        id: new_uuid(),
        step_number: n,
        action: String::from_str(action),
        responsible_role: String::from_str(role),
        estimated_duration_minutes: minutes,
        is_critical: critical,
        prerequisites,
        completion_criteria: String::from_str(criteria),
    });
    assert(v@.map_values(|s: ActionStep| step_view(s)) =~= before.map_values(|s: ActionStep| step_view(s)).push(
        step(n as int, action@, criteria@, role@, minutes as int, critical),
    ));
}

/// The steps to take for a decision. They depend on the urgency alone; each
/// step's action is its title and its completion criteria its description.
pub fn generate_action_steps(shutdown_type: Option<ShutdownType>, urgency: UrgencyLevel) -> (r: Vec<ActionStep>)
    ensures
        r@.map_values(|s: ActionStep| step_view(s)) == action_steps_for(urgency),
{
    let mut steps: Vec<ActionStep> = Vec::new();
    assert(steps@.map_values(|s: ActionStep| step_view(s)) =~= Seq::empty());
    match urgency {
        UrgencyLevel::Immediate => {
            push_step(&mut steps, 1, "立即停止索道运行", "按下紧急停止按钮，停止所有轿厢运行", "操作员", 1, true);
            push_step(&mut steps, 2, "疏散索道乘客", "通过广播安抚乘客，启动应急疏散程序", "安全员", 30, true);
            push_step(&mut steps, 3, "关闭电源", "切断主电源，防止意外启动", "电工", 5, true);
        }
        UrgencyLevel::High => {
            push_step(&mut steps, 1, "做好停运准备", "通知所有岗位人员准备停运", "值班主任", 5, false);
            push_step(&mut steps, 2, "将轿厢运行至就近车站", "低速运行，确保所有乘客安全下车", "操作员", 15, true);
            push_step(&mut steps, 3, "停止索道运行", "确认所有乘客下车后，停止运行", "操作员", 2, true);
        }
        UrgencyLevel::Medium => {
            push_step(&mut steps, 1, "加强监控", "密切关注各参数变化，每5分钟报告一次", "监控员", 0, false);
            push_step(&mut steps, 2, "准备停运预案", "制定详细的停运计划，等待进一步指令", "值班主任", 10, false);
        }
        _ => {
            push_step(&mut steps, 1, "正常运行", "继续正常运行，保持常规监控", "全体", 0, false);
        }
    }
    assert(steps@.map_values(|s: ActionStep| step_view(s)) =~= action_steps_for(urgency));
    steps
}

/// Steps are numbered 1, 2, ... in order, and a stop is critical in every
/// urgent plan: each step of an immediate or high urgency after the first is
/// critical.
pub proof fn lemma_action_steps_numbered(urgency: UrgencyLevel)
    ensures
        forall|i: int| 0 <= i < action_steps_for(urgency).len() ==> #[trigger] action_steps_for(urgency)[i].0 == i + 1,
        action_steps_for(urgency).len() >= 1,
        (urgency == UrgencyLevel::Immediate || urgency == UrgencyLevel::High) ==> forall|i: int|
            1 <= i < action_steps_for(urgency).len() ==> #[trigger] action_steps_for(urgency)[i].4,
{
}

} // verus!

verus! {

/// Hours until a restart: 48 above 10 mm of ice, 24 above 5 mm, 12 above
/// 20 m/s of wind, 6 otherwise.
pub open spec fn restart_hours_for(ice: int, wind: int) -> int {
    if ice > 1000 { 48 } else if ice > 500 { 24 } else if wind > 2000 { 12 } else { 6 }
}

/// The first condition for a restart, which the readings decide.
pub open spec fn restart_condition_for(ice: int, wind: int) -> Seq<char> {
    if ice > 1000 {
        "覆冰厚度降低至5mm以下，风速降至15m/s以下"@
    } else if ice > 500 {
        "覆冰厚度降低至3mm以下，风速降至15m/s以下"@
    } else if wind > 2000 {
        "风速降至15m/s以下并保持2小时以上"@
    } else {
        "所有参数恢复至正常范围并保持1小时以上"@
    }
}

/// A check as plain values, without its identifier.
pub open spec fn check_view(c: RestartCheck) -> (Seq<char>, Seq<char>, bool, Option<u128>, Option<i64>, Option<String>) {
    (c.check_name@, c.description@, c.is_completed, c.completed_by, c.completed_at, c.notes)
}

/// An open check.
pub open spec fn open_check(name: Seq<char>, kind: Seq<char>)
    -> (Seq<char>, Seq<char>, bool, Option<u128>, Option<i64>, Option<String>)
{
    (name, kind, false, None, None, None)
}

/// The checks before a restart, all open: the conditions (the first decided
/// by the readings), then the checks before and the procedures after it.
pub open spec fn restart_checks_for(ice: int, wind: int)
    -> Seq<(Seq<char>, Seq<char>, bool, Option<u128>, Option<i64>, Option<String>)>
{
    seq![
        open_check(restart_condition_for(ice, wind), "重启条件"@),
        open_check("完成塔架及线路安全巡检"@, "重启条件"@),
        open_check("确认无结构损坏或异常"@, "重启条件"@),
        open_check("完成空载试运行"@, "重启条件"@),
        open_check("获得运营主管批准"@, "重启条件"@),
        open_check("检查所有塔架结构完整性"@, "重启前检查"@),
        open_check("检查线路张力是否正常"@, "重启前检查"@),
        open_check("检查所有传感器是否正常工作"@, "重启前检查"@),
        open_check("检查通信系统是否正常"@, "重启前检查"@),
        open_check("清理站台和相关设施"@, "重启前检查"@),
        open_check("空载试运行30分钟"@, "重启后程序"@),
        open_check("低速运行15分钟"@, "重启后程序"@),
        open_check("逐步恢复正常运行速度"@, "重启后程序"@),
        open_check("运行首趟载人列车后进行安全检查"@, "重启后程序"@),
    ]
}

fn push_check(v: &mut Vec<RestartCheck>, name: &str, kind: &str)
    ensures
        final(v)@.map_values(|c: RestartCheck| check_view(c)) == old(v)@.map_values(|c: RestartCheck| check_view(c)).push(
            open_check(name@, kind@),
        ),
{
    let ghost before = v@;
    v.push(RestartCheck {
        id: new_uuid(),
        check_name: String::from_str(name),
        description: String::from_str(kind),
        is_completed: false,
        completed_by: None,
        completed_at: None,
        notes: None,
    });
    assert(v@.map_values(|c: RestartCheck| check_view(c)) =~= before.map_values(|c: RestartCheck| check_view(c)).push(
        open_check(name@, kind@),
    ));
}

/// Plans the restart of a tower after a shutdown judged at `now`: planned for
/// the hours that the ice and wind call for, pending, with its open checks.
pub fn generate_restart_plan(ice_thickness: i64, wind_speed: i64, tower_id: u128, shutdown_log_id: u128, now: i64)
    -> (r: RestartPlan)
    requires
        now + 48 * 3600 <= i64::MAX,
    ensures
        r.required_checks@.map_values(|c: RestartCheck| check_view(c))
            == restart_checks_for(ice_thickness as int, wind_speed as int),
        r.planned_restart_time == now + restart_hours_for(ice_thickness as int, wind_speed as int) * 3600,
        r.tower_id == tower_id,
        r.shutdown_log_id == shutdown_log_id,
        r.status == RestartStatus::Pending,
        r.approved_by == None::<u128>,
        r.actual_restart_time == None::<i64>,
        r.created_at == now,
{
    let (hours, condition): (i64, &str) = if ice_thickness > 1000 {
        (48, "覆冰厚度降低至5mm以下，风速降至15m/s以下")
    } else if ice_thickness > 500 {
        (24, "覆冰厚度降低至3mm以下，风速降至15m/s以下")
    } else if wind_speed > 2000 {
        (12, "风速降至15m/s以下并保持2小时以上")
    } else {
        (6, "所有参数恢复至正常范围并保持1小时以上")
    };
    let mut checks: Vec<RestartCheck> = Vec::new();
    assert(checks@.map_values(|c: RestartCheck| check_view(c)) =~= Seq::empty());
    push_check(&mut checks, condition, "重启条件");
    push_check(&mut checks, "完成塔架及线路安全巡检", "重启条件");
    push_check(&mut checks, "确认无结构损坏或异常", "重启条件");
    push_check(&mut checks, "完成空载试运行", "重启条件");
    push_check(&mut checks, "获得运营主管批准", "重启条件");
    push_check(&mut checks, "检查所有塔架结构完整性", "重启前检查");
    push_check(&mut checks, "检查线路张力是否正常", "重启前检查");
    push_check(&mut checks, "检查所有传感器是否正常工作", "重启前检查");
    push_check(&mut checks, "检查通信系统是否正常", "重启前检查");
    push_check(&mut checks, "清理站台和相关设施", "重启前检查");
    push_check(&mut checks, "空载试运行30分钟", "重启后程序");
    push_check(&mut checks, "低速运行15分钟", "重启后程序");
    push_check(&mut checks, "逐步恢复正常运行速度", "重启后程序");
    push_check(&mut checks, "运行首趟载人列车后进行安全检查", "重启后程序");
    assert(checks@.map_values(|c: RestartCheck| check_view(c)) =~= restart_checks_for(ice_thickness as int, wind_speed as int));
    RestartPlan {
        id: new_uuid(),
        shutdown_log_id,
        tower_id,
        planned_restart_time: now + hours * 3600,
        required_checks: checks,
        status: RestartStatus::Pending,
        approved_by: None,
        actual_restart_time: None,
        created_at: now,
    }
}

/// The wait before a restart: 48 hours after more than 10 mm of ice, 24
/// after more than 5 mm, otherwise 12 after wind above 20 m/s and 6 after
/// anything milder.
pub proof fn lemma_restart_hours_table(ice: int, wind: int)
    ensures
        ice > 1000 ==> restart_hours_for(ice, wind) == 48,
        500 < ice <= 1000 ==> restart_hours_for(ice, wind) == 24,
        ice <= 500 && wind > 2000 ==> restart_hours_for(ice, wind) == 12,
        ice <= 500 && wind <= 2000 ==> restart_hours_for(ice, wind) == 6,
{
}

/// More ice or wind never brings a restart sooner.
pub proof fn lemma_restart_hours_monotone(ice1: int, wind1: int, ice2: int, wind2: int)
    requires
        ice1 <= ice2,
        wind1 <= wind2,
    ensures
        restart_hours_for(ice1, wind1) <= restart_hours_for(ice2, wind2),
{
}

} // verus!

verus! {

/// The name of a strategy, after the kind of decision: emergency, preventive
/// (a preemptive shutdown), conditional (no shutdown yet) or none.
pub open spec fn strategy_name_for(urgency: UrgencyLevel) -> Seq<char> {
    match urgency {
        UrgencyLevel::Immediate => "Emergency停运策略"@,
        UrgencyLevel::High => "Preventive停运策略"@,
        UrgencyLevel::Medium => "Preventive停运策略"@,
        UrgencyLevel::Low => "Conditional停运策略"@,
        UrgencyLevel::NoUrgency => "None停运策略"@,
    }
}

/// The severity of a strategy for a risk, rank for rank.
pub open spec fn severity_for(risk: RiskLevel) -> StrategySeverity {
    match risk {
        RiskLevel::NoRisk => StrategySeverity::Advisory,
        RiskLevel::Low => StrategySeverity::Watch,
        RiskLevel::Medium => StrategySeverity::Warning,
        RiskLevel::High => StrategySeverity::Severe,
        RiskLevel::Critical => StrategySeverity::Extreme,
    }
}

/// Minutes a shutdown is expected to take: 120 when immediate, 60 when high,
/// 30 otherwise.
pub open spec fn shutdown_minutes_for(urgency: UrgencyLevel) -> int {
    if urgency == UrgencyLevel::Immediate { 120 } else if urgency == UrgencyLevel::High { 60 } else { 30 }
}

/// The description of a strategy: the readings it was judged on.
pub open spec fn strategy_text(ice: int, wind: int, vibration: int) -> Seq<char> {
    "基于覆冰"@ + fixed_text(ice, 1) + "mm、风速"@ + fixed_text(wind, 1) + "m/s、振动"@ + fixed_text(vibration, 1)
        + "mm/s的停运评估"@
}

/// What a strategy judged on maxima of ice, wind and vibration holds.
pub open spec fn strategy_matches(s: ShutdownStrategy, tower_id: u128, alert_id: u128, now: int, ice: int, wind: int, vibration: int) -> bool {
    let d = shutdown_decision(shutdown_score(ice, wind, vibration));
    &&& s.tower_id == tower_id
    &&& s.strategy_type == d.0
    &&& s.status == StrategyStatus::PendingApproval
    &&& s.severity == severity_for(d.2)
    &&& s.title@ == strategy_name_for(d.1)
    &&& s.description@ == strategy_text(ice, wind, vibration)
    &&& s.trigger_conditions@.map_values(|c: TriggerCondition| condition_view(c)) == trigger_conditions_for(ice, wind, vibration)
    &&& s.action_steps@.map_values(|x: ActionStep| step_view(x)) == action_steps_for(d.1)
    &&& s.estimated_duration_minutes == shutdown_minutes_for(d.1)
    &&& s.affected_area@ == Seq::<char>::empty()
    &&& s.safety_measures@.len() == 0
    &&& s.created_at == now
    &&& s.updated_at == now
    &&& s.triggered_at == None::<i64>
    &&& s.executed_by == None::<u128>
    &&& s.approved_by == None::<u128>
    &&& s.related_alert_ids@ == seq![alert_id]
    &&& !s.auto_approve
}

/// Worse conditions never yield a milder strategy: of two strategies judged on
/// maxima of ice, wind and vibration, where each maximum of the second is at
/// least that of the first, the second is at least as severe, is expected to
/// take at least as long, and decides a shutdown whenever the first does.
pub proof fn lemma_strategy_monotone(
    s1: ShutdownStrategy, s2: ShutdownStrategy, tower1: u128, tower2: u128, alert1: u128, alert2: u128,
    now1: int, now2: int, ice1: int, wind1: int, vib1: int, ice2: int, wind2: int, vib2: int,
)
    requires
        strategy_matches(s1, tower1, alert1, now1, ice1, wind1, vib1),
        strategy_matches(s2, tower2, alert2, now2, ice2, wind2, vib2),
        ice1 <= ice2,
        wind1 <= wind2,
        vib1 <= vib2,
    ensures
        s1.severity.spec_rank() <= s2.severity.spec_rank(),
        s1.estimated_duration_minutes <= s2.estimated_duration_minutes,
        s1.strategy_type is Some ==> s2.strategy_type is Some,
{
    lemma_shutdown_decision_monotone(ice1, wind1, vib1, ice2, wind2, vib2);
    lemma_shutdown_recommended_iff(ice1, wind1, vib1);
    lemma_shutdown_recommended_iff(ice2, wind2, vib2);
}

/// Evaluates a shutdown for a tower and the alert that prompted it, at time
/// `now`, from its ice, wind and vibration readings of the last half hour: the
/// strategy, pending approval, and the plan for the restart. The decision
/// goes by the maxima of the readings (from 0).
pub fn evaluate_shutdown_strategy(
    tower_id: u128,
    alert_id: u128,
    now: i64,
    ice_data: &Vec<IceDetectionData>,
    wind_data: &Vec<WindSpeedData>,
    vibration_data: &Vec<VibrationData>,
) -> (r: (ShutdownStrategy, RestartPlan))
    requires
        now + 48 * 3600 <= i64::MAX,
    ensures
        strategy_matches(r.0, tower_id, alert_id, now as int, seq_max0(ice_thickness_series(ice_data@)),
            seq_max0(wind_speed_series(wind_data@)), seq_max0(velocity_series(vibration_data@))),
        r.1.required_checks@.map_values(|c: RestartCheck| check_view(c)) == restart_checks_for(
            seq_max0(ice_thickness_series(ice_data@)), seq_max0(wind_speed_series(wind_data@))),
        r.1.planned_restart_time == now + restart_hours_for(seq_max0(ice_thickness_series(ice_data@)),
            seq_max0(wind_speed_series(wind_data@))) * 3600,
        r.1.tower_id == tower_id,
        r.1.shutdown_log_id == 0,
        r.1.status == RestartStatus::Pending,
        r.1.approved_by == None::<u128>,
        r.1.actual_restart_time == None::<i64>,
        r.1.created_at == now,
{
    let max_ice = max_of(&ice_thicknesses(ice_data));
    let max_wind = max_of(&wind_speeds(wind_data));
    let max_vibration = max_of(&velocities(vibration_data));

    let (shutdown_type, urgency, risk_level) = determine_shutdown_type(max_ice, max_wind, max_vibration);
    let trigger_conditions = generate_trigger_conditions(max_ice, max_wind, max_vibration);
    let action_steps = generate_action_steps(shutdown_type, urgency);
    let restart_plan = generate_restart_plan(max_ice, max_wind, tower_id, 0, now);

    let title = match urgency {
        UrgencyLevel::Immediate => String::from_str("Emergency停运策略"),
        UrgencyLevel::High => String::from_str("Preventive停运策略"),
        UrgencyLevel::Medium => String::from_str("Preventive停运策略"),
        UrgencyLevel::Low => String::from_str("Conditional停运策略"),
        UrgencyLevel::NoUrgency => String::from_str("None停运策略"),
    };
    let mut description = String::from_str("基于覆冰");
    append_fixed(&mut description, max_ice, 1);
    description.append("mm、风速");
    append_fixed(&mut description, max_wind, 1);
    description.append("m/s、振动");
    append_fixed(&mut description, max_vibration, 1);
    description.append("mm/s的停运评估");

    let severity = match risk_level {
        RiskLevel::NoRisk => StrategySeverity::Advisory,
        RiskLevel::Low => StrategySeverity::Watch,
        RiskLevel::Medium => StrategySeverity::Warning,
        RiskLevel::High => StrategySeverity::Severe,
        RiskLevel::Critical => StrategySeverity::Extreme,
    };
    let minutes: i64 = match urgency {
        UrgencyLevel::Immediate => 120,
        UrgencyLevel::High => 60,
        _ => 30,
    };
    let mut related_alert_ids: Vec<u128> = Vec::new();
    related_alert_ids.push(alert_id);
    let safety_measures: Vec<String> = Vec::new();
    let strategy = ShutdownStrategy {
        id: new_uuid(),
        tower_id,
        strategy_type: shutdown_type,
        status: StrategyStatus::PendingApproval,
        severity,
        title,
        description,
        trigger_conditions,
        action_steps,
        estimated_duration_minutes: minutes,
        affected_area: String::new(),
        safety_measures,
        created_at: now,
        updated_at: now,
        triggered_at: None,
        executed_by: None,
        approved_by: None,
        related_alert_ids,
        auto_approve: false,
    };
    assert(strategy.related_alert_ids@ =~= seq![alert_id]);
    (strategy, restart_plan)
}

} // verus!

verus! {

/// Logs the execution of a strategy by a user at `now`: a preemptive shutdown
/// started for the reason that the system recommended it, with no passenger
/// affected yet and no incident. The log has no field for the executor's
/// notes.
pub fn execute_shutdown(strategy_id: u128, executed_by: u128, now: i64) -> (r: ShutdownLog)
    ensures
        r.strategy_id == strategy_id,
        r.tower_id == 0,
        r.shutdown_type == ShutdownType::Preemptive,
        r.start_time == now,
        r.end_time.is_none(),
        r.duration_minutes.is_none(),
        r.reason@ == "根据系统推荐策略执行停运"@,
        r.executed_by == executed_by,
        r.passengers_affected == Some(0u32),
        r.economic_impact.is_none(),
        r.weather_conditions.temperature_c == 0,
        r.weather_conditions.wind_speed_ms == 0,
        r.weather_conditions.wind_direction_deg == 0,
        r.weather_conditions.ice_thickness_mm.is_none(),
        r.weather_conditions.visibility_m.is_none(),
        r.weather_conditions.precipitation_type.is_none(),
        r.safety_incidents@.len() == 0,
        r.created_at == now,
{
    let safety_incidents: Vec<String> = Vec::new();
    ShutdownLog {
        id: new_uuid(),
        strategy_id,
        tower_id: 0,
        shutdown_type: ShutdownType::Preemptive,
        start_time: now,
        end_time: None,
        duration_minutes: None,
        reason: String::from_str("根据系统推荐策略执行停运"),
        executed_by,
        passengers_affected: Some(0),
        economic_impact: None,
        weather_conditions: WeatherConditions {
            temperature_c: 0,
            wind_speed_ms: 0,
            wind_direction_deg: 0,
            ice_thickness_mm: None,
            visibility_m: None,
            precipitation_type: None,
        },
        safety_incidents,
        created_at: now,
    }
}

} // verus!
