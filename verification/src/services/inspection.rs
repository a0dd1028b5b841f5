//! Inspections and maintenance: the standard check items, the sample records
//! the service serves, their filtering and paging, and the report over a
//! period with its recommendations.
use vstd::prelude::*;
use crate::models::inspection::{
    InspectionRecord, InspectionType, InspectionStatus, OverallCondition, InspectionCheckItem, ItemCondition,
    InspectionFinding, FindingSeverity, Priority, FindingStatus, MaintenanceTask, MaintenanceStatus,
    InspectionReport,
};
use crate::models::shutdown_strategy::WeatherConditions;
use crate::text::{texts, push_text, decimal_text, append_decimal, uuid_text, uuid_string};
use crate::error::AppError;
use crate::ids::new_uuid;
use crate::paging::{page_of, paginate};

verus! {

/// The recommendations of a report: the critical findings and the high
/// priority tasks to deal with first, when there are any, then three standing
/// recommendations.
pub open spec fn recommendations_for(critical_findings: nat, high_priority_tasks: nat) -> Seq<Seq<char>> {
    let first: Seq<Seq<char>> = if critical_findings > 0 {
        seq!["立即处理"@ + decimal_text(critical_findings) + "项严重缺陷"@]
    } else {
        Seq::empty()
    };
    let second: Seq<Seq<char>> = if high_priority_tasks > 0 {
        seq!["优先处理"@ + decimal_text(high_priority_tasks) + "项高优先级维护任务"@]
    } else {
        Seq::empty()
    };
    first + second + seq![
        "加强冬季覆冰季节的巡检频率"@,
        "定期校准传感器，确保数据准确性"@,
        "制定应急预案，演练应急响应流程"@,
    ]
}

/// A report asks first to deal with its critical findings when it has any,
/// then with its high priority tasks when it has any, and always ends with
/// the three standing recommendations: it holds three more items than those
/// two asks.
pub proof fn lemma_recommendations_order(critical_findings: nat, high_priority_tasks: nat)
    ensures
        ({
            let r = recommendations_for(critical_findings, high_priority_tasks);
            let asks: int = (if critical_findings > 0 { 1int } else { 0int }) + (if high_priority_tasks > 0 { 1int } else { 0int });
            &&& r.len() == asks + 3
            &&& critical_findings > 0 ==> r[0] == "立即处理"@ + decimal_text(critical_findings) + "项严重缺陷"@
            &&& high_priority_tasks > 0 ==> r[asks - 1] == "优先处理"@ + decimal_text(high_priority_tasks) + "项高优先级维护任务"@
            &&& r[asks] == "加强冬季覆冰季节的巡检频率"@
            &&& r[asks + 1] == "定期校准传感器，确保数据准确性"@
            &&& r[asks + 2] == "制定应急预案，演练应急响应流程"@
        }),
{
}

/// Writes the recommendations of a report from the numbers of critical
/// findings and of high priority tasks.
pub fn generate_recommendations(critical_findings: usize, high_priority_tasks: usize) -> (r: Vec<String>)
    ensures
        texts(r@) == recommendations_for(critical_findings as nat, high_priority_tasks as nat),
{
    let mut recs: Vec<String> = Vec::new();
    assert(texts(recs@) =~= Seq::empty());
    if critical_findings > 0 {
        let mut s = String::from_str("立即处理");
        append_decimal(&mut s, critical_findings as u64);
        s.append("项严重缺陷");
        let ghost before = recs@;
        recs.push(s);
        assert(texts(recs@) =~= texts(before).push("立即处理"@ + decimal_text(critical_findings as nat) + "项严重缺陷"@));
    }
    if high_priority_tasks > 0 {
        let mut s = String::from_str("优先处理");
        append_decimal(&mut s, high_priority_tasks as u64);
        s.append("项高优先级维护任务");
        let ghost before = recs@;
        recs.push(s);
        assert(texts(recs@) =~= texts(before).push("优先处理"@ + decimal_text(high_priority_tasks as nat) + "项高优先级维护任务"@));
    }
    push_text(&mut recs, "加强冬季覆冰季节的巡检频率");
    push_text(&mut recs, "定期校准传感器，确保数据准确性");
    push_text(&mut recs, "制定应急预案，演练应急响应流程");
    assert(texts(recs@) =~= recommendations_for(critical_findings as nat, high_priority_tasks as nat));
    recs
}

/// A check item as plain values, without its identifier.
pub open spec fn check_item_view(c: InspectionCheckItem) -> (Seq<char>, Seq<char>, Seq<char>, bool, ItemCondition, Option<String>, Option<String>) {
    (c.category@, c.item_name@, c.description@, c.is_checked, c.condition, c.notes, c.photo_url)
}

/// A passed check: checked, in good condition, with a note and no photo. Its
/// description is the item's code.
pub open spec fn passed_check(category: Seq<char>, name: Seq<char>, code: Seq<char>, note: Seq<char>, c: InspectionCheckItem) -> bool {
    &&& c.category@ == category
    &&& c.item_name@ == name
    &&& c.description@ == code
    &&& c.is_checked
    &&& c.condition == ItemCondition::Good
    &&& c.notes matches Some(n) && n@ == note
    &&& c.photo_url.is_none()
}

/// The standard checks of an inspection, all passed: the foundation, the steel
/// structure, the cable and the sensors.
pub open spec fn standard_checks(items: Seq<InspectionCheckItem>) -> bool {
    &&& items.len() == 4
    &&& passed_check("foundation"@, "基础检查"@, "FOUNDATION-001"@, "基础牢固，无沉降"@, items[0])
    &&& passed_check("structure"@, "钢结构检查"@, "STRUCTURE-001"@, "钢结构完好，无锈蚀"@, items[1])
    &&& passed_check("cable"@, "钢索检查"@, "CABLE-001"@, "钢索张力正常，无断丝"@, items[2])
    &&& passed_check("sensor"@, "传感器检查"@, "SENSOR-001"@, "所有传感器工作正常"@, items[3])
}

fn passed_check_item(category: &str, name: &str, code: &str, note: &str) -> (c: InspectionCheckItem)
    ensures
        passed_check(category@, name@, code@, note@, c),
{
    InspectionCheckItem {
        id: new_uuid(),
        category: String::from_str(category),
        item_name: String::from_str(name),
        description: String::from_str(code),
        is_checked: true,
        condition: ItemCondition::Good,
        notes: Some(String::from_str(note)),
        photo_url: None,
    }
}

/// The standard check items of an inspection, all passed.
pub fn generate_check_items() -> (r: Vec<InspectionCheckItem>)
    ensures
        standard_checks(r@),
{
    let mut items: Vec<InspectionCheckItem> = Vec::new();
    items.push(passed_check_item("foundation", "基础检查", "FOUNDATION-001", "基础牢固，无沉降"));
    items.push(passed_check_item("structure", "钢结构检查", "STRUCTURE-001", "钢结构完好，无锈蚀"));
    items.push(passed_check_item("cable", "钢索检查", "CABLE-001", "钢索张力正常，无断丝"));
    items.push(passed_check_item("sensor", "传感器检查", "SENSOR-001", "所有传感器工作正常"));
    items
}

/// A finding as plain values, without its identifier: severity, category,
/// description, location, cost, priority, immediacy, status, resolution date
/// and notes.
pub open spec fn finding_view(f: InspectionFinding)
    -> (FindingSeverity, Seq<char>, Seq<char>, Seq<char>, Option<i64>, Priority, bool, FindingStatus, Option<i64>, Option<String>)
{
    (f.severity, f.category@, f.description@, f.location@, f.estimated_repair_cost, f.priority,
        f.requires_immediate_action, f.status, f.resolution_date, f.resolution_notes)
}

/// Whether a finding is the slight corrosion of the sample records, resolved
/// at `now` when `resolved`.
pub open spec fn is_corrosion_finding(f: InspectionFinding, resolved: bool, now: int) -> bool {
    &&& f.severity == FindingSeverity::Minor
    &&& f.category@ == "corrosion"@
    &&& f.description@ == "发现轻微锈蚀"@
    &&& f.location@ == "三号横梁"@
    &&& f.estimated_repair_cost.is_none()
    &&& f.priority == Priority::Low
    &&& f.requires_immediate_action
    &&& f.status == if resolved { FindingStatus::Resolved } else { FindingStatus::Open }
    &&& f.resolution_date == if resolved { Some(now as i64) } else { None }
    &&& f.resolution_notes matches Some(n) && n@ == "建议下次巡检时除锈涂漆"@
}

/// Whether a finding is the loose bolt of the sample records, resolved at `now`.
pub open spec fn is_loose_bolt_finding(f: InspectionFinding, now: int) -> bool {
    &&& f.severity == FindingSeverity::Moderate
    &&& f.category@ == "loose_connection"@
    &&& f.description@ == "传感器安装螺栓松动"@
    &&& f.location@ == "传感器安装架"@
    &&& f.estimated_repair_cost.is_none()
    &&& f.priority == Priority::Medium
    &&& f.requires_immediate_action
    &&& f.status == FindingStatus::Resolved
    &&& f.resolution_date == Some(now as i64)
    &&& f.resolution_notes matches Some(n) && n@ == "立即紧固螺栓，重新校准传感器"@
}

/// The findings of the sample record `seed`: the corrosion when the seed is a
/// multiple of 3 (resolved from seed 2 on), then the loose bolt when it is a
/// multiple of 4.
pub open spec fn findings_match(findings: Seq<InspectionFinding>, seed: int, now: int) -> bool {
    let corrosion = seed % 3 == 0;
    let bolt = seed % 4 == 0;
    &&& findings.len() == (if corrosion { 1int } else { 0int }) + (if bolt { 1int } else { 0int })
    &&& corrosion ==> is_corrosion_finding(findings[0], seed >= 2, now)
    &&& bolt ==> is_loose_bolt_finding(findings[if corrosion { 1int } else { 0int }], now)
}

/// The findings of the sample record `seed` (0 or more), found at `now`.
pub fn generate_findings(seed: i32, now: i64) -> (r: Vec<InspectionFinding>)
    requires
        seed >= 0,
    ensures
        findings_match(r@, seed as int, now as int),
{
    let mut findings: Vec<InspectionFinding> = Vec::new();
    if seed % 3 == 0 {
        let resolved = seed >= 2;
        findings.push(InspectionFinding {
            id: new_uuid(),
            severity: FindingSeverity::Minor,
            category: String::from_str("corrosion"),
            description: String::from_str("发现轻微锈蚀"),
            location: String::from_str("三号横梁"),
            estimated_repair_cost: None,
            priority: Priority::Low,
            requires_immediate_action: true,
            status: if resolved { FindingStatus::Resolved } else { FindingStatus::Open },
            resolution_date: if resolved { Some(now) } else { None },
            resolution_notes: Some(String::from_str("建议下次巡检时除锈涂漆")),
        });
    }
    if seed % 4 == 0 {
        findings.push(InspectionFinding {
            id: new_uuid(),
            severity: FindingSeverity::Moderate,
            category: String::from_str("loose_connection"),
            description: String::from_str("传感器安装螺栓松动"),
            location: String::from_str("传感器安装架"),
            estimated_repair_cost: None,
            priority: Priority::Medium,
            requires_immediate_action: true,
            status: FindingStatus::Resolved,
            resolution_date: Some(now),
            resolution_notes: Some(String::from_str("立即紧固螺栓，重新校准传感器")),
        });
    }
    findings
}

} // verus!

verus! {

/// The sample inspection `i` (0 to 4), made at `now` less `i` weeks: routine
/// when `i` is even, after a storm when odd, completed by 张三 with the
/// standard checks, in good overall condition, with the sample findings of
/// `i`, a follow-up 30 days later and a note that numbers it.
pub open spec fn is_sample_inspection(r: InspectionRecord, i: int, now: int) -> bool {
    let date = now - i * 7 * 86400;
    &&& r.inspection_type == if i % 2 == 0 { InspectionType::Routine } else { InspectionType::AfterStorm }
    &&& r.status == InspectionStatus::Completed
    &&& r.inspector_name@ == "张三"@
    &&& r.scheduled_date == date
    &&& r.start_time == Some(date as i64)
    &&& r.end_time.is_none()
    &&& r.duration_minutes.is_none()
    &&& r.weather_conditions.temperature_c == (5 + i) * 100
    &&& r.weather_conditions.wind_speed_ms == (3 + i) * 100
    &&& r.weather_conditions.wind_direction_deg == 0
    &&& r.weather_conditions.ice_thickness_mm.is_none()
    &&& r.weather_conditions.visibility_m.is_none()
    &&& r.weather_conditions.precipitation_type.is_none()
    &&& standard_checks(r.check_items@)
    &&& r.overall_condition == OverallCondition::Good
    &&& findings_match(r.findings@, i, now)
    &&& r.recommendations@.len() == 0
    &&& !r.follow_up_required
    &&& r.follow_up_date == Some((date + 30 * 86400) as i64)
    &&& r.notes matches Some(n) && n@ == "第"@ + decimal_text((i + 1) as nat) + "次常规巡检记录"@
    &&& r.attachments@.len() == 0
    &&& r.created_at == date
    &&& r.updated_at == date
}

/// The inspection records the service holds: five weekly samples up to `now`,
/// each on a tower of its own.
pub fn generate_sample_inspections(now: i64) -> (r: Vec<InspectionRecord>)
    requires
        i64::MIN + 28 * 86400 <= now <= i64::MAX - 30 * 86400,
    ensures
        r@.len() == 5,
        forall|i: int| 0 <= i < 5 ==> is_sample_inspection(#[trigger] r@[i], i, now as int),
{
    let mut inspections: Vec<InspectionRecord> = Vec::new();
    let mut i: i32 = 0;
    while i < 5
        invariant
            0 <= i <= 5,
            i64::MIN + 28 * 86400 <= now <= i64::MAX - 30 * 86400,
            inspections@.len() == i,
            forall|k: int| 0 <= k < i ==> is_sample_inspection(#[trigger] inspections@[k], k, now as int),
        decreases 5 - i,
    {
        let date: i64 = now - i as i64 * 7 * 86400;
        let mut notes = String::from_str("第");
        append_decimal(&mut notes, (i + 1) as u64);
        notes.append("次常规巡检记录");
        let recommendations: Vec<String> = Vec::new();
        let attachments = Vec::new();
        let record = InspectionRecord {
            id: new_uuid(),
            tower_id: new_uuid(),
            inspection_type: if i % 2 == 0 { InspectionType::Routine } else { InspectionType::AfterStorm },
            status: InspectionStatus::Completed,
            inspector_id: new_uuid(),
            inspector_name: String::from_str("张三"),
            scheduled_date: date,
            start_time: Some(date),
            end_time: None,
            duration_minutes: None,
            weather_conditions: WeatherConditions {
                temperature_c: (5 + i as i64) * 100,
                wind_speed_ms: (3 + i as i64) * 100,
                wind_direction_deg: 0,
                ice_thickness_mm: None,
                visibility_m: None,
                precipitation_type: None,
            },
            check_items: generate_check_items(),
            overall_condition: OverallCondition::Good,
            findings: generate_findings(i, now),
            recommendations,
            follow_up_required: false,
            follow_up_date: Some(date + 30 * 86400),
            notes: Some(notes),
            attachments,
            created_at: date,
            updated_at: date,
        };
        inspections.push(record);
        i = i + 1;
    }
    inspections
}

/// Whether a record passes the filters: its tower, its type, and its date
/// within the bounds, each only where given.
pub open spec fn inspection_selected(
    r: InspectionRecord, tower_id: Option<u128>, inspection_type: Option<InspectionType>,
    start_time: Option<i64>, end_time: Option<i64>,
) -> bool {
    &&& (tower_id matches Some(t) ==> r.tower_id == t)
    &&& (inspection_type matches Some(t) ==> r.inspection_type == t)
    &&& (start_time matches Some(s) ==> r.scheduled_date >= s)
    &&& (end_time matches Some(e) ==> r.scheduled_date <= e)
}

/// The filters as a predicate.
pub open spec fn inspection_filter(
    tower_id: Option<u128>, inspection_type: Option<InspectionType>, start_time: Option<i64>, end_time: Option<i64>,
) -> spec_fn(InspectionRecord) -> bool {
    |x: InspectionRecord| inspection_selected(x, tower_id, inspection_type, start_time, end_time)
}

/// Keeps the records that pass the filters, in order.
pub fn filter_inspections(
    records: Vec<InspectionRecord>, tower_id: Option<u128>, inspection_type: Option<InspectionType>,
    start_time: Option<i64>, end_time: Option<i64>,
) -> (r: Vec<InspectionRecord>)
    ensures
        r@ == records@.filter(inspection_filter(tower_id, inspection_type, start_time, end_time)),
{
    let ghost pred = inspection_filter(tower_id, inspection_type, start_time, end_time);
    let ghost all = records@;
    let mut rest = records;
    let mut kept: Vec<InspectionRecord> = Vec::new();
    assert(all.subrange(0, 0).filter(pred) =~= Seq::empty()) by {
        reveal(Seq::filter);
    }
    while rest.len() > 0
        invariant
            rest@.len() <= all.len(),
            rest@ == all.subrange(all.len() - rest@.len(), all.len() as int),
            kept@ == all.subrange(0, all.len() - rest@.len()).filter(pred),
            pred == inspection_filter(tower_id, inspection_type, start_time, end_time),
        decreases rest.len(),
    {
        let ghost done = all.len() - rest@.len();
        let r = rest.remove(0);
        assert(r == all[done]);
        assert(all.subrange(0, done + 1) =~= all.subrange(0, done).push(r));
        proof {
            all.subrange(0, done).lemma_filter_push(r, pred);
        }
        let keep = match tower_id { Some(t) => r.tower_id == t, None => true }
            && match inspection_type { Some(t) => r.inspection_type == t, None => true }
            && match start_time { Some(s) => r.scheduled_date >= s, None => true }
            && match end_time { Some(e) => r.scheduled_date <= e, None => true };
        assert(keep == inspection_selected(r, tower_id, inspection_type, start_time, end_time));
        assert(keep == pred(r));
        if keep {
            kept.push(r);
        }
        assert(rest@ =~= all.subrange(all.len() - rest@.len(), all.len() as int));
    }
    assert(all.subrange(0, all.len() as int) =~= all);
    kept
}

/// The records of the service that pass the filters, on the page asked for.
pub fn get_inspection_records(
    now: i64, tower_id: Option<u128>, inspection_type: Option<InspectionType>,
    start_time: Option<i64>, end_time: Option<i64>, page: u32, page_size: u32,
) -> (r: Vec<InspectionRecord>)
    requires
        i64::MIN + 28 * 86400 <= now <= i64::MAX - 30 * 86400,
        page as int * page_size as int <= u32::MAX,
    ensures
        exists|all: Seq<InspectionRecord>| {
            &&& all.len() == 5
            &&& (forall|i: int| 0 <= i < 5 ==> is_sample_inspection(#[trigger] all[i], i, now as int))
            &&& r@ == page_of(all.filter(inspection_filter(tower_id, inspection_type, start_time, end_time)),
                page as int, page_size as int)
        },
{
    let all = generate_sample_inspections(now);
    let ghost all_view = all@;
    let filtered = filter_inspections(all, tower_id, inspection_type, start_time, end_time);
    let r = paginate(filtered, page, page_size);
    assert(forall|i: int| 0 <= i < 5 ==> is_sample_inspection(#[trigger] all_view[i], i, now as int));
    r
}

} // verus!

verus! {

/// The sample maintenance task `i` (0 to 2), created at `now`: a repair of
/// urgent, high and medium priority, pending, in progress and completed, due
/// `i + 1` weeks later; the completed one cost 700.00 over 3.5 hours.
pub open spec fn is_sample_task(t: MaintenanceTask, i: int, now: int) -> bool {
    &&& t.source_inspection_id.is_some()
    &&& t.source_finding_id.is_some()
    &&& t.task_type@ == "repair"@
    &&& t.description@ == "处理巡检发现的问题"@
    &&& t.priority == if i == 0 { Priority::Urgent } else if i == 1 { Priority::High } else { Priority::Medium }
    &&& t.status == if i == 0 {
        MaintenanceStatus::Pending
    } else if i == 1 {
        MaintenanceStatus::InProgress
    } else {
        MaintenanceStatus::Completed
    }
    &&& t.assigned_to.is_some()
    &&& t.scheduled_date.is_none()
    &&& t.due_date == Some((now + (i + 1) * 7 * 86400) as i64)
    &&& t.completed_date == if i == 2 { Some(now as i64) } else { None }
    &&& t.estimated_cost.is_none()
    &&& t.actual_cost == if i == 2 { Some(70000i64) } else { None }
    &&& t.parts_used@.len() == 0
    &&& t.labor_hours == if i == 2 { Some(350i64) } else { None }
    &&& t.notes matches Some(n) && n@ == "维护任务 #"@ + decimal_text((i + 1) as nat)
    &&& t.created_at == now
    &&& t.updated_at == now
}

/// The maintenance tasks the service holds: three samples created at `now`,
/// each on a tower of its own.
pub fn generate_sample_maintenance_tasks(now: i64) -> (r: Vec<MaintenanceTask>)
    requires
        now <= i64::MAX - 21 * 86400,
    ensures
        r@.len() == 3,
        forall|i: int| 0 <= i < 3 ==> is_sample_task(#[trigger] r@[i], i, now as int),
{
    let mut tasks: Vec<MaintenanceTask> = Vec::new();
    let mut i: i64 = 0;
    while i < 3
        invariant
            0 <= i <= 3,
            now <= i64::MAX - 21 * 86400,
            tasks@.len() == i,
            forall|k: int| 0 <= k < i ==> is_sample_task(#[trigger] tasks@[k], k, now as int),
        decreases 3 - i,
    {
        let mut notes = String::from_str("维护任务 #");
        append_decimal(&mut notes, (i + 1) as u64);
        let parts_used: Vec<String> = Vec::new();
        tasks.push(MaintenanceTask {
            id: new_uuid(),
            tower_id: new_uuid(),
            source_inspection_id: Some(new_uuid()),
            source_finding_id: Some(new_uuid()),
            task_type: String::from_str("repair"),
            description: String::from_str("处理巡检发现的问题"),
            priority: if i == 0 { Priority::Urgent } else if i == 1 { Priority::High } else { Priority::Medium },
            status: if i == 0 {
                MaintenanceStatus::Pending
            } else if i == 1 {
                MaintenanceStatus::InProgress
            } else {
                MaintenanceStatus::Completed
            },
            assigned_to: Some(new_uuid()),
            scheduled_date: None,
            due_date: Some(now + (i + 1) * 7 * 86400),
            completed_date: if i == 2 { Some(now) } else { None },
            estimated_cost: None,
            actual_cost: if i == 2 { Some(70000) } else { None },
            parts_used,
            labor_hours: if i == 2 { Some(350) } else { None },
            notes: Some(notes),
            created_at: now,
            updated_at: now,
        });
        i = i + 1;
    }
    tasks
}

/// The task filters as a predicate: its tower, status and priority, each only
/// where given.
pub open spec fn task_filter(tower_id: Option<u128>, status: Option<MaintenanceStatus>, priority: Option<Priority>)
    -> spec_fn(MaintenanceTask) -> bool
{
    |t: MaintenanceTask| {
        &&& (tower_id matches Some(x) ==> t.tower_id == x)
        &&& (status matches Some(x) ==> t.status == x)
        &&& (priority matches Some(x) ==> t.priority == x)
    }
}

/// Keeps the tasks that pass the filters, in order.
pub fn filter_tasks(tasks: Vec<MaintenanceTask>, tower_id: Option<u128>, status: Option<MaintenanceStatus>, priority: Option<Priority>)
    -> (r: Vec<MaintenanceTask>)
    ensures
        r@ == tasks@.filter(task_filter(tower_id, status, priority)),
{
    let ghost pred = task_filter(tower_id, status, priority);
    let ghost all = tasks@;
    let mut rest = tasks;
    let mut kept: Vec<MaintenanceTask> = Vec::new();
    assert(all.subrange(0, 0).filter(pred) =~= Seq::empty()) by {
        reveal(Seq::filter);
    }
    while rest.len() > 0
        invariant
            rest@.len() <= all.len(),
            rest@ == all.subrange(all.len() - rest@.len(), all.len() as int),
            kept@ == all.subrange(0, all.len() - rest@.len()).filter(pred),
            pred == task_filter(tower_id, status, priority),
        decreases rest.len(),
    {
        let ghost done = all.len() - rest@.len();
        let t = rest.remove(0);
        assert(t == all[done]);
        assert(all.subrange(0, done + 1) =~= all.subrange(0, done).push(t));
        proof {
            all.subrange(0, done).lemma_filter_push(t, pred);
        }
        let keep = match tower_id { Some(x) => t.tower_id == x, None => true }
            && match status { Some(x) => t.status == x, None => true }
            && match priority { Some(x) => t.priority == x, None => true };
        assert(keep == pred(t));
        if keep {
            kept.push(t);
        }
        assert(rest@ =~= all.subrange(all.len() - rest@.len(), all.len() as int));
    }
    assert(all.subrange(0, all.len() as int) =~= all);
    kept
}

/// The maintenance tasks of the service that pass the filters.
pub fn get_maintenance_tasks(now: i64, tower_id: Option<u128>, status: Option<MaintenanceStatus>, priority: Option<Priority>)
    -> (r: Vec<MaintenanceTask>)
    requires
        now <= i64::MAX - 21 * 86400,
    ensures
        exists|all: Seq<MaintenanceTask>| {
            &&& all.len() == 3
            &&& (forall|i: int| 0 <= i < 3 ==> is_sample_task(#[trigger] all[i], i, now as int))
            &&& r@ == all.filter(task_filter(tower_id, status, priority))
        },
{
    let all = generate_sample_maintenance_tasks(now);
    let ghost all_view = all@;
    let r = filter_tasks(all, tower_id, status, priority);
    assert(forall|i: int| 0 <= i < 3 ==> is_sample_task(#[trigger] all_view[i], i, now as int));
    r
}

} // verus!

verus! {

/// A completed task.
pub open spec fn task_completed() -> spec_fn(MaintenanceTask) -> bool {
    |t: MaintenanceTask| t.status == MaintenanceStatus::Completed
}

/// A task still to do: pending or in progress.
pub open spec fn task_pending() -> spec_fn(MaintenanceTask) -> bool {
    |t: MaintenanceTask| t.status == MaintenanceStatus::Pending || t.status == MaintenanceStatus::InProgress
}

/// A task of high priority or above.
pub open spec fn task_high_priority() -> spec_fn(MaintenanceTask) -> bool {
    |t: MaintenanceTask| t.priority.spec_rank() >= Priority::High.spec_rank()
}

/// A critical finding.
pub open spec fn finding_critical() -> spec_fn(InspectionFinding) -> bool {
    |f: InspectionFinding| f.severity == FindingSeverity::Critical
}

/// The number of findings over a series of records.
pub open spec fn findings_total(s: Seq<InspectionRecord>) -> nat
    decreases s.len(),
{
    if s.len() == 0 { 0 } else { findings_total(s.drop_last()) + s.last().findings@.len() }
}

/// The number of critical findings over a series of records.
pub open spec fn critical_total(s: Seq<InspectionRecord>) -> nat
    decreases s.len(),
{
    if s.len() == 0 { 0 } else { critical_total(s.drop_last()) + s.last().findings@.filter(finding_critical()).len() }
}

/// Critical findings are among the findings, so the resolved count of a
/// report, the findings less the critical ones, never goes below zero.
pub proof fn lemma_critical_within_total(s: Seq<InspectionRecord>)
    ensures
        critical_total(s) <= findings_total(s),
    decreases s.len(),
{
    if s.len() > 0 {
        lemma_critical_within_total(s.drop_last());
        s.last().findings@.lemma_filter_len(finding_critical());
    }
}

proof fn lemma_filter_all_or_none(s: Seq<InspectionFinding>)
    ensures
        (forall|j: int| 0 <= j < s.len() ==> s[j].severity == FindingSeverity::Critical)
            ==> s.filter(finding_critical()).len() == s.len(),
        (forall|j: int| 0 <= j < s.len() ==> s[j].severity != FindingSeverity::Critical)
            ==> s.filter(finding_critical()).len() == 0,
    decreases s.len(),
{
    if s.len() == 0 {
        assert(s.filter(finding_critical()) =~= Seq::<InspectionFinding>::empty()) by {
            reveal(Seq::filter);
        }
    } else {
        let t = s.drop_last();
        lemma_filter_all_or_none(t);
        assert(s =~= t.push(s.last()));
        t.lemma_filter_push(s.last(), finding_critical());
        if forall|j: int| 0 <= j < s.len() ==> s[j].severity == FindingSeverity::Critical {
            assert forall|j: int| 0 <= j < t.len() implies t[j].severity == FindingSeverity::Critical by {
                assert(t[j] == s[j]);
            }
            assert(s[s.len() - 1] == s.last());
        }
        if forall|j: int| 0 <= j < s.len() ==> s[j].severity != FindingSeverity::Critical {
            assert forall|j: int| 0 <= j < t.len() implies t[j].severity != FindingSeverity::Critical by {
                assert(t[j] == s[j]);
            }
            assert(s[s.len() - 1] == s.last());
        }
    }
}

/// The critical findings of records are exactly their findings of severity
/// Critical: when every finding is critical, all of them count, so none is
/// resolved; when none is, none counts. Adding a record adds its critical
/// findings, each counted once.
pub proof fn lemma_critical_findings_by_severity(s: Seq<InspectionRecord>, rec: InspectionRecord)
    ensures
        (forall|i: int, j: int| 0 <= i < s.len() && 0 <= j < s[i].findings@.len()
            ==> #[trigger] s[i].findings@[j].severity == FindingSeverity::Critical)
            ==> critical_total(s) == findings_total(s),
        (forall|i: int, j: int| 0 <= i < s.len() && 0 <= j < s[i].findings@.len()
            ==> #[trigger] s[i].findings@[j].severity != FindingSeverity::Critical)
            ==> critical_total(s) == 0,
        critical_total(s.push(rec)) == critical_total(s) + rec.findings@.filter(
            |f: InspectionFinding| f.severity == FindingSeverity::Critical).len(),
        findings_total(s.push(rec)) == findings_total(s) + rec.findings@.len(),
    decreases s.len(),
{
    assert(s.push(rec).drop_last() =~= s);
    assert(finding_critical() == (|f: InspectionFinding| f.severity == FindingSeverity::Critical));
    if s.len() > 0 {
        let t = s.drop_last();
        lemma_critical_findings_by_severity(t, s.last());
        lemma_filter_all_or_none(s.last().findings@);
        if forall|i: int, j: int| 0 <= i < s.len() && 0 <= j < s[i].findings@.len()
            ==> #[trigger] s[i].findings@[j].severity == FindingSeverity::Critical {
            assert forall|i: int, j: int| 0 <= i < t.len() && 0 <= j < t[i].findings@.len()
                implies #[trigger] t[i].findings@[j].severity == FindingSeverity::Critical by {
                assert(t[i] == s[i]);
                assert(s[i].findings@[j].severity == FindingSeverity::Critical);
            }
            assert forall|j: int| 0 <= j < s.last().findings@.len()
                implies s.last().findings@[j].severity == FindingSeverity::Critical by {
                assert(s.last() == s[s.len() - 1]);
                assert(s[s.len() - 1].findings@[j].severity == FindingSeverity::Critical);
            }
        }
        if forall|i: int, j: int| 0 <= i < s.len() && 0 <= j < s[i].findings@.len()
            ==> #[trigger] s[i].findings@[j].severity != FindingSeverity::Critical {
            assert forall|i: int, j: int| 0 <= i < t.len() && 0 <= j < t[i].findings@.len()
                implies #[trigger] t[i].findings@[j].severity != FindingSeverity::Critical by {
                assert(t[i] == s[i]);
                assert(s[i].findings@[j].severity != FindingSeverity::Critical);
            }
            assert forall|j: int| 0 <= j < s.last().findings@.len()
                implies s.last().findings@[j].severity != FindingSeverity::Critical by {
                assert(s.last() == s[s.len() - 1]);
                assert(s[s.len() - 1].findings@[j].severity != FindingSeverity::Critical);
            }
        }
    }
}

/// What a report over `inspections` and `tasks` holds.
pub open spec fn report_matches(
    r: InspectionReport, tower_id: u128, start_time: int, end_time: int, now: int,
    inspections: Seq<InspectionRecord>, tasks: Seq<MaintenanceTask>,
) -> bool {
    let total = findings_total(inspections);
    let critical = critical_total(inspections);
    let high = tasks.filter(task_high_priority()).len();
    &&& r.tower_id == tower_id
    &&& r.report_period_start == start_time
    &&& r.report_period_end == end_time
    &&& r.generated_at == now
    &&& r.total_inspections == inspections.len() as u32
    &&& r.total_findings == total as u32
    &&& r.critical_findings == critical as u32
    &&& r.resolved_findings == (total - critical) as u32
    &&& r.maintenance_tasks_created == tasks.len() as u32
    &&& r.maintenance_tasks_completed == tasks.filter(task_completed()).len() as u32
    &&& r.maintenance_tasks_pending == tasks.filter(task_pending()).len() as u32
    &&& r.high_priority_tasks == high as u32
    &&& r.average_inspection_score == if inspections.len() > 0 { 8000i64 } else { 0i64 }
    &&& texts(r.recommendations@) == recommendations_for(critical, high)
    &&& r.next_inspection_date == now + 30 * 86400
    &&& r.prepared_by matches Some(p) && p@ == "系统自动生成"@
}

fn count_critical(findings: &Vec<InspectionFinding>) -> (r: usize)
    ensures
        r == findings@.filter(finding_critical()).len(),
{
    let mut n: usize = 0;
    let mut i: usize = 0;
    assert(findings@.subrange(0, 0).filter(finding_critical()) =~= Seq::empty()) by {
        reveal(Seq::filter);
    }
    while i < findings.len()
        invariant
            i <= findings.len(),
            n == findings@.subrange(0, i as int).filter(finding_critical()).len(),
            n <= i,
        decreases findings.len() - i,
    {
        assert(findings@.subrange(0, i + 1) =~= findings@.subrange(0, i as int).push(findings@[i as int]));
        proof {
            findings@.subrange(0, i as int).lemma_filter_push(findings@[i as int], finding_critical());
        }
        let critical = match findings[i].severity {
            FindingSeverity::Critical => true,
            _ => false,
        };
        if critical {
            n = n + 1;
        }
        i = i + 1;
    }
    assert(findings@.subrange(0, i as int) =~= findings@);
    n
}

/// Counts the completed, pending and high-priority tasks.
fn count_tasks(tasks: &Vec<MaintenanceTask>) -> (r: (usize, usize, usize))
    ensures
        r.0 == tasks@.filter(task_completed()).len(),
        r.1 == tasks@.filter(task_pending()).len(),
        r.2 == tasks@.filter(task_high_priority()).len(),
{
    let mut completed: usize = 0;
    let mut pending: usize = 0;
    let mut high: usize = 0;
    let mut i: usize = 0;
    proof {
        reveal(Seq::filter);
        assert(tasks@.subrange(0, 0).filter(task_completed()) =~= Seq::empty());
        assert(tasks@.subrange(0, 0).filter(task_pending()) =~= Seq::empty());
        assert(tasks@.subrange(0, 0).filter(task_high_priority()) =~= Seq::empty());
    }
    while i < tasks.len()
        invariant
            i <= tasks.len(),
            completed == tasks@.subrange(0, i as int).filter(task_completed()).len(),
            pending == tasks@.subrange(0, i as int).filter(task_pending()).len(),
            high == tasks@.subrange(0, i as int).filter(task_high_priority()).len(),
            completed <= i,
            pending <= i,
            high <= i,
        decreases tasks.len() - i,
    {
        let t = &tasks[i];
        let ghost prefix = tasks@.subrange(0, i as int);
        assert(tasks@.subrange(0, i + 1) =~= prefix.push(*t));
        proof {
            prefix.lemma_filter_push(*t, task_completed());
            prefix.lemma_filter_push(*t, task_pending());
            prefix.lemma_filter_push(*t, task_high_priority());
        }
        let is_completed = match t.status { MaintenanceStatus::Completed => true, _ => false };
        let is_pending = match t.status {
            MaintenanceStatus::Pending | MaintenanceStatus::InProgress => true,
            _ => false,
        };
        if is_completed {
            completed = completed + 1;
        }
        if is_pending {
            pending = pending + 1;
        }
        if t.priority.rank() >= 2 {
            high = high + 1;
        }
        i = i + 1;
    }
    assert(tasks@.subrange(0, i as int) =~= tasks@);
    (completed, pending, high)
}

/// Reports on the inspections and maintenance tasks of a tower over a period,
/// at time `now`. Records carry no score, so each counts for 80 points.
pub fn build_inspection_report(
    tower_id: u128, start_time: i64, end_time: i64, now: i64,
    inspections: &Vec<InspectionRecord>, tasks: &Vec<MaintenanceTask>,
) -> (r: InspectionReport)
    requires
        findings_total(inspections@) <= usize::MAX,
        now <= i64::MAX - 30 * 86400,
    ensures
        report_matches(r, tower_id, start_time as int, end_time as int, now as int, inspections@, tasks@),
{
    let mut total: usize = 0;
    let mut critical: usize = 0;
    let mut i: usize = 0;
    while i < inspections.len()
        invariant
            i <= inspections.len(),
            findings_total(inspections@) <= usize::MAX,
            total == findings_total(inspections@.subrange(0, i as int)),
            critical == critical_total(inspections@.subrange(0, i as int)),
            critical <= total,
        decreases inspections.len() - i,
    {
        let ghost prefix = inspections@.subrange(0, i + 1);
        assert(prefix.drop_last() =~= inspections@.subrange(0, i as int));
        proof {
            lemma_findings_total_prefix(inspections@, i + 1);
            inspections@[i as int].findings@.lemma_filter_len(finding_critical());
        }
        let n = inspections[i].findings.len();
        let c = count_critical(&inspections[i].findings);
        total = total + n;
        critical = critical + c;
        i = i + 1;
    }
    assert(inspections@.subrange(0, i as int) =~= inspections@);
    let (completed, pending, high) = count_tasks(tasks);
    let mut prepared_by = String::from_str("系统自动生成");
    InspectionReport {
        id: new_uuid(),
        tower_id,
        report_period_start: start_time,
        report_period_end: end_time,
        generated_at: now,
        total_inspections: #[verifier::truncate] (inspections.len() as u32),
        total_findings: #[verifier::truncate] (total as u32),
        critical_findings: #[verifier::truncate] (critical as u32),
        resolved_findings: #[verifier::truncate] ((total - critical) as u32),
        maintenance_tasks_created: #[verifier::truncate] (tasks.len() as u32),
        maintenance_tasks_completed: #[verifier::truncate] (completed as u32),
        maintenance_tasks_pending: #[verifier::truncate] (pending as u32),
        high_priority_tasks: #[verifier::truncate] (high as u32),
        average_inspection_score: if inspections.len() > 0 { 8000 } else { 0 },
        recommendations: generate_recommendations(critical, high),
        next_inspection_date: now + 30 * 86400,
        prepared_by: Some(prepared_by),
    }
}

/// The findings of a prefix never exceed those of the whole series.
proof fn lemma_findings_total_prefix(s: Seq<InspectionRecord>, k: int)
    requires
        0 <= k <= s.len(),
    ensures
        findings_total(s.subrange(0, k)) <= findings_total(s),
    decreases s.len() - k,
{
    if k < s.len() {
        lemma_findings_total_prefix(s, k + 1);
        assert(s.subrange(0, k + 1).drop_last() =~= s.subrange(0, k));
    } else {
        assert(s.subrange(0, k) =~= s);
    }
}

/// Reports on a tower over a period at time `now`, from the service's
/// inspection records of the tower in the period (the first thousand) and
/// its maintenance tasks.
pub fn generate_inspection_report(tower_id: u128, start_time: i64, end_time: i64, now: i64) -> (r: InspectionReport)
    requires
        i64::MIN + 28 * 86400 <= now <= i64::MAX - 30 * 86400,
    ensures
        exists|inspections: Seq<InspectionRecord>, tasks: Seq<MaintenanceTask>| {
            &&& inspections.len() == 5
            &&& (forall|i: int| 0 <= i < 5 ==> is_sample_inspection(#[trigger] inspections[i], i, now as int))
            &&& tasks.len() == 3
            &&& (forall|i: int| 0 <= i < 3 ==> is_sample_task(#[trigger] tasks[i], i, now as int))
            &&& report_matches(r, tower_id, start_time as int, end_time as int, now as int,
                page_of(inspections.filter(inspection_filter(Some(tower_id), None, Some(start_time), Some(end_time))), 0, 1000),
                tasks.filter(task_filter(Some(tower_id), None, None)))
        },
{
    let all_inspections = generate_sample_inspections(now);
    let ghost all_view = all_inspections@;
    let filtered = filter_inspections(all_inspections, Some(tower_id), None, Some(start_time), Some(end_time));
    let inspections = paginate(filtered, 0, 1000);
    let all_tasks = generate_sample_maintenance_tasks(now);
    let ghost tasks_view = all_tasks@;
    let tasks = filter_tasks(all_tasks, Some(tower_id), None, None);
    proof {
        let pred = inspection_filter(Some(tower_id), None, Some(start_time), Some(end_time));
        let f = all_view.filter(pred);
        assert forall|i: int| 0 <= i < inspections@.len() implies #[trigger] all_view.contains(inspections@[i]) by {
            assert(inspections@[i] == f[i]);
            assert(f.contains(f[i]));
            all_view.lemma_filter_contains_rev(pred, f[i]);
        }
        all_view.lemma_filter_len(pred);
        lemma_sample_findings_small(inspections@, all_view, now as int);
    }
    let r = build_inspection_report(tower_id, start_time, end_time, now, &inspections, &tasks);
    assert(forall|i: int| 0 <= i < 5 ==> is_sample_inspection(#[trigger] all_view[i], i, now as int));
    assert(forall|i: int| 0 <= i < 3 ==> is_sample_task(#[trigger] tasks_view[i], i, now as int));
    r
}

/// Records that are all sample inspections carry at most two findings each.
proof fn lemma_sample_findings_small(s: Seq<InspectionRecord>, all: Seq<InspectionRecord>, now: int)
    requires
        s.len() <= all.len(),
        all.len() == 5,
        forall|i: int| 0 <= i < 5 ==> is_sample_inspection(#[trigger] all[i], i, now),
        forall|i: int| 0 <= i < s.len() ==> #[trigger] all.contains(s[i]),
    ensures
        findings_total(s) <= 2 * s.len(),
    decreases s.len(),
{
    if s.len() > 0 {
        lemma_sample_findings_small(s.drop_last(), all, now);
        assert(all.contains(s[s.len() - 1]));
        let j = choose|j: int| 0 <= j < all.len() && all[j] == s[s.len() - 1];
        assert(is_sample_inspection(all[j], j, now));
    }
}

} // verus!

verus! {

/// The text of the error for an inspection record that is not there.
pub open spec fn inspection_not_found_text(id: u128) -> Seq<char> {
    "Inspection record "@ + uuid_text(id) + " not found"@
}

/// Finds an inspection record by its identifier among the records, the first
/// that has it; otherwise it is not found.
pub fn get_inspection_by_id(records: Vec<InspectionRecord>, id: u128) -> (r: Result<InspectionRecord, AppError>)
    ensures
        match r {
            Ok(x) => x.id == id && exists|i: int| 0 <= i < records@.len() && records@[i] == x
                && forall|j: int| 0 <= j < i ==> #[trigger] records@[j].id != id,
            Err(e) => (forall|i: int| 0 <= i < records@.len() ==> #[trigger] records@[i].id != id)
                && (e matches AppError::NotFound(m) && m@ == inspection_not_found_text(id)),
        },
{
    let ghost all = records@;
    let n = records.len();
    let mut rest = records;
    let mut k: usize = 0;
    while rest.len() > 0
        invariant
            all == records@,
            all.len() == n,
            k + rest@.len() == all.len(),
            rest@ == all.subrange(k as int, all.len() as int),
            forall|j: int| 0 <= j < k ==> #[trigger] all[j].id != id,
        decreases rest.len(),
    {
        let x = rest.remove(0);
        assert(x == all[k as int]);
        if x.id == id {
            assert(records@[k as int] == x);
            return Ok(x);
        }
        k = k + 1;
        assert(rest@ =~= all.subrange(k as int, all.len() as int));
    }
    let mut m = String::from_str("Inspection record ");
    let text = uuid_string(id);
    m.append(text.as_str());
    m.append(" not found");
    Err(AppError::NotFound(m))
}

} // verus!
