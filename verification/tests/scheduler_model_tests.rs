use ccc_mcp::json::{jstr, new_object, Json};
use ccc_mcp::scheduler_status::compact_scheduler_payload;
use ccc_mcp::status_truth::{task_model_value, ModelField};

fn obj(members: Vec<(&str, Json)>) -> Json {
    let mut o = new_object();
    for (k, v) in members {
        o.insert(k, v);
    }
    o
}

#[test]
fn task_model_value_prefers_the_dispatched_launch() {
    let task = obj(vec![
        ("latest_model_launch", obj(vec![("dispatched_model", jstr("m-launch"))])),
        ("delegation_plan", obj(vec![("model", jstr("m-plan")), ("variant", jstr("v-plan"))])),
        ("role_config_snapshot", obj(vec![("variant", jstr("v-snap"))])),
    ]);
    assert_eq!(task_model_value(&task, ModelField::Model).as_str(), Some("m-launch"));
    assert_eq!(task_model_value(&task, ModelField::Variant).as_str(), Some("v-plan"));
    assert!(task_model_value(&new_object(), ModelField::Model).is_null());
}

#[test]
fn compact_scheduler_keeps_non_objects_and_other_members() {
    assert_eq!(compact_scheduler_payload(&jstr("idle")).as_str(), Some("idle"));
    let scheduler = obj(vec![
        ("next_step", jstr("dispatch")),
        ("latest_transition", obj(vec![("from", jstr("a"))])),
    ]);
    let c = compact_scheduler_payload(&scheduler);
    assert_eq!(c.str_field("next_step"), Some("dispatch"));
    assert_eq!(c.get("latest_transition").unwrap().str_field("from"), Some("a"));
    assert!(c.get("selected_planned_row").is_none());
}
