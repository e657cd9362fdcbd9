//! The operator-visible workflow loop of a run: requirements understanding,
//! planning, exploration, modification, review and verification, with the
//! stage the persisted task card and LongWay say the run is in.

use vstd::prelude::*;
use crate::json::{
    get_or, jbool, jget, jget_or, jget_path, jstr, jstr_at, jstr_field, jview, member,
    members_view, object_of, opt_bool, opt_u64, JVal, Json,
};
use crate::run_checkpoint::{spec_checkpoint_text, summarize_checkpoint_text};
use crate::status_text::{
    spec_workflow_role_is_exploration, spec_workflow_role_is_modification,
    spec_workflow_stage_label, workflow_role_is_exploration, workflow_role_is_modification,
    workflow_stage_label,
};
use crate::strings::{ascii_lowercase, contains, contains_seq, opt_str_is, str_eq, to_ascii_lowercase};
use crate::worker_fleet::jviews;

verus! {

/// A text member, or empty.
pub open spec fn text_or_empty(o: Option<Seq<char>>) -> Seq<char> {
    match o {
        Some(s) => s,
        None => ""@,
    }
}

/// The verification state says the task is verified.
pub open spec fn verification_done(task: JVal) -> bool {
    let v = jstr_field(task, "verification_state"@);
    v == Some("passed"@) || v == Some("verified"@) || v == Some("completed"@)
}

/// The stage the run is in. A verified task is in verification; an active
/// subagent in an exploring or modifying role puts it in that stage; a
/// pending or planning LongWay in planning; a review gate, a review status
/// or ready fan-in in review; then the role or active phase; then planning
/// when a session or phases exist; else requirements understanding.
pub open spec fn spec_workflow_current_stage(
    task: JVal,
    longway: JVal,
    session: JVal,
    state_contract: JVal,
    truth: JVal,
) -> Seq<char> {
    let subagent_status = match jstr_at(task, seq!["subagent_lifecycle"@, "status"@]) {
        Some(s) => Some(s),
        None => jstr_at(task, seq!["subagent_fan_in"@, "status"@]),
    };
    let role = ascii_lowercase(text_or_empty(jstr_field(task, "assigned_role"@)));
    let agent = ascii_lowercase(text_or_empty(jstr_field(task, "assigned_agent_id"@)));
    let active_subagent = subagent_status == Some("spawned"@) || subagent_status == Some(
        "acknowledged"@,
    ) || subagent_status == Some("running"@);
    let approval = text_or_empty(jstr_field(longway, "approval_state"@));
    let lifecycle = text_or_empty(jstr_field(longway, "lifecycle_state"@));
    let phase = ascii_lowercase(text_or_empty(jstr_field(longway, "active_phase_name"@)));
    let gate = text_or_empty(jstr_field(state_contract, "active_gate"@));
    let review_status = match jstr_at(task, seq!["review_lifecycle"@, "status"@]) {
        Some(s) => Some(s),
        None => jstr_at(task, seq!["review_fan_in"@, "outcome"@]),
    };
    let fan_in_ready = opt_bool(jget(truth, "fan_in_ready"@)) == Some(true);
    if verification_done(task) {
        "verification"@
    } else if active_subagent && spec_workflow_role_is_exploration(role, agent) {
        "exploration"@
    } else if active_subagent && spec_workflow_role_is_modification(role, agent) {
        "modification"@
    } else if approval == "pending_longway_approval"@ || lifecycle == "planning"@ || lifecycle
        == "planned"@ || phase == "plan"@ || phase == "way"@ {
        "planning"@
    } else if contains_seq(gate, "review"@) || review_status is Some || fan_in_ready {
        "review"@
    } else if spec_workflow_role_is_exploration(role, agent) || phase == "inspect"@ || phase
        == "explore"@ || phase == "research"@ {
        "exploration"@
    } else if spec_workflow_role_is_modification(role, agent) || phase == "mutate"@ || phase
        == "execute"@ {
        "modification"@
    } else if session is Object || (match opt_u64(jget(longway, "phase_count"@)) {
        Some(n) => n > 0,
        None => false,
    }) {
        "planning"@
    } else {
        "requirements_understanding"@
    }
}

fn str_at2<'a>(j: &'a Json, a: &str, b: &str) -> (r: Option<&'a str>)
    ensures
        crate::strings::opt_view(r) == jstr_at(jview(*j), seq![a@, b@]),
{
    let keys: [&str; 2] = [a, b];
    let ks = keys.as_slice();
    assert(ks@.map_values(|k: &str| k@) =~= seq![a@, b@]);
    j.str_at(ks)
}

fn field_or_empty<'a>(j: &'a Json, key: &str) -> (r: &'a str)
    ensures
        r@ == text_or_empty(jstr_field(jview(*j), key@)),
{
    match j.str_field(key) {
        Some(s) => s,
        None => "",
    }
}

pub fn workflow_current_stage(
    current_task_card: &Json,
    longway: &Json,
    task_session_state: &Json,
    state_contract: &Json,
    run_truth_surface: &Json,
) -> (r: &'static str)
    ensures
        r@ == spec_workflow_current_stage(
            jview(*current_task_card),
            jview(*longway),
            jview(*task_session_state),
            jview(*state_contract),
            jview(*run_truth_surface),
        ),
{
    let task = current_task_card;
    let v = task.str_field("verification_state");
    if opt_str_is(v, "passed") || opt_str_is(v, "verified") || opt_str_is(v, "completed") {
        return "verification";
    }
    let subagent_status = match str_at2(task, "subagent_lifecycle", "status") {
        Some(s) => Some(s),
        None => str_at2(task, "subagent_fan_in", "status"),
    };
    let role = to_ascii_lowercase(field_or_empty(task, "assigned_role"));
    let agent = to_ascii_lowercase(field_or_empty(task, "assigned_agent_id"));
    let active_subagent = opt_str_is(subagent_status, "spawned") || opt_str_is(
        subagent_status,
        "acknowledged",
    ) || opt_str_is(subagent_status, "running");
    let exploring = workflow_role_is_exploration(role.as_str(), agent.as_str());
    let modifying = workflow_role_is_modification(role.as_str(), agent.as_str());
    if active_subagent && exploring {
        return "exploration";
    }
    if active_subagent && modifying {
        return "modification";
    }
    let approval = field_or_empty(longway, "approval_state");
    let lifecycle = field_or_empty(longway, "lifecycle_state");
    let phase = to_ascii_lowercase(field_or_empty(longway, "active_phase_name"));
    let p = phase.as_str();
    if str_eq(approval, "pending_longway_approval") || str_eq(lifecycle, "planning") || str_eq(
        lifecycle,
        "planned",
    ) || str_eq(p, "plan") || str_eq(p, "way") {
        return "planning";
    }
    let gate = field_or_empty(state_contract, "active_gate");
    let review_status = match str_at2(task, "review_lifecycle", "status") {
        Some(s) => Some(s),
        None => str_at2(task, "review_fan_in", "outcome"),
    };
    let fan_in_ready = match run_truth_surface.bool_field("fan_in_ready") {
        Some(b) => b,
        None => false,
    };
    if contains(gate, "review") || review_status.is_some() || fan_in_ready {
        return "review";
    }
    if exploring || str_eq(p, "inspect") || str_eq(p, "explore") || str_eq(p, "research") {
        return "exploration";
    }
    if modifying || str_eq(p, "mutate") || str_eq(p, "execute") {
        return "modification";
    }
    let phases = match longway.u64_field("phase_count") {
        Some(n) => n > 0,
        None => false,
    };
    if task_session_state.is_object() || phases {
        return "planning";
    }
    "requirements_understanding"
}

/// The stages of the loop, in order.
pub open spec fn stage_ids() -> Seq<Seq<char>> {
    seq![
        "requirements_understanding"@,
        "planning"@,
        "exploration"@,
        "modification"@,
        "review"@,
        "verification"@,
    ]
}

/// The persisted evidence shown for a stage.
pub open spec fn spec_stage_evidence(
    stage: Seq<char>,
    task: JVal,
    longway: JVal,
    session: JVal,
    state_contract: JVal,
    truth: JVal,
) -> JVal {
    if stage == "requirements_understanding"@ {
        JVal::Object(
            seq![
                ("task_card_id"@, jget_or(task, "task_card_id"@, JVal::Null)),
                (
                    "title"@,
                    match jget(task, "title"@) {
                        Some(t) => spec_checkpoint_text(Some(t), 120),
                        None => JVal::Null,
                    },
                ),
            ],
        )
    } else if stage == "planning"@ {
        JVal::Object(
            seq![
                ("phase_count"@, jget_or(longway, "phase_count"@, JVal::Null)),
                ("planned_row_count"@, jget_or(longway, "planned_row_count"@, JVal::Null)),
                ("approval_state"@, jget_or(longway, "approval_state"@, JVal::Null)),
            ],
        )
    } else if stage == "exploration"@ {
        JVal::Object(
            seq![
                (
                    "evidence_need"@,
                    crate::status_templates::jpath_or(
                        task,
                        seq!["routing_trace"@, "evidence_need"@],
                        JVal::Null,
                    ),
                ),
                ("assigned_agent_id"@, jget_or(task, "assigned_agent_id"@, JVal::Null)),
            ],
        )
    } else if stage == "modification"@ {
        JVal::Object(
            seq![
                (
                    "mutation_intent"@,
                    crate::status_templates::jpath_or(
                        task,
                        seq!["routing_trace"@, "mutation_intent"@],
                        JVal::Null,
                    ),
                ),
                (
                    "delegated_agent_status"@,
                    crate::status_templates::jpath_or(
                        session,
                        seq!["delegated_agent"@, "status"@],
                        JVal::Null,
                    ),
                ),
            ],
        )
    } else if stage == "review"@ {
        JVal::Object(
            seq![
                ("active_gate"@, jget_or(state_contract, "active_gate"@, JVal::Null)),
                (
                    "review_outcome"@,
                    crate::status_templates::jpath_or(
                        task,
                        seq!["review_fan_in"@, "outcome"@],
                        JVal::Null,
                    ),
                ),
                ("fan_in_ready"@, jget_or(truth, "fan_in_ready"@, JVal::Null)),
            ],
        )
    } else if stage == "verification"@ {
        JVal::Object(
            seq![
                ("verification_state"@, jget_or(task, "verification_state"@, JVal::Null)),
                (
                    "validation_count"@,
                    crate::status_templates::jpath_or(
                        task,
                        seq!["verification_capsule"@, "validation"@, "count"@],
                        JVal::Null,
                    ),
                ),
            ],
        )
    } else {
        JVal::Null
    }
}

pub fn workflow_stage_evidence(
    stage_id: &str,
    current_task_card: &Json,
    longway: &Json,
    task_session_state: &Json,
    state_contract: &Json,
    run_truth_surface: &Json,
) -> (r: Json)
    ensures
        jview(r) == spec_stage_evidence(
            stage_id@,
            jview(*current_task_card),
            jview(*longway),
            jview(*task_session_state),
            jview(*state_contract),
            jview(*run_truth_surface),
        ),
{
    let task = current_task_card;
    let mut m: Vec<(String, Json)> = Vec::new();
    if str_eq(stage_id, "requirements_understanding") {
        m.push(member("task_card_id", get_or(task, "task_card_id", Json::Null)));
        let title = match task.get("title") {
            Some(t) => summarize_checkpoint_text(Some(t), 120),
            None => Json::Null,
        };
        m.push(member("title", title));
    } else if str_eq(stage_id, "planning") {
        m.push(member("phase_count", get_or(longway, "phase_count", Json::Null)));
        m.push(member("planned_row_count", get_or(longway, "planned_row_count", Json::Null)));
        m.push(member("approval_state", get_or(longway, "approval_state", Json::Null)));
    } else if str_eq(stage_id, "exploration") {
        m.push(
            member(
                "evidence_need",
                crate::status_templates::path_or(task, "routing_trace", "evidence_need", Json::Null),
            ),
        );
        m.push(member("assigned_agent_id", get_or(task, "assigned_agent_id", Json::Null)));
    } else if str_eq(stage_id, "modification") {
        m.push(
            member(
                "mutation_intent",
                crate::status_templates::path_or(task, "routing_trace", "mutation_intent", Json::Null),
            ),
        );
        m.push(
            member(
                "delegated_agent_status",
                crate::status_templates::path_or(
                    task_session_state,
                    "delegated_agent",
                    "status",
                    Json::Null,
                ),
            ),
        );
    } else if str_eq(stage_id, "review") {
        m.push(member("active_gate", get_or(state_contract, "active_gate", Json::Null)));
        m.push(
            member(
                "review_outcome",
                crate::status_templates::path_or(task, "review_fan_in", "outcome", Json::Null),
            ),
        );
        m.push(member("fan_in_ready", get_or(run_truth_surface, "fan_in_ready", Json::Null)));
    } else if str_eq(stage_id, "verification") {
        m.push(member("verification_state", get_or(task, "verification_state", Json::Null)));
        m.push(
            member(
                "validation_count",
                crate::status_templates::path_or3(
                    task,
                    "verification_capsule",
                    "validation",
                    "count",
                    Json::Null,
                ),
            ),
        );
    } else {
        return Json::Null;
    }
    let r = object_of(m);
    assert(members_view(m@) =~= spec_stage_evidence(
        stage_id@,
        jview(*current_task_card),
        jview(*longway),
        jview(*task_session_state),
        jview(*state_contract),
        jview(*run_truth_surface),
    )->Object_0);
    r
}

/// The status of stage `i` when the run is at stage `current`: earlier
/// stages are completed (and verification once verified), the current one is
/// active, later ones pending.
pub open spec fn stage_status(i: int, current: int, verified: bool) -> Seq<char> {
    if i < current || (verified && i == 5) {
        "completed"@
    } else if i == current {
        "active"@
    } else {
        "pending"@
    }
}

/// The position of the current stage (0 for an unknown one).
pub open spec fn stage_index(stage: Seq<char>) -> int {
    if stage == "planning"@ {
        1
    } else if stage == "exploration"@ {
        2
    } else if stage == "modification"@ {
        3
    } else if stage == "review"@ {
        4
    } else if stage == "verification"@ {
        5
    } else {
        0
    }
}

/// The workflow loop of a run (`null` when neither the task card nor the
/// LongWay is an object).
pub open spec fn spec_workflow_loop(
    task: JVal,
    longway: JVal,
    session: JVal,
    state_contract: JVal,
    truth: JVal,
) -> JVal {
    if !(task is Object) && !(longway is Object) {
        JVal::Null
    } else {
        let current = spec_workflow_current_stage(task, longway, session, state_contract, truth);
        let verified = verification_done(task);
        let ci = stage_index(current);
        JVal::Object(
            seq![
                ("schema"@, JVal::Str("ccc.workflow_loop.v1"@)),
                ("source"@, JVal::Str("persisted_longway_task_card_truth"@)),
                ("operator_visible"@, JVal::Bool(true)),
                ("public_commands"@, JVal::Bool(false)),
                ("current_stage"@, JVal::Str(current)),
                (
                    "status"@,
                    JVal::Str(
                        if verified {
                            "completed"@
                        } else {
                            "active"@
                        },
                    ),
                ),
                (
                    "summary"@,
                    JVal::Str(
                        "requirements understanding -> planning -> exploration -> modification -> review -> verification"@,
                    ),
                ),
                (
                    "stages"@,
                    JVal::Array(
                        Seq::new(
                            6,
                            |i: int|
                                JVal::Object(
                                    seq![
                                        ("id"@, JVal::Str(stage_ids()[i])),
                                        ("label"@, JVal::Str(spec_workflow_stage_label(stage_ids()[i]))),
                                        ("status"@, JVal::Str(stage_status(i, ci, verified))),
                                        (
                                            "evidence"@,
                                            spec_stage_evidence(
                                                stage_ids()[i],
                                                task,
                                                longway,
                                                session,
                                                state_contract,
                                                truth,
                                            ),
                                        ),
                                    ],
                                ),
                        ),
                    ),
                ),
            ],
        )
    }
}

pub fn create_workflow_loop_payload(
    current_task_card: &Json,
    longway: &Json,
    task_session_state: &Json,
    state_contract: &Json,
    run_truth_surface: &Json,
) -> (r: Json)
    ensures
        jview(r) == spec_workflow_loop(
            jview(*current_task_card),
            jview(*longway),
            jview(*task_session_state),
            jview(*state_contract),
            jview(*run_truth_surface),
        ),
{
    if !current_task_card.is_object() && !longway.is_object() {
        return Json::Null;
    }
    let current = workflow_current_stage(
        current_task_card,
        longway,
        task_session_state,
        state_contract,
        run_truth_surface,
    );
    let v = current_task_card.str_field("verification_state");
    let verified = opt_str_is(v, "passed") || opt_str_is(v, "verified") || opt_str_is(
        v,
        "completed",
    );
    let ci: usize = if str_eq(current, "planning") {
        1
    } else if str_eq(current, "exploration") {
        2
    } else if str_eq(current, "modification") {
        3
    } else if str_eq(current, "review") {
        4
    } else if str_eq(current, "verification") {
        5
    } else {
        0
    };
    let ids: Vec<&str> = vec![
        "requirements_understanding",
        "planning",
        "exploration",
        "modification",
        "review",
        "verification",
    ];
    assert(ids@.map_values(|s: &str| s@) =~= stage_ids());
    let ghost tv = jview(*current_task_card);
    let ghost lv = jview(*longway);
    let ghost sv = jview(*task_session_state);
    let ghost cv = jview(*state_contract);
    let ghost rv = jview(*run_truth_surface);
    let mut stages: Vec<Json> = Vec::new();
    let mut i: usize = 0;
    while i < 6
        invariant
            i <= 6,
            ids@.len() == 6,
            ids@.map_values(|s: &str| s@) == stage_ids(),
            ci as int == stage_index(current@),
            tv == jview(*current_task_card),
            lv == jview(*longway),
            sv == jview(*task_session_state),
            cv == jview(*state_contract),
            rv == jview(*run_truth_surface),
            stages@.len() == i,
            forall|k: int|
                0 <= k < i ==> jview(#[trigger] stages@[k]) == JVal::Object(
                    seq![
                        ("id"@, JVal::Str(stage_ids()[k])),
                        ("label"@, JVal::Str(spec_workflow_stage_label(stage_ids()[k]))),
                        ("status"@, JVal::Str(stage_status(k, ci as int, verified))),
                        ("evidence"@, spec_stage_evidence(stage_ids()[k], tv, lv, sv, cv, rv)),
                    ],
                ),
        decreases 6 - i,
    {
        let id = ids[i];
        assert(id@ == stage_ids()[i as int]);
        let status: &str = if i < ci || (verified && i == 5) {
            "completed"
        } else if i == ci {
            "active"
        } else {
            "pending"
        };
        let mut s: Vec<(String, Json)> = Vec::new();
        s.push(member("id", jstr(id)));
        s.push(member("label", jstr(workflow_stage_label(id))));
        s.push(member("status", jstr(status)));
        s.push(
            member(
                "evidence",
                workflow_stage_evidence(
                    id,
                    current_task_card,
                    longway,
                    task_session_state,
                    state_contract,
                    run_truth_surface,
                ),
            ),
        );
        let o = object_of(s);
        assert(members_view(s@) =~= seq![
            ("id"@, JVal::Str(stage_ids()[i as int])),
            ("label"@, JVal::Str(spec_workflow_stage_label(stage_ids()[i as int]))),
            ("status"@, JVal::Str(stage_status(i as int, ci as int, verified))),
            ("evidence"@, spec_stage_evidence(stage_ids()[i as int], tv, lv, sv, cv, rv)),
        ]);
        stages.push(o);
        i = i + 1;
    }
    let ghost stages_view = jviews(stages@);
    proof {
        crate::json::lemma_array_view(stages);
    }
    let mut m: Vec<(String, Json)> = Vec::new();
    m.push(member("schema", jstr("ccc.workflow_loop.v1")));
    m.push(member("source", jstr("persisted_longway_task_card_truth")));
    m.push(member("operator_visible", jbool(true)));
    m.push(member("public_commands", jbool(false)));
    m.push(member("current_stage", jstr(current)));
    m.push(
        member(
            "status",
            jstr(
                if verified {
                    "completed"
                } else {
                    "active"
                },
            ),
        ),
    );
    m.push(
        member(
            "summary",
            jstr(
                "requirements understanding -> planning -> exploration -> modification -> review -> verification",
            ),
        ),
    );
    m.push(member("stages", Json::Array(stages)));
    let r = object_of(m);
    proof {
        let sp = spec_workflow_loop(tv, lv, sv, cv, rv);
        assert(stages_view =~= sp->Object_0[7].1->Array_0);
        assert(members_view(m@) =~= sp->Object_0);
    }
    r
}

} // verus!
