//! A new task card for a role: what the task is, who takes it and in which
//! sandbox, with the role's config, its delegation plan and an empty
//! lifecycle.

use vstd::prelude::*;
use crate::json::{jempty_array, jstr, jview, member, members_view, object_of, JVal, Json};

verus! {

/// The sandbox a role works in.
pub open spec fn spec_role_sandbox(role: Seq<char>) -> Seq<char> {
    if crate::roles::spec_is_read_only_role(role) {
        "read-only"@
    } else {
        "workspace-write"@
    }
}

/// Part 1 of `task_card_members`.
pub open spec fn task_card_members_1(run_id: Seq<char>, task_card_id: Seq<char>, title: Seq<char>, intent: Seq<char>, scope: Seq<char>, execution_prompt: Seq<char>, acceptance: Seq<char>, assigned_role: Seq<char>, timestamp: Seq<char>, role_config_snapshot: JVal) -> Seq<(Seq<char>, JVal)> {
    seq![
        ("task_card_id"@, JVal::Str(task_card_id)),
        ("run_id"@, JVal::Str(run_id)),
        ("title"@, JVal::Str(title)),
        ("intent"@, JVal::Str(intent)),
        ("scope"@, JVal::Str(scope)),
    ]
}

fn push_task_card_members_1(m: &mut Vec<(String, Json)>, run_id: &str, task_card_id: &str, title: &str, intent: &str, scope: &str, execution_prompt: &str, acceptance: &str, assigned_role: &str, timestamp: &str, role_config_snapshot: &Json)
    ensures
        members_view(final(m)@) == members_view(old(m)@) + task_card_members_1(run_id@, task_card_id@, title@, intent@, scope@, execution_prompt@, acceptance@, assigned_role@, timestamp@, jview(*role_config_snapshot)),
{
    let ghost start = members_view(m@);
    m.push(member("task_card_id", jstr(task_card_id)));
    m.push(member("run_id", jstr(run_id)));
    m.push(member("title", jstr(title)));
    m.push(member("intent", jstr(intent)));
    m.push(member("scope", jstr(scope)));
    assert(members_view(m@) =~= start + task_card_members_1(run_id@, task_card_id@, title@, intent@, scope@, execution_prompt@, acceptance@, assigned_role@, timestamp@, jview(*role_config_snapshot)));
}

/// Part 2 of `task_card_members`.
pub open spec fn task_card_members_2(run_id: Seq<char>, task_card_id: Seq<char>, title: Seq<char>, intent: Seq<char>, scope: Seq<char>, execution_prompt: Seq<char>, acceptance: Seq<char>, assigned_role: Seq<char>, timestamp: Seq<char>, role_config_snapshot: JVal) -> Seq<(Seq<char>, JVal)> {
    seq![
        ("execution_prompt"@, JVal::Str(execution_prompt)),
        ("way_attempt_id"@, JVal::Null),
        ("workflow_skill_id"@, JVal::Null),
        ("workflow_step_index"@, JVal::Null),
        ("workflow_step_skill_id"@, JVal::Null),
    ]
}

fn push_task_card_members_2(m: &mut Vec<(String, Json)>, run_id: &str, task_card_id: &str, title: &str, intent: &str, scope: &str, execution_prompt: &str, acceptance: &str, assigned_role: &str, timestamp: &str, role_config_snapshot: &Json)
    ensures
        members_view(final(m)@) == members_view(old(m)@) + task_card_members_2(run_id@, task_card_id@, title@, intent@, scope@, execution_prompt@, acceptance@, assigned_role@, timestamp@, jview(*role_config_snapshot)),
{
    let ghost start = members_view(m@);
    m.push(member("execution_prompt", jstr(execution_prompt)));
    m.push(member("way_attempt_id", Json::Null));
    m.push(member("workflow_skill_id", Json::Null));
    m.push(member("workflow_step_index", Json::Null));
    m.push(member("workflow_step_skill_id", Json::Null));
    assert(members_view(m@) =~= start + task_card_members_2(run_id@, task_card_id@, title@, intent@, scope@, execution_prompt@, acceptance@, assigned_role@, timestamp@, jview(*role_config_snapshot)));
}

/// Part 3 of `task_card_members`.
pub open spec fn task_card_members_3(run_id: Seq<char>, task_card_id: Seq<char>, title: Seq<char>, intent: Seq<char>, scope: Seq<char>, execution_prompt: Seq<char>, acceptance: Seq<char>, assigned_role: Seq<char>, timestamp: Seq<char>, role_config_snapshot: JVal) -> Seq<(Seq<char>, JVal)> {
    seq![
        ("workflow_next_step_skill_id"@, JVal::Null),
        ("task_kind"@, JVal::Str(crate::roles::spec_task_kind_for_role(assigned_role))),
        ("acceptance_checks"@, JVal::Array(Seq::empty())),
        ("review_of_task_card_ids"@, JVal::Array(Seq::empty())),
        ("depends_on_task_card_ids"@, JVal::Array(Seq::empty())),
    ]
}

fn push_task_card_members_3(m: &mut Vec<(String, Json)>, run_id: &str, task_card_id: &str, title: &str, intent: &str, scope: &str, execution_prompt: &str, acceptance: &str, assigned_role: &str, timestamp: &str, role_config_snapshot: &Json)
    ensures
        members_view(final(m)@) == members_view(old(m)@) + task_card_members_3(run_id@, task_card_id@, title@, intent@, scope@, execution_prompt@, acceptance@, assigned_role@, timestamp@, jview(*role_config_snapshot)),
{
    let ghost start = members_view(m@);
    m.push(member("workflow_next_step_skill_id", Json::Null));
    m.push(member("task_kind", jstr(crate::roles::task_kind_for_role(assigned_role))));
    m.push(member("acceptance_checks", jempty_array()));
    m.push(member("review_of_task_card_ids", jempty_array()));
    m.push(member("depends_on_task_card_ids", jempty_array()));
    assert(members_view(m@) =~= start + task_card_members_3(run_id@, task_card_id@, title@, intent@, scope@, execution_prompt@, acceptance@, assigned_role@, timestamp@, jview(*role_config_snapshot)));
}

/// Part 4 of `task_card_members`.
pub open spec fn task_card_members_4(run_id: Seq<char>, task_card_id: Seq<char>, title: Seq<char>, intent: Seq<char>, scope: Seq<char>, execution_prompt: Seq<char>, acceptance: Seq<char>, assigned_role: Seq<char>, timestamp: Seq<char>, role_config_snapshot: JVal) -> Seq<(Seq<char>, JVal)> {
    seq![
        ("fan_in_from_task_card_ids"@, JVal::Array(Seq::empty())),
        ("node_kind"@, JVal::Str("execution"@)),
        ("status"@, JVal::Str("active"@)),
        ("owner_role"@, JVal::Str("orchestrator"@)),
        ("assigned_role"@, JVal::Str(assigned_role)),
    ]
}

fn push_task_card_members_4(m: &mut Vec<(String, Json)>, run_id: &str, task_card_id: &str, title: &str, intent: &str, scope: &str, execution_prompt: &str, acceptance: &str, assigned_role: &str, timestamp: &str, role_config_snapshot: &Json)
    ensures
        members_view(final(m)@) == members_view(old(m)@) + task_card_members_4(run_id@, task_card_id@, title@, intent@, scope@, execution_prompt@, acceptance@, assigned_role@, timestamp@, jview(*role_config_snapshot)),
{
    let ghost start = members_view(m@);
    m.push(member("fan_in_from_task_card_ids", jempty_array()));
    m.push(member("node_kind", jstr("execution")));
    m.push(member("status", jstr("active")));
    m.push(member("owner_role", jstr("orchestrator")));
    m.push(member("assigned_role", jstr(assigned_role)));
    assert(members_view(m@) =~= start + task_card_members_4(run_id@, task_card_id@, title@, intent@, scope@, execution_prompt@, acceptance@, assigned_role@, timestamp@, jview(*role_config_snapshot)));
}

/// Part 5 of `task_card_members`.
pub open spec fn task_card_members_5(run_id: Seq<char>, task_card_id: Seq<char>, title: Seq<char>, intent: Seq<char>, scope: Seq<char>, execution_prompt: Seq<char>, acceptance: Seq<char>, assigned_role: Seq<char>, timestamp: Seq<char>, role_config_snapshot: JVal) -> Seq<(Seq<char>, JVal)> {
    seq![
        ("assigned_agent_id"@, crate::json::jopt_str(crate::roles::spec_agent_id_for_role(assigned_role))),
        ("sandbox_mode"@, JVal::Str(spec_role_sandbox(assigned_role))),
        ("sandbox_rationale"@, JVal::Str(crate::roles::spec_sandbox_rationale(assigned_role))),
        ("expertise_framing"@, crate::role_payloads::spec_framing(assigned_role, "single_scoped_task"@)),
        ("role_config_snapshot"@, role_config_snapshot),
    ]
}

fn push_task_card_members_5(m: &mut Vec<(String, Json)>, run_id: &str, task_card_id: &str, title: &str, intent: &str, scope: &str, execution_prompt: &str, acceptance: &str, assigned_role: &str, timestamp: &str, role_config_snapshot: &Json)
    ensures
        members_view(final(m)@) == members_view(old(m)@) + task_card_members_5(run_id@, task_card_id@, title@, intent@, scope@, execution_prompt@, acceptance@, assigned_role@, timestamp@, jview(*role_config_snapshot)),
{
    let ghost start = members_view(m@);
    m.push(member("assigned_agent_id", crate::json::jopt(crate::roles::agent_id_for_role(assigned_role))));
    m.push(member("sandbox_mode", jstr(crate::roles::sandbox_mode_for_role(assigned_role))));
    m.push(member("sandbox_rationale", jstr(crate::roles::sandbox_rationale_for_role(assigned_role))));
    m.push(member("expertise_framing", crate::role_payloads::task_expertise_framing_for_role(assigned_role, "single_scoped_task")));
    m.push(member("role_config_snapshot", role_config_snapshot.deep_clone()));
    assert(members_view(m@) =~= start + task_card_members_5(run_id@, task_card_id@, title@, intent@, scope@, execution_prompt@, acceptance@, assigned_role@, timestamp@, jview(*role_config_snapshot)));
}

/// Part 6 of `task_card_members`.
pub open spec fn task_card_members_6(run_id: Seq<char>, task_card_id: Seq<char>, title: Seq<char>, intent: Seq<char>, scope: Seq<char>, execution_prompt: Seq<char>, acceptance: Seq<char>, assigned_role: Seq<char>, timestamp: Seq<char>, role_config_snapshot: JVal, plan: JVal) -> Seq<(Seq<char>, JVal)> {
    seq![
        ("delegation_plan"@, plan),
        ("parallel_fanout"@, JVal::Null),
        ("review_policy"@, JVal::Null),
        ("model_tier_intent"@, JVal::Str(crate::roles_config::spec_model_tier_intent(role_config_snapshot))),
        ("child_aggregation_contract"@, JVal::Str("explicit_fan_in_summary"@)),
    ]
}

fn push_task_card_members_6(m: &mut Vec<(String, Json)>, run_id: &str, task_card_id: &str, title: &str, intent: &str, scope: &str, execution_prompt: &str, acceptance: &str, assigned_role: &str, timestamp: &str, role_config_snapshot: &Json, plan: Json)
    ensures
        members_view(final(m)@) == members_view(old(m)@) + task_card_members_6(run_id@, task_card_id@, title@, intent@, scope@, execution_prompt@, acceptance@, assigned_role@, timestamp@, jview(*role_config_snapshot), jview(plan)),
{
    let ghost start = members_view(m@);
    let ghost plan_view = jview(plan);
    m.push(member("delegation_plan", plan));
    m.push(member("parallel_fanout", Json::Null));
    m.push(member("review_policy", Json::Null));
    m.push(member("model_tier_intent", jstr(crate::roles_config::role_model_tier_intent(role_config_snapshot))));
    m.push(member("child_aggregation_contract", jstr("explicit_fan_in_summary")));
    assert(members_view(m@) =~= start + task_card_members_6(run_id@, task_card_id@, title@, intent@, scope@, execution_prompt@, acceptance@, assigned_role@, timestamp@, jview(*role_config_snapshot), plan_view));
}

/// Part 7 of `task_card_members`.
pub open spec fn task_card_members_7(run_id: Seq<char>, task_card_id: Seq<char>, title: Seq<char>, intent: Seq<char>, scope: Seq<char>, execution_prompt: Seq<char>, acceptance: Seq<char>, assigned_role: Seq<char>, timestamp: Seq<char>, role_config_snapshot: JVal) -> Seq<(Seq<char>, JVal)> {
    seq![
        ("fan_in_barrier_semantics"@, JVal::Str("explicit_wait_for_all_sources"@)),
        ("orchestrator_review_gate"@, JVal::Str("after_child_completion"@)),
        ("acceptance"@, JVal::Str(acceptance)),
        ("input_handoff_id"@, JVal::Null),
        ("output_handoff_id"@, JVal::Null),
    ]
}

fn push_task_card_members_7(m: &mut Vec<(String, Json)>, run_id: &str, task_card_id: &str, title: &str, intent: &str, scope: &str, execution_prompt: &str, acceptance: &str, assigned_role: &str, timestamp: &str, role_config_snapshot: &Json)
    ensures
        members_view(final(m)@) == members_view(old(m)@) + task_card_members_7(run_id@, task_card_id@, title@, intent@, scope@, execution_prompt@, acceptance@, assigned_role@, timestamp@, jview(*role_config_snapshot)),
{
    let ghost start = members_view(m@);
    m.push(member("fan_in_barrier_semantics", jstr("explicit_wait_for_all_sources")));
    m.push(member("orchestrator_review_gate", jstr("after_child_completion")));
    m.push(member("acceptance", jstr(acceptance)));
    m.push(member("input_handoff_id", Json::Null));
    m.push(member("output_handoff_id", Json::Null));
    assert(members_view(m@) =~= start + task_card_members_7(run_id@, task_card_id@, title@, intent@, scope@, execution_prompt@, acceptance@, assigned_role@, timestamp@, jview(*role_config_snapshot)));
}

/// Part 8 of `task_card_members`.
pub open spec fn task_card_members_8(run_id: Seq<char>, task_card_id: Seq<char>, title: Seq<char>, intent: Seq<char>, scope: Seq<char>, execution_prompt: Seq<char>, acceptance: Seq<char>, assigned_role: Seq<char>, timestamp: Seq<char>, role_config_snapshot: JVal) -> Seq<(Seq<char>, JVal)> {
    seq![
        ("verification_state"@, JVal::Str("pending"@)),
        ("review_pass_count"@, JVal::Num(0)),
        ("latest_failure"@, JVal::Null),
        ("latest_model_launch"@, JVal::Null),
        ("ownership_chain"@, JVal::Null),
    ]
}

fn push_task_card_members_8(m: &mut Vec<(String, Json)>, run_id: &str, task_card_id: &str, title: &str, intent: &str, scope: &str, execution_prompt: &str, acceptance: &str, assigned_role: &str, timestamp: &str, role_config_snapshot: &Json)
    ensures
        members_view(final(m)@) == members_view(old(m)@) + task_card_members_8(run_id@, task_card_id@, title@, intent@, scope@, execution_prompt@, acceptance@, assigned_role@, timestamp@, jview(*role_config_snapshot)),
{
    let ghost start = members_view(m@);
    m.push(member("verification_state", jstr("pending")));
    m.push(member("review_pass_count", crate::json::jint(0)));
    m.push(member("latest_failure", Json::Null));
    m.push(member("latest_model_launch", Json::Null));
    m.push(member("ownership_chain", Json::Null));
    assert(members_view(m@) =~= start + task_card_members_8(run_id@, task_card_id@, title@, intent@, scope@, execution_prompt@, acceptance@, assigned_role@, timestamp@, jview(*role_config_snapshot)));
}

/// Part 9 of `task_card_members`.
pub open spec fn task_card_members_9(run_id: Seq<char>, task_card_id: Seq<char>, title: Seq<char>, intent: Seq<char>, scope: Seq<char>, execution_prompt: Seq<char>, acceptance: Seq<char>, assigned_role: Seq<char>, timestamp: Seq<char>, role_config_snapshot: JVal) -> Seq<(Seq<char>, JVal)> {
    seq![
        ("thread_ids"@, JVal::Array(Seq::empty())),
        ("completed_by_agent_id"@, JVal::Null),
        ("created_at"@, JVal::Str(timestamp)),
        ("updated_at"@, JVal::Str(timestamp)),
        ("completed_at"@, JVal::Null),
    ]
}

fn push_task_card_members_9(m: &mut Vec<(String, Json)>, run_id: &str, task_card_id: &str, title: &str, intent: &str, scope: &str, execution_prompt: &str, acceptance: &str, assigned_role: &str, timestamp: &str, role_config_snapshot: &Json)
    ensures
        members_view(final(m)@) == members_view(old(m)@) + task_card_members_9(run_id@, task_card_id@, title@, intent@, scope@, execution_prompt@, acceptance@, assigned_role@, timestamp@, jview(*role_config_snapshot)),
{
    let ghost start = members_view(m@);
    m.push(member("thread_ids", jempty_array()));
    m.push(member("completed_by_agent_id", Json::Null));
    m.push(member("created_at", jstr(timestamp)));
    m.push(member("updated_at", jstr(timestamp)));
    m.push(member("completed_at", Json::Null));
    assert(members_view(m@) =~= start + task_card_members_9(run_id@, task_card_id@, title@, intent@, scope@, execution_prompt@, acceptance@, assigned_role@, timestamp@, jview(*role_config_snapshot)));
}

/// The members of a new task card for a role.
pub open spec fn task_card_members(run_id: Seq<char>, task_card_id: Seq<char>, title: Seq<char>, intent: Seq<char>, scope: Seq<char>, execution_prompt: Seq<char>, acceptance: Seq<char>, assigned_role: Seq<char>, timestamp: Seq<char>, role_config_snapshot: JVal, plan: JVal) -> Seq<(Seq<char>, JVal)> {
    task_card_members_1(run_id, task_card_id, title, intent, scope, execution_prompt, acceptance, assigned_role, timestamp, role_config_snapshot) + task_card_members_2(run_id, task_card_id, title, intent, scope, execution_prompt, acceptance, assigned_role, timestamp, role_config_snapshot) + task_card_members_3(run_id, task_card_id, title, intent, scope, execution_prompt, acceptance, assigned_role, timestamp, role_config_snapshot) + task_card_members_4(run_id, task_card_id, title, intent, scope, execution_prompt, acceptance, assigned_role, timestamp, role_config_snapshot) + task_card_members_5(run_id, task_card_id, title, intent, scope, execution_prompt, acceptance, assigned_role, timestamp, role_config_snapshot) + task_card_members_6(run_id, task_card_id, title, intent, scope, execution_prompt, acceptance, assigned_role, timestamp, role_config_snapshot, plan) + task_card_members_7(run_id, task_card_id, title, intent, scope, execution_prompt, acceptance, assigned_role, timestamp, role_config_snapshot) + task_card_members_8(run_id, task_card_id, title, intent, scope, execution_prompt, acceptance, assigned_role, timestamp, role_config_snapshot) + task_card_members_9(run_id, task_card_id, title, intent, scope, execution_prompt, acceptance, assigned_role, timestamp, role_config_snapshot)
}

fn push_task_card_members(m: &mut Vec<(String, Json)>, run_id: &str, task_card_id: &str, title: &str, intent: &str, scope: &str, execution_prompt: &str, acceptance: &str, assigned_role: &str, timestamp: &str, role_config_snapshot: &Json, plan: Json)
    ensures
        members_view(final(m)@) == members_view(old(m)@) + task_card_members(run_id@, task_card_id@, title@, intent@, scope@, execution_prompt@, acceptance@, assigned_role@, timestamp@, jview(*role_config_snapshot), jview(plan)),
{
    let ghost start = members_view(m@);
    let ghost plan_view = jview(plan);
    push_task_card_members_1(m, run_id, task_card_id, title, intent, scope, execution_prompt, acceptance, assigned_role, timestamp, role_config_snapshot);
    push_task_card_members_2(m, run_id, task_card_id, title, intent, scope, execution_prompt, acceptance, assigned_role, timestamp, role_config_snapshot);
    push_task_card_members_3(m, run_id, task_card_id, title, intent, scope, execution_prompt, acceptance, assigned_role, timestamp, role_config_snapshot);
    push_task_card_members_4(m, run_id, task_card_id, title, intent, scope, execution_prompt, acceptance, assigned_role, timestamp, role_config_snapshot);
    push_task_card_members_5(m, run_id, task_card_id, title, intent, scope, execution_prompt, acceptance, assigned_role, timestamp, role_config_snapshot);
    push_task_card_members_6(m, run_id, task_card_id, title, intent, scope, execution_prompt, acceptance, assigned_role, timestamp, role_config_snapshot, plan);
    push_task_card_members_7(m, run_id, task_card_id, title, intent, scope, execution_prompt, acceptance, assigned_role, timestamp, role_config_snapshot);
    push_task_card_members_8(m, run_id, task_card_id, title, intent, scope, execution_prompt, acceptance, assigned_role, timestamp, role_config_snapshot);
    push_task_card_members_9(m, run_id, task_card_id, title, intent, scope, execution_prompt, acceptance, assigned_role, timestamp, role_config_snapshot);
    assert(members_view(m@) =~= start + task_card_members(run_id@, task_card_id@, title@, intent@, scope@, execution_prompt@, acceptance@, assigned_role@, timestamp@, jview(*role_config_snapshot), plan_view));
}

/// The task card created for `assigned_role` at `timestamp`, with the
/// role's config and the delegation plan made from it.
pub open spec fn spec_task_card_payload_with_role(
    run_id: Seq<char>,
    task_card_id: Seq<char>,
    title: Seq<char>,
    intent: Seq<char>,
    scope: Seq<char>,
    execution_prompt: Seq<char>,
    acceptance: Seq<char>,
    assigned_role: Seq<char>,
    timestamp: Seq<char>,
    role_config_snapshot: JVal,
    runtime_config: JVal,
    skill_registry: JVal,
    execution_contract: JVal,
) -> JVal {
    JVal::Object(
        task_card_members(
            run_id,
            task_card_id,
            title,
            intent,
            scope,
            execution_prompt,
            acceptance,
            assigned_role,
            timestamp,
            role_config_snapshot,
            crate::delegation_plan::spec_delegation_plan(
                assigned_role,
                role_config_snapshot,
                runtime_config,
                spec_role_sandbox(assigned_role),
                crate::roles::spec_sandbox_rationale(assigned_role),
                skill_registry,
                execution_contract,
            ),
        ),
    )
}

pub fn build_task_card_payload_with_role(
    run_id: &str,
    task_card_id: &str,
    title: &str,
    intent: &str,
    scope: &str,
    execution_prompt: &str,
    acceptance: &str,
    assigned_role: &str,
    timestamp: &str,
    role_config_snapshot: &Json,
    runtime_config: &Json,
    skill_registry: &Json,
    execution_contract: &Json,
) -> (r: Json)
    ensures
        jview(r) == spec_task_card_payload_with_role(
            run_id@,
            task_card_id@,
            title@,
            intent@,
            scope@,
            execution_prompt@,
            acceptance@,
            assigned_role@,
            timestamp@,
            jview(*role_config_snapshot),
            jview(*runtime_config),
            jview(*skill_registry),
            jview(*execution_contract),
        ),
{
    let plan = crate::delegation_plan::create_specialist_delegation_plan_with_runtime(
        assigned_role,
        role_config_snapshot,
        runtime_config,
        crate::roles::sandbox_mode_for_role(assigned_role),
        crate::roles::sandbox_rationale_for_role(assigned_role),
        skill_registry,
        execution_contract,
    );
    let mut m: Vec<(String, Json)> = Vec::new();
    push_task_card_members(
        &mut m,
        run_id,
        task_card_id,
        title,
        intent,
        scope,
        execution_prompt,
        acceptance,
        assigned_role,
        timestamp,
        role_config_snapshot,
        plan,
    );
    object_of(m)
}

} // verus!
