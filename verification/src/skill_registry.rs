//! The skill registry entry of an agent: which evidence sources speak for
//! it, in what priority, and what its manifest and role config say. The
//! registry is advisory; runtime state stays authoritative.

use vstd::prelude::*;
use crate::json::{
    get_or, jbool, jget_or, jstr, jstr_field, jstr_array, jview, lemma_array_view, member,
    members_view, object_of, JVal, Json,
};
use crate::config_defaults::jstrs;
use crate::strings::str_eq;
use crate::status_text::{registry_status_from_manifest, spec_registry_status};

verus! {

/// One evidence source: its name, whether it is available and what it is
/// authoritative for.
pub open spec fn spec_evidence_source(
    source: Seq<char>,
    available: bool,
    authoritative_for: Seq<Seq<char>>,
) -> JVal {
    JVal::Object(
        seq![
            ("source"@, JVal::Str(source)),
            ("available"@, JVal::Bool(available)),
            ("authoritative_for"@, jstrs(authoritative_for)),
        ],
    )
}

fn evidence_source(source: &str, available: bool, authoritative_for: Vec<&str>) -> (r: Json)
    ensures
        jview(r) == spec_evidence_source(
            source@,
            available,
            authoritative_for@.map_values(|s: &str| s@),
        ),
{
    let mut m: Vec<(String, Json)> = Vec::new();
    m.push(member("source", jstr(source)));
    m.push(member("available", jbool(available)));
    let arr = jstr_array(&authoritative_for);
    assert(jview(arr) == jstrs(authoritative_for@.map_values(|s: &str| s@))) by {
        assert(jview(arr)->Array_0 =~= authoritative_for@.map_values(|s: &str| s@).map_values(
            |s: Seq<char>| JVal::Str(s),
        ));
    }
    m.push(member("authoritative_for", arr));
    let r = object_of(m);
    assert(members_view(m@) =~= spec_evidence_source(
        source@,
        available,
        authoritative_for@.map_values(|s: &str| s@),
    )->Object_0);
    r
}

/// The evidence sources of a registry entry: the config and SKILL.md are
/// always available; the SSL manifest only when the registry status is
/// `available`.
pub open spec fn spec_evidence_sources(registry_status: Seq<char>) -> Seq<JVal> {
    seq![
        spec_evidence_source(
            "ccc_config_toml"@,
            true,
            seq!["model"@, "variant"@, "execution_policy"@],
        ),
        spec_evidence_source("skill_md"@, true, seq!["human_instructions"@, "constraints"@]),
        spec_evidence_source(
            "skill_ssl_json"@,
            registry_status == "available"@,
            seq!["scheduling_evidence"@, "structural_scenes"@, "logical_risk_evidence"@],
        ),
    ]
}

pub fn evidence_sources_for_status(registry_status: &str) -> (r: Vec<Json>)
    ensures
        r@.map_values(|j: Json| jview(j)) == spec_evidence_sources(registry_status@),
{
    let mut sources: Vec<Json> = Vec::new();
    let a = evidence_source("ccc_config_toml", true, vec!["model", "variant", "execution_policy"]);
    let b = evidence_source("skill_md", true, vec!["human_instructions", "constraints"]);
    let c = evidence_source(
        "skill_ssl_json",
        str_eq(registry_status, "available"),
        vec!["scheduling_evidence", "structural_scenes", "logical_risk_evidence"],
    );
    sources.push(a);
    sources.push(b);
    sources.push(c);
    proof {
        assert(seq!["model", "variant", "execution_policy"].map_values(|s: &str| s@) =~= seq![
            "model"@,
            "variant"@,
            "execution_policy"@,
        ]);
        assert(seq!["human_instructions", "constraints"].map_values(|s: &str| s@) =~= seq![
            "human_instructions"@,
            "constraints"@,
        ]);
        assert(seq!["scheduling_evidence", "structural_scenes", "logical_risk_evidence"].map_values(
            |s: &str| s@,
        ) =~= seq!["scheduling_evidence"@, "structural_scenes"@, "logical_risk_evidence"@]);
        assert(sources@.map_values(|j: Json| jview(j)) =~= spec_evidence_sources(
            registry_status@,
        ));
    }
    sources
}

/// What the role config snapshot says of the agent: model, variant, fast
/// mode (false when unset) and summary.
pub open spec fn spec_role_config_evidence(snapshot: JVal) -> JVal {
    JVal::Object(
        seq![
            ("source"@, JVal::Str("role_config_snapshot"@)),
            ("model"@, jget_or(snapshot, "model"@, JVal::Null)),
            ("variant"@, jget_or(snapshot, "variant"@, JVal::Null)),
            ("fast_mode"@, jget_or(snapshot, "fast_mode"@, JVal::Bool(false))),
            ("summary"@, jget_or(snapshot, "summary"@, JVal::Null)),
        ],
    )
}

pub fn registry_role_config_evidence(role_config_snapshot: &Json) -> (r: Json)
    ensures
        jview(r) == spec_role_config_evidence(jview(*role_config_snapshot)),
{
    let mut m: Vec<(String, Json)> = Vec::new();
    m.push(member("source", jstr("role_config_snapshot")));
    m.push(member("model", get_or(role_config_snapshot, "model", Json::Null)));
    m.push(member("variant", get_or(role_config_snapshot, "variant", Json::Null)));
    m.push(member("fast_mode", get_or(role_config_snapshot, "fast_mode", jbool(false))));
    m.push(member("summary", get_or(role_config_snapshot, "summary", Json::Null)));
    let r = object_of(m);
    assert(members_view(m@) =~= spec_role_config_evidence(jview(*role_config_snapshot))->Object_0);
    r
}

/// The manifest's status, or `missing` when it states none.
pub open spec fn spec_manifest_status(manifest: JVal) -> Seq<char> {
    match jstr_field(manifest, "status"@) {
        Some(s) => s,
        None => "missing"@,
    }
}

/// The registry entry of an agent, built from its manifest report and its
/// role config snapshot.
pub open spec fn spec_skill_registry_payload(agent_name: Seq<char>, manifest: JVal, snapshot: JVal) -> JVal {
    let registry_status = spec_registry_status(spec_manifest_status(manifest));
    JVal::Object(
        seq![
            ("schema"@, JVal::Str("ccc.skill_registry.v1"@)),
            ("status"@, JVal::Str(registry_status)),
            ("blocking"@, JVal::Bool(false)),
            ("runtime_truth"@, JVal::Bool(false)),
            ("advisory_only"@, JVal::Bool(true)),
            ("agent_name"@, JVal::Str(agent_name)),
            ("source"@, JVal::Str("skill_registry"@)),
            (
                "source_priority"@,
                jstrs(
                    seq![
                        "persisted_run_state"@,
                        "approved_longway_task_cards"@,
                        "ccc_config_toml"@,
                        "skill_ssl_json"@,
                        "skill_md"@,
                    ],
                ),
            ),
            ("evidence_sources"@, JVal::Array(spec_evidence_sources(registry_status))),
            ("fallback"@, JVal::Str("SKILL.md + ccc-config.toml"@)),
            ("manifest_status"@, JVal::Str(spec_manifest_status(manifest))),
            ("skill_ssl_manifest"@, manifest),
            ("role_config"@, spec_role_config_evidence(snapshot)),
        ],
    )
}

pub fn build_skill_registry_payload(
    agent_name: &str,
    skill_ssl_manifest: Json,
    role_config_snapshot: &Json,
) -> (r: Json)
    ensures
        jview(r) == spec_skill_registry_payload(
            agent_name@,
            jview(skill_ssl_manifest),
            jview(*role_config_snapshot),
        ),
{
    let manifest_status = match skill_ssl_manifest.str_field("status") {
        Some(s) => jstr(s),
        None => jstr("missing"),
    };
    let registry_status = match skill_ssl_manifest.str_field("status") {
        Some(s) => registry_status_from_manifest(s),
        None => registry_status_from_manifest("missing"),
    };
    let evidence = evidence_sources_for_status(registry_status);
    let priority = jstr_array(
        &vec![
            "persisted_run_state",
            "approved_longway_task_cards",
            "ccc_config_toml",
            "skill_ssl_json",
            "skill_md",
        ],
    );
    let mut m: Vec<(String, Json)> = Vec::new();
    m.push(member("schema", jstr("ccc.skill_registry.v1")));
    m.push(member("status", jstr(registry_status)));
    m.push(member("blocking", jbool(false)));
    m.push(member("runtime_truth", jbool(false)));
    m.push(member("advisory_only", jbool(true)));
    m.push(member("agent_name", jstr(agent_name)));
    m.push(member("source", jstr("skill_registry")));
    m.push(member("source_priority", priority));
    let ev = Json::Array(evidence);
    proof {
        lemma_array_view(evidence);
    }
    m.push(member("evidence_sources", ev));
    m.push(member("fallback", jstr("SKILL.md + ccc-config.toml")));
    m.push(member("manifest_status", manifest_status));
    let ghost manifest_view = jview(skill_ssl_manifest);
    m.push(member("skill_ssl_manifest", skill_ssl_manifest));
    m.push(member("role_config", registry_role_config_evidence(role_config_snapshot)));
    let r = object_of(m);
    proof {
        assert(jview(priority)->Array_0 =~= seq![
            "persisted_run_state"@,
            "approved_longway_task_cards"@,
            "ccc_config_toml"@,
            "skill_ssl_json"@,
            "skill_md"@,
        ].map_values(|s: Seq<char>| JVal::Str(s)));
        assert(members_view(m@) =~= spec_skill_registry_payload(
            agent_name@,
            manifest_view,
            jview(*role_config_snapshot),
        )->Object_0);
    }
    r
}

} // verus!
