//! The generated defaults of the CCC config: the managed agents with their
//! role metadata, and the operational sections that setup backfills.

use vstd::prelude::*;
use crate::config_merge::{jmerge, merge_missing_config_fields};
use crate::json::{
    jbool, jempty_array, jint, jstr, jstr_array, juint, jview, member, members_view, object_of,
    JVal, Json,
};
use crate::strings::str_eq;

verus! {

/// The version of the generated defaults that this library writes.
pub const CURRENT_GENERATED_DEFAULTS_VERSION: u64 = 16;

/// An array of string values.
pub open spec fn jstrs(items: Seq<Seq<char>>) -> JVal {
    JVal::Array(items.map_values(|s: Seq<char>| JVal::Str(s)))
}

/// The views of a list of string slices.
pub open spec fn str_views(items: Seq<&str>) -> Seq<Seq<char>> {
    items.map_values(|s: &str| s@)
}

/// The role metadata object of a managed agent.
pub open spec fn spec_role_metadata_value(
    display_name: Seq<char>,
    callsign: Seq<char>,
    workflows: Seq<Seq<char>>,
    lsp_capabilities: Seq<Seq<char>>,
) -> JVal {
    JVal::Object(
        seq![
            ("display_name"@, JVal::Str(display_name)),
            ("callsign"@, JVal::Str(callsign)),
            ("theme"@, JVal::Str("starcraft_display_callsign"@)),
            ("inspired_by"@, JVal::Array(seq![JVal::Str("oh-my-openagent"@)])),
            ("recommended_workflows"@, jstrs(workflows)),
            ("lsp_capabilities"@, jstrs(lsp_capabilities)),
        ],
    )
}

/// The role metadata of a config key of the managed agents; `None` for a key
/// that names no managed agent.
pub open spec fn spec_role_metadata_for_config_key(key: Seq<char>) -> Option<JVal> {
    if key == "way"@ || key == "planner"@ {
        Some(
            spec_role_metadata_value(
                "Executor"@,
                "Executor"@,
                seq!["hyperplan"@],
                seq!["lsp_diagnostics"@, "lsp_definition"@],
            ),
        )
    } else if key == "explorer"@ {
        Some(
            spec_role_metadata_value(
                "Observer"@,
                "Observer"@,
                seq!["github-triage"@, "get-unpublished-changes"@],
                seq!["lsp_diagnostics"@, "lsp_references"@, "lsp_definition"@],
            ),
        )
    } else if key == "code specialist"@ {
        Some(
            spec_role_metadata_value(
                "Marauder"@,
                "Marauder"@,
                seq![
                    "remove-deadcode"@,
                    "ai-slop-remover"@,
                    "lsp-safe-refactor"@,
                    "rust-analyzer-lsp"@,
                ],
                seq![
                    "lsp_diagnostics"@,
                    "lsp_references"@,
                    "lsp_definition"@,
                    "lsp_prepare_rename"@,
                    "lsp_rename"@,
                    "rust-analyzer-lsp"@,
                ],
            ),
        )
    } else if key == "documenter"@ {
        Some(
            spec_role_metadata_value(
                "Adjutant"@,
                "Adjutant"@,
                seq!["release-note"@, "readme-maintenance"@, "changelog"@],
                seq!["lsp_diagnostics"@],
            ),
        )
    } else if key == "verifier"@ {
        Some(
            spec_role_metadata_value(
                "Arbiter"@,
                "Arbiter"@,
                seq!["review-work"@, "pre-publish-review"@],
                seq!["lsp_diagnostics"@, "lsp_references"@, "lsp_definition"@],
            ),
        )
    } else if key == "sentinel"@ {
        Some(
            spec_role_metadata_value(
                "Overseer"@,
                "Overseer"@,
                seq!["role-ownership"@, "lane-conflict"@, "fallback-classification"@],
                seq!["lsp_diagnostics"@],
            ),
        )
    } else if key == "companion_reader"@ {
        Some(
            spec_role_metadata_value(
                "Probe"@,
                "Probe"@,
                seq!["github-triage"@, "filesystem-evidence"@, "get-unpublished-changes"@],
                seq!["lsp_diagnostics"@, "lsp_references"@, "lsp_definition"@],
            ),
        )
    } else if key == "companion_operator"@ {
        Some(
            spec_role_metadata_value(
                "SCV"@,
                "SCV"@,
                seq!["git-master"@, "publish"@, "release-command-discipline"@],
                Seq::empty(),
            ),
        )
    } else {
        None
    }
}

fn role_metadata_value(
    display_name: &str,
    callsign: &str,
    workflows: &Vec<&str>,
    lsp_capabilities: &Vec<&str>,
) -> (r: Json)
    ensures
        jview(r) == spec_role_metadata_value(
            display_name@,
            callsign@,
            str_views(workflows@),
            str_views(lsp_capabilities@),
        ),
{
    let inspired: Vec<&str> = vec!["oh-my-openagent"];
    assert(inspired@.map_values(|s: &str| JVal::Str(s@)) =~= seq![JVal::Str("oh-my-openagent"@)]);
    assert(workflows@.map_values(|s: &str| JVal::Str(s@)) =~= str_views(workflows@).map_values(
        |s: Seq<char>| JVal::Str(s),
    ));
    assert(lsp_capabilities@.map_values(|s: &str| JVal::Str(s@)) =~= str_views(
        lsp_capabilities@,
    ).map_values(|s: Seq<char>| JVal::Str(s)));
    let mut m: Vec<(String, Json)> = Vec::new();
    m.push(member("display_name", jstr(display_name)));
    m.push(member("callsign", jstr(callsign)));
    m.push(member("theme", jstr("starcraft_display_callsign")));
    m.push(member("inspired_by", jstr_array(&inspired)));
    m.push(member("recommended_workflows", jstr_array(workflows)));
    m.push(member("lsp_capabilities", jstr_array(lsp_capabilities)));
    let r = object_of(m);
    assert(members_view(m@) =~= spec_role_metadata_value(
        display_name@,
        callsign@,
        str_views(workflows@),
        str_views(lsp_capabilities@),
    )->Object_0);
    r
}

/// The role metadata for a config key of the managed agents.
pub fn role_metadata_for_config_key(key: &str) -> (r: Option<Json>)
    ensures
        match r {
            Some(v) => spec_role_metadata_for_config_key(key@) == Some(jview(v)),
            None => spec_role_metadata_for_config_key(key@) is None,
        },
{
    if str_eq(key, "way") || str_eq(key, "planner") {
        let w: Vec<&str> = vec!["hyperplan"];
        let l: Vec<&str> = vec!["lsp_diagnostics", "lsp_definition"];
        assert(str_views(w@) =~= seq!["hyperplan"@]);
        assert(str_views(l@) =~= seq!["lsp_diagnostics"@, "lsp_definition"@]);
        Some(role_metadata_value("Executor", "Executor", &w, &l))
    } else if str_eq(key, "explorer") {
        let w: Vec<&str> = vec!["github-triage", "get-unpublished-changes"];
        let l: Vec<&str> = vec!["lsp_diagnostics", "lsp_references", "lsp_definition"];
        assert(str_views(w@) =~= seq!["github-triage"@, "get-unpublished-changes"@]);
        assert(str_views(l@) =~= seq!["lsp_diagnostics"@, "lsp_references"@, "lsp_definition"@]);
        Some(role_metadata_value("Observer", "Observer", &w, &l))
    } else if str_eq(key, "code specialist") {
        let w: Vec<&str> = vec![
            "remove-deadcode",
            "ai-slop-remover",
            "lsp-safe-refactor",
            "rust-analyzer-lsp",
        ];
        let l: Vec<&str> = vec![
            "lsp_diagnostics",
            "lsp_references",
            "lsp_definition",
            "lsp_prepare_rename",
            "lsp_rename",
            "rust-analyzer-lsp",
        ];
        assert(str_views(w@) =~= seq![
            "remove-deadcode"@,
            "ai-slop-remover"@,
            "lsp-safe-refactor"@,
            "rust-analyzer-lsp"@,
        ]);
        assert(str_views(l@) =~= seq![
            "lsp_diagnostics"@,
            "lsp_references"@,
            "lsp_definition"@,
            "lsp_prepare_rename"@,
            "lsp_rename"@,
            "rust-analyzer-lsp"@,
        ]);
        Some(role_metadata_value("Marauder", "Marauder", &w, &l))
    } else if str_eq(key, "documenter") {
        let w: Vec<&str> = vec!["release-note", "readme-maintenance", "changelog"];
        let l: Vec<&str> = vec!["lsp_diagnostics"];
        assert(str_views(w@) =~= seq!["release-note"@, "readme-maintenance"@, "changelog"@]);
        assert(str_views(l@) =~= seq!["lsp_diagnostics"@]);
        Some(role_metadata_value("Adjutant", "Adjutant", &w, &l))
    } else if str_eq(key, "verifier") {
        let w: Vec<&str> = vec!["review-work", "pre-publish-review"];
        let l: Vec<&str> = vec!["lsp_diagnostics", "lsp_references", "lsp_definition"];
        assert(str_views(w@) =~= seq!["review-work"@, "pre-publish-review"@]);
        assert(str_views(l@) =~= seq!["lsp_diagnostics"@, "lsp_references"@, "lsp_definition"@]);
        Some(role_metadata_value("Arbiter", "Arbiter", &w, &l))
    } else if str_eq(key, "sentinel") {
        let w: Vec<&str> = vec!["role-ownership", "lane-conflict", "fallback-classification"];
        let l: Vec<&str> = vec!["lsp_diagnostics"];
        assert(str_views(w@) =~= seq![
            "role-ownership"@,
            "lane-conflict"@,
            "fallback-classification"@,
        ]);
        assert(str_views(l@) =~= seq!["lsp_diagnostics"@]);
        Some(role_metadata_value("Overseer", "Overseer", &w, &l))
    } else if str_eq(key, "companion_reader") {
        let w: Vec<&str> = vec![
            "github-triage",
            "filesystem-evidence",
            "get-unpublished-changes",
        ];
        let l: Vec<&str> = vec!["lsp_diagnostics", "lsp_references", "lsp_definition"];
        assert(str_views(w@) =~= seq![
            "github-triage"@,
            "filesystem-evidence"@,
            "get-unpublished-changes"@,
        ]);
        assert(str_views(l@) =~= seq!["lsp_diagnostics"@, "lsp_references"@, "lsp_definition"@]);
        Some(role_metadata_value("Probe", "Probe", &w, &l))
    } else if str_eq(key, "companion_operator") {
        let w: Vec<&str> = vec!["git-master", "publish", "release-command-discipline"];
        let l: Vec<&str> = Vec::new();
        assert(str_views(w@) =~= seq!["git-master"@, "publish"@, "release-command-discipline"@]);
        assert(str_views(l@) =~= Seq::<Seq<char>>::empty());
        Some(role_metadata_value("SCV", "SCV", &w, &l))
    } else {
        None
    }
}

/// The metadata of a key that names a managed agent.
fn metadata_of(key: &str) -> (r: Json)
    requires
        spec_role_metadata_for_config_key(key@) is Some,
    ensures
        spec_role_metadata_for_config_key(key@) == Some(jview(r)),
{
    match role_metadata_for_config_key(key) {
        Some(v) => v,
        None => Json::Null,
    }
}

/// The base entry of a managed agent, before its role metadata is merged in.
pub open spec fn spec_managed_agent_base(
    name: Seq<char>,
    summary: Seq<char>,
    model: Seq<char>,
    variant: Seq<char>,
    fast_mode: bool,
) -> JVal {
    JVal::Object(
        seq![
            ("name"@, JVal::Str(name)),
            ("summary"@, JVal::Str(summary)),
            ("model"@, JVal::Str(model)),
            ("variant"@, JVal::Str(variant)),
            ("fast_mode"@, JVal::Bool(fast_mode)),
            ("config_entries"@, JVal::Array(Seq::empty())),
        ],
    )
}

/// A managed agent entry: its base entry with the role metadata merged in.
pub open spec fn spec_managed_agent_config(
    name: Seq<char>,
    summary: Seq<char>,
    model: Seq<char>,
    variant: Seq<char>,
    fast_mode: bool,
    role_metadata: JVal,
) -> JVal {
    jmerge(spec_managed_agent_base(name, summary, model, variant, fast_mode), role_metadata).0
}

/// Builds a managed agent entry.
pub fn managed_agent_config(
    name: &str,
    summary: &str,
    model: &str,
    variant: &str,
    fast_mode: bool,
    role_metadata: Json,
) -> (r: Json)
    ensures
        jview(r) == spec_managed_agent_config(
            name@,
            summary@,
            model@,
            variant@,
            fast_mode,
            jview(role_metadata),
        ),
{
    let mut m: Vec<(String, Json)> = Vec::new();
    m.push(member("name", jstr(name)));
    m.push(member("summary", jstr(summary)));
    m.push(member("model", jstr(model)));
    m.push(member("variant", jstr(variant)));
    m.push(member("fast_mode", jbool(fast_mode)));
    m.push(member("config_entries", jempty_array()));
    let mut config = object_of(m);
    assert(members_view(m@) =~= spec_managed_agent_base(
        name@,
        summary@,
        model@,
        variant@,
        fast_mode,
    )->Object_0);
    merge_missing_config_fields(&mut config, &role_metadata);
    config
}

/// The managed entry of a role key.
pub open spec fn spec_managed_role(
    key: Seq<char>,
    name: Seq<char>,
    summary: Seq<char>,
    model: Seq<char>,
    variant: Seq<char>,
) -> JVal {
    spec_managed_agent_config(
        name,
        summary,
        model,
        variant,
        true,
        spec_role_metadata_for_config_key(key)->0,
    )
}

/// The default entry of the sentinel.
pub open spec fn spec_default_sentinel_agent_config() -> JVal {
    spec_managed_role(
        "sentinel"@,
        "sentinel"@,
        "Ownership and execution-path classification for bounded routing decisions."@,
        "gpt-5.4-mini"@,
        "high"@,
    )
}

pub fn default_sentinel_agent_config() -> (r: Json)
    ensures
        jview(r) == spec_default_sentinel_agent_config(),
{
    managed_agent_config(
        "sentinel",
        "Ownership and execution-path classification for bounded routing decisions.",
        "gpt-5.4-mini",
        "high",
        true,
        metadata_of("sentinel"),
    )
}

/// The default `companion_agents` section.
pub open spec fn spec_default_companion_agents_config() -> JVal {
    JVal::Object(
        seq![
            (
                "companion_reader"@,
                spec_managed_role(
                    "companion_reader"@,
                    "companion_reader"@,
                    "Low-cost read-only tool work for filesystem, docs, web, git/gh inspection, and evidence gathering."@,
                    "gpt-5.4-mini"@,
                    "medium"@,
                ),
            ),
            (
                "companion_operator"@,
                spec_managed_role(
                    "companion_operator"@,
                    "companion_operator"@,
                    "Low-cost bounded operator work for git/gh mutation, release commands, and other narrow tool execution."@,
                    "gpt-5.4-mini"@,
                    "medium"@,
                ),
            ),
        ],
    )
}

pub fn default_companion_agents_config() -> (r: Json)
    ensures
        jview(r) == spec_default_companion_agents_config(),
{
    let mut m: Vec<(String, Json)> = Vec::new();
    m.push(
        member(
            "companion_reader",
            managed_agent_config(
                "companion_reader",
                "Low-cost read-only tool work for filesystem, docs, web, git/gh inspection, and evidence gathering.",
                "gpt-5.4-mini",
                "medium",
                true,
                metadata_of("companion_reader"),
            ),
        ),
    );
    m.push(
        member(
            "companion_operator",
            managed_agent_config(
                "companion_operator",
                "Low-cost bounded operator work for git/gh mutation, release commands, and other narrow tool execution.",
                "gpt-5.4-mini",
                "medium",
                true,
                metadata_of("companion_operator"),
            ),
        ),
    );
    let r = object_of(m);
    assert(members_view(m@) =~= spec_default_companion_agents_config()->Object_0);
    r
}

/// The default `agents` section: the specialists and the sentinel.
pub open spec fn spec_default_specialist_agents_config() -> JVal {
    JVal::Object(
        seq![
            (
                "way"@,
                spec_managed_role(
                    "way"@,
                    "tactician"@,
                    "Way creation and bounded planning when the next move is still unclear."@,
                    "gpt-5.5"@,
                    "high"@,
                ),
            ),
            (
                "explorer"@,
                spec_managed_role(
                    "explorer"@,
                    "scout"@,
                    "Read-only repo investigation and evidence gathering."@,
                    "gpt-5.4-mini"@,
                    "high"@,
                ),
            ),
            (
                "code specialist"@,
                spec_managed_role(
                    "code specialist"@,
                    "raider"@,
                    "Bounded code and config mutation for implementation and repair."@,
                    "gpt-5.5"@,
                    "high"@,
                ),
            ),
            (
                "documenter"@,
                spec_managed_role(
                    "documenter"@,
                    "scribe"@,
                    "Docs and operator-facing text updates."@,
                    "gpt-5.4-mini"@,
                    "medium"@,
                ),
            ),
            (
                "verifier"@,
                spec_managed_role(
                    "verifier"@,
                    "arbiter"@,
                    "Review, regression detection, and acceptance judgment when needed."@,
                    "gpt-5.5"@,
                    "high"@,
                ),
            ),
            ("sentinel"@, spec_default_sentinel_agent_config()),
        ],
    )
}

pub fn default_specialist_agents_config() -> (r: Json)
    ensures
        jview(r) == spec_default_specialist_agents_config(),
{
    let mut m: Vec<(String, Json)> = Vec::new();
    m.push(
        member(
            "way",
            managed_agent_config(
                "tactician",
                "Way creation and bounded planning when the next move is still unclear.",
                "gpt-5.5",
                "high",
                true,
                metadata_of("way"),
            ),
        ),
    );
    m.push(
        member(
            "explorer",
            managed_agent_config(
                "scout",
                "Read-only repo investigation and evidence gathering.",
                "gpt-5.4-mini",
                "high",
                true,
                metadata_of("explorer"),
            ),
        ),
    );
    m.push(
        member(
            "code specialist",
            managed_agent_config(
                "raider",
                "Bounded code and config mutation for implementation and repair.",
                "gpt-5.5",
                "high",
                true,
                metadata_of("code specialist"),
            ),
        ),
    );
    m.push(
        member(
            "documenter",
            managed_agent_config(
                "scribe",
                "Docs and operator-facing text updates.",
                "gpt-5.4-mini",
                "medium",
                true,
                metadata_of("documenter"),
            ),
        ),
    );
    m.push(
        member(
            "verifier",
            managed_agent_config(
                "arbiter",
                "Review, regression detection, and acceptance judgment when needed.",
                "gpt-5.5",
                "high",
                true,
                metadata_of("verifier"),
            ),
        ),
    );
    m.push(member("sentinel", default_sentinel_agent_config()));
    let r = object_of(m);
    assert(members_view(m@) =~= spec_default_specialist_agents_config()->Object_0);
    r
}

/// The default `features` section of the config.
pub open spec fn spec_default_features_config() -> JVal {
    JVal::Object(
        seq![
            ("graph_context"@, JVal::Bool(false)),
            ("goals"@, JVal::Bool(false)),
            ("prompt_refinement"@, JVal::Bool(false)),
        ],
    )
}

pub fn default_features_config() -> (r: Json)
    ensures
        jview(r) == spec_default_features_config(),
{
    let mut m: Vec<(String, Json)> = Vec::new();
    m.push(member("graph_context", jbool(false)));
    m.push(member("goals", jbool(false)));
    m.push(member("prompt_refinement", jbool(false)));
    let r = object_of(m);
    assert(members_view(m@) =~= spec_default_features_config()->Object_0);
    r
}

/// The `specialists` section of the default `goal_bridge` section of the config.
pub open spec fn spec_default_goal_bridge_config_specialists() -> JVal {
    JVal::Object(
        seq![
            ("allow_specialist_goal_context"@, JVal::Bool(true)),
            ("allow_specialist_set_goal"@, JVal::Bool(false)),
            ("allow_specialist_clear_goal"@, JVal::Bool(false)),
            ("allow_specialist_override_goal"@, JVal::Bool(false)),
            ("max_subgoal_lines"@, JVal::Num(8)),
            ("require_captain_acceptance"@, JVal::Bool(true)),
        ],
    )
}

fn default_goal_bridge_config_specialists() -> (r: Json)
    ensures
        jview(r) == spec_default_goal_bridge_config_specialists(),
{
    let mut m: Vec<(String, Json)> = Vec::new();
    m.push(member("allow_specialist_goal_context", jbool(true)));
    m.push(member("allow_specialist_set_goal", jbool(false)));
    m.push(member("allow_specialist_clear_goal", jbool(false)));
    m.push(member("allow_specialist_override_goal", jbool(false)));
    m.push(member("max_subgoal_lines", jint(8)));
    m.push(member("require_captain_acceptance", jbool(true)));
    let r = object_of(m);
    assert(members_view(m@) =~= spec_default_goal_bridge_config_specialists()->Object_0);
    r
}

/// The default `goal_bridge` section of the config.
pub open spec fn spec_default_goal_bridge_config() -> JVal {
    JVal::Object(
        seq![
            ("enabled"@, JVal::Bool(false)),
            ("mode"@, JVal::Str("captain_owned"@)),
            ("brief_language"@, JVal::Str("en"@)),
            ("brief_max_lines"@, JVal::Num(12)),
            ("require_verifiable_stop"@, JVal::Bool(true)),
            ("host_goal_state_is_truth"@, JVal::Bool(false)),
            ("specialists"@, spec_default_goal_bridge_config_specialists()),
        ],
    )
}

pub fn default_goal_bridge_config() -> (r: Json)
    ensures
        jview(r) == spec_default_goal_bridge_config(),
{
    let mut m: Vec<(String, Json)> = Vec::new();
    m.push(member("enabled", jbool(false)));
    m.push(member("mode", jstr("captain_owned")));
    m.push(member("brief_language", jstr("en")));
    m.push(member("brief_max_lines", jint(12)));
    m.push(member("require_verifiable_stop", jbool(true)));
    m.push(member("host_goal_state_is_truth", jbool(false)));
    m.push(member("specialists", default_goal_bridge_config_specialists()));
    let r = object_of(m);
    assert(members_view(m@) =~= spec_default_goal_bridge_config()->Object_0);
    r
}

/// The `install` section of the default `graph_context` section of the config.
pub open spec fn spec_default_graph_context_config_install() -> JVal {
    JVal::Object(
        seq![
            ("managed_by_ccc_setup"@, JVal::Bool(true)),
            ("check_install_reports_readiness"@, JVal::Bool(true)),
            ("require_graphify_cli_for_queries"@, JVal::Bool(true)),
            ("allow_missing_provider_fallback"@, JVal::Bool(true)),
        ],
    )
}

fn default_graph_context_config_install() -> (r: Json)
    ensures
        jview(r) == spec_default_graph_context_config_install(),
{
    let mut m: Vec<(String, Json)> = Vec::new();
    m.push(member("managed_by_ccc_setup", jbool(true)));
    m.push(member("check_install_reports_readiness", jbool(true)));
    m.push(member("require_graphify_cli_for_queries", jbool(true)));
    m.push(member("allow_missing_provider_fallback", jbool(true)));
    let r = object_of(m);
    assert(members_view(m@) =~= spec_default_graph_context_config_install()->Object_0);
    r
}

/// The `edges` section of the default `graph_context` section of the config.
pub open spec fn spec_default_graph_context_config_edges() -> JVal {
    JVal::Object(
        seq![
            ("allow_extracted"@, JVal::Bool(true)),
            ("allow_inferred"@, JVal::Bool(true)),
            ("allow_ambiguous"@, JVal::Bool(false)),
            ("require_source_check_for_mutation"@, JVal::Bool(true)),
        ],
    )
}

fn default_graph_context_config_edges() -> (r: Json)
    ensures
        jview(r) == spec_default_graph_context_config_edges(),
{
    let mut m: Vec<(String, Json)> = Vec::new();
    m.push(member("allow_extracted", jbool(true)));
    m.push(member("allow_inferred", jbool(true)));
    m.push(member("allow_ambiguous", jbool(false)));
    m.push(member("require_source_check_for_mutation", jbool(true)));
    let r = object_of(m);
    assert(members_view(m@) =~= spec_default_graph_context_config_edges()->Object_0);
    r
}

/// The default `graph_context` section of the config.
pub open spec fn spec_default_graph_context_config() -> JVal {
    JVal::Object(
        seq![
            ("enabled"@, JVal::Bool(false)),
            ("provider"@, JVal::Str("graphify"@)),
            ("mode"@, JVal::Str("read_only"@)),
            ("canonical_backend"@, JVal::Str("graphify"@)),
            ("replace_legacy_ccc_graph_backend"@, JVal::Bool(true)),
            ("allow_legacy_graph_backend_fallback"@, JVal::Bool(false)),
            ("fallback_when_unavailable"@, JVal::Str("scout_source_evidence"@)),
            ("report_path"@, JVal::Str("graphify-out/GRAPH_REPORT.md"@)),
            ("graph_path"@, JVal::Str("graphify-out/graph.json"@)),
            ("max_report_bytes"@, JVal::Num(20000)),
            ("max_query_bytes"@, JVal::Num(8000)),
            ("prefer_report_before_grep"@, JVal::Bool(true)),
            ("allow_cli_query"@, JVal::Bool(true)),
            ("allow_mcp_query"@, JVal::Bool(false)),
            ("allow_rebuild"@, JVal::Bool(false)),
            ("auto_install_external_dependency"@, JVal::Bool(false)),
            ("source_of_truth"@, JVal::Bool(false)),
            ("install"@, spec_default_graph_context_config_install()),
            ("edges"@, spec_default_graph_context_config_edges()),
        ],
    )
}

pub fn default_graph_context_config() -> (r: Json)
    ensures
        jview(r) == spec_default_graph_context_config(),
{
    let mut m: Vec<(String, Json)> = Vec::new();
    m.push(member("enabled", jbool(false)));
    m.push(member("provider", jstr("graphify")));
    m.push(member("mode", jstr("read_only")));
    m.push(member("canonical_backend", jstr("graphify")));
    m.push(member("replace_legacy_ccc_graph_backend", jbool(true)));
    m.push(member("allow_legacy_graph_backend_fallback", jbool(false)));
    m.push(member("fallback_when_unavailable", jstr("scout_source_evidence")));
    m.push(member("report_path", jstr("graphify-out/GRAPH_REPORT.md")));
    m.push(member("graph_path", jstr("graphify-out/graph.json")));
    m.push(member("max_report_bytes", jint(20000)));
    m.push(member("max_query_bytes", jint(8000)));
    m.push(member("prefer_report_before_grep", jbool(true)));
    m.push(member("allow_cli_query", jbool(true)));
    m.push(member("allow_mcp_query", jbool(false)));
    m.push(member("allow_rebuild", jbool(false)));
    m.push(member("auto_install_external_dependency", jbool(false)));
    m.push(member("source_of_truth", jbool(false)));
    m.push(member("install", default_graph_context_config_install()));
    m.push(member("edges", default_graph_context_config_edges()));
    let r = object_of(m);
    assert(members_view(m@) =~= spec_default_graph_context_config()->Object_0);
    r
}

/// The `generated_defaults` policy stamped on a config, at the current version.
pub open spec fn spec_default_generated_defaults_policy() -> JVal {
    JVal::Object(
        seq![
            ("version"@, JVal::Num(CURRENT_GENERATED_DEFAULTS_VERSION as int)),
            ("policy"@, JVal::Str("ccc-managed-defaults"@)),
        ],
    )
}

pub fn default_generated_defaults_policy() -> (r: Json)
    ensures
        jview(r) == spec_default_generated_defaults_policy(),
{
    let mut m: Vec<(String, Json)> = Vec::new();
    m.push(member("version", juint(CURRENT_GENERATED_DEFAULTS_VERSION)));
    m.push(member("policy", jstr("ccc-managed-defaults")));
    let r = object_of(m);
    assert(members_view(m@) =~= spec_default_generated_defaults_policy()->Object_0);
    r
}

/// The default `runtime` section of the config.
pub open spec fn spec_default_runtime_config() -> JVal {
    JVal::Object(
        seq![
            ("preferred_specialist_execution_mode"@, JVal::Str("codex_subagent"@)),
            ("fallback_specialist_execution_mode"@, JVal::Str("codex_exec"@)),
            ("worker_poll_interval_ms"@, JVal::Num(90000)),
            ("worker_stuck_after_ms"@, JVal::Num(45000)),
            ("worker_kill_grace_ms"@, JVal::Num(2000)),
            ("worker_auto_reclaim_enabled"@, JVal::Bool(true)),
            ("worker_max_retries_per_phase"@, JVal::Num(1)),
            ("worker_retry_backoff_ms"@, JVal::Num(1000)),
            ("worker_prompt_scope_max_chars"@, JVal::Num(320)),
            ("worker_prompt_acceptance_max_chars"@, JVal::Num(220)),
            ("worker_prompt_task_max_chars"@, JVal::Num(720)),
            ("run_lock_stale_after_ms"@, JVal::Num(300000)),
        ],
    )
}

pub fn default_runtime_config() -> (r: Json)
    ensures
        jview(r) == spec_default_runtime_config(),
{
    let mut m: Vec<(String, Json)> = Vec::new();
    m.push(member("preferred_specialist_execution_mode", jstr("codex_subagent")));
    m.push(member("fallback_specialist_execution_mode", jstr("codex_exec")));
    m.push(member("worker_poll_interval_ms", jint(90000)));
    m.push(member("worker_stuck_after_ms", jint(45000)));
    m.push(member("worker_kill_grace_ms", jint(2000)));
    m.push(member("worker_auto_reclaim_enabled", jbool(true)));
    m.push(member("worker_max_retries_per_phase", jint(1)));
    m.push(member("worker_retry_backoff_ms", jint(1000)));
    m.push(member("worker_prompt_scope_max_chars", jint(320)));
    m.push(member("worker_prompt_acceptance_max_chars", jint(220)));
    m.push(member("worker_prompt_task_max_chars", jint(720)));
    m.push(member("run_lock_stale_after_ms", jint(300000)));
    let r = object_of(m);
    assert(members_view(m@) =~= spec_default_runtime_config()->Object_0);
    r
}

/// The `typescript_javascript` section of the `language_servers` section of the default `lsp` section of the config.
pub open spec fn spec_default_lsp_config_language_servers_typescript_javascript() -> JVal {
    JVal::Object(
        seq![
            ("command"@, JVal::Str("typescript-language-server"@)),
            ("args"@, JVal::Array(seq![JVal::Str("--stdio"@)])),
            ("package_hint"@, JVal::Str("npm install -g typescript typescript-language-server"@)),
            ("file_extensions"@, JVal::Array(seq![JVal::Str("ts"@), JVal::Str("tsx"@), JVal::Str("js"@), JVal::Str("jsx"@), JVal::Str("mjs"@), JVal::Str("cjs"@)])),
        ],
    )
}

fn default_lsp_config_language_servers_typescript_javascript() -> (r: Json)
    ensures
        jview(r) == spec_default_lsp_config_language_servers_typescript_javascript(),
{
    let args: Vec<&str> = vec!["--stdio"];
    let file_extensions: Vec<&str> = vec!["ts", "tsx", "js", "jsx", "mjs", "cjs"];
    assert(args@.map_values(|s: &str| JVal::Str(s@)) =~= seq![JVal::Str("--stdio"@)]);
    assert(file_extensions@.map_values(|s: &str| JVal::Str(s@)) =~= seq![JVal::Str("ts"@), JVal::Str("tsx"@), JVal::Str("js"@), JVal::Str("jsx"@), JVal::Str("mjs"@), JVal::Str("cjs"@)]);
    let mut m: Vec<(String, Json)> = Vec::new();
    m.push(member("command", jstr("typescript-language-server")));
    m.push(member("args", jstr_array(&args)));
    m.push(member("package_hint", jstr("npm install -g typescript typescript-language-server")));
    m.push(member("file_extensions", jstr_array(&file_extensions)));
    let r = object_of(m);
    assert(members_view(m@) =~= spec_default_lsp_config_language_servers_typescript_javascript()->Object_0);
    r
}

/// The `rust` section of the `language_servers` section of the default `lsp` section of the config.
pub open spec fn spec_default_lsp_config_language_servers_rust() -> JVal {
    JVal::Object(
        seq![
            ("command"@, JVal::Str("rust-analyzer"@)),
            ("args"@, JVal::Array(Seq::empty())),
            ("package_hint"@, JVal::Str("rustup component add rust-analyzer"@)),
            ("file_extensions"@, JVal::Array(seq![JVal::Str("rs"@)])),
        ],
    )
}

fn default_lsp_config_language_servers_rust() -> (r: Json)
    ensures
        jview(r) == spec_default_lsp_config_language_servers_rust(),
{
    let file_extensions: Vec<&str> = vec!["rs"];
    assert(file_extensions@.map_values(|s: &str| JVal::Str(s@)) =~= seq![JVal::Str("rs"@)]);
    let mut m: Vec<(String, Json)> = Vec::new();
    m.push(member("command", jstr("rust-analyzer")));
    m.push(member("args", jempty_array()));
    m.push(member("package_hint", jstr("rustup component add rust-analyzer")));
    m.push(member("file_extensions", jstr_array(&file_extensions)));
    let r = object_of(m);
    assert(members_view(m@) =~= spec_default_lsp_config_language_servers_rust()->Object_0);
    r
}

/// The `language_servers` section of the default `lsp` section of the config.
pub open spec fn spec_default_lsp_config_language_servers() -> JVal {
    JVal::Object(
        seq![
            ("typescript_javascript"@, spec_default_lsp_config_language_servers_typescript_javascript()),
            ("rust"@, spec_default_lsp_config_language_servers_rust()),
        ],
    )
}

fn default_lsp_config_language_servers() -> (r: Json)
    ensures
        jview(r) == spec_default_lsp_config_language_servers(),
{
    let mut m: Vec<(String, Json)> = Vec::new();
    m.push(member("typescript_javascript", default_lsp_config_language_servers_typescript_javascript()));
    m.push(member("rust", default_lsp_config_language_servers_rust()));
    let r = object_of(m);
    assert(members_view(m@) =~= spec_default_lsp_config_language_servers()->Object_0);
    r
}

/// The default `lsp` section of the config.
pub open spec fn spec_default_lsp_config() -> JVal {
    JVal::Object(
        seq![
            ("enabled"@, JVal::Bool(false)),
            ("runtime_execution"@, JVal::Str("deferred"@)),
            ("deferred_reason"@, JVal::Str("0.0.15-pre records TypeScript/JavaScript and Rust rust-analyzer LSP command contracts but does not run language servers from CCC yet."@)),
            ("capabilities"@, JVal::Array(seq![JVal::Str("lsp_diagnostics"@), JVal::Str("lsp_references"@), JVal::Str("lsp_definition"@), JVal::Str("lsp_prepare_rename"@), JVal::Str("lsp_rename"@), JVal::Str("rust-analyzer-lsp"@)])),
            ("language_servers"@, spec_default_lsp_config_language_servers()),
        ],
    )
}

pub fn default_lsp_config() -> (r: Json)
    ensures
        jview(r) == spec_default_lsp_config(),
{
    let capabilities: Vec<&str> = vec!["lsp_diagnostics", "lsp_references", "lsp_definition", "lsp_prepare_rename", "lsp_rename", "rust-analyzer-lsp"];
    assert(capabilities@.map_values(|s: &str| JVal::Str(s@)) =~= seq![JVal::Str("lsp_diagnostics"@), JVal::Str("lsp_references"@), JVal::Str("lsp_definition"@), JVal::Str("lsp_prepare_rename"@), JVal::Str("lsp_rename"@), JVal::Str("rust-analyzer-lsp"@)]);
    let mut m: Vec<(String, Json)> = Vec::new();
    m.push(member("enabled", jbool(false)));
    m.push(member("runtime_execution", jstr("deferred")));
    m.push(member("deferred_reason", jstr("0.0.15-pre records TypeScript/JavaScript and Rust rust-analyzer LSP command contracts but does not run language servers from CCC yet.")));
    m.push(member("capabilities", jstr_array(&capabilities)));
    m.push(member("language_servers", default_lsp_config_language_servers()));
    let r = object_of(m);
    assert(members_view(m@) =~= spec_default_lsp_config()->Object_0);
    r
}


/// The entry of the orchestrator (the captain) in a new config.
pub open spec fn spec_default_orchestrator_config() -> JVal {
    spec_managed_agent_base(
        "captain"@,
        "Captain keeps the LongWay, chooses specialists, and closes the loop."@,
        "gpt-5.5"@,
        "medium"@,
        false,
    )
}

/// The `agents` section of a new config: the orchestrator, then the
/// specialists and the sentinel.
pub open spec fn spec_default_config_agents() -> JVal {
    JVal::Object(
        seq![("orchestrator"@, spec_default_orchestrator_config())]
            + spec_default_specialist_agents_config()->Object_0,
    )
}

/// The `output` section of a new config.
pub open spec fn spec_default_output_config() -> JVal {
    JVal::Object(
        seq![
            ("verbosity"@, JVal::Str("default"@)),
            ("changed_max_chars"@, JVal::Num(160)),
            ("include_agent_loop_when_idle"@, JVal::Bool(false)),
        ],
    )
}

/// The config that setup writes where no config exists yet.
pub open spec fn spec_default_ccc_config() -> JVal {
    JVal::Object(
        seq![
            ("version"@, JVal::Num(1)),
            ("generated_defaults"@, spec_default_generated_defaults_policy()),
            ("entry_policy"@, JVal::Object(seq![("mode"@, JVal::Str("guided_explicit"@))])),
            ("output"@, spec_default_output_config()),
            ("features"@, spec_default_features_config()),
            ("goal_bridge"@, spec_default_goal_bridge_config()),
            ("lsp"@, spec_default_lsp_config()),
            ("graph_context"@, spec_default_graph_context_config()),
            ("agents"@, spec_default_config_agents()),
        ],
    )
}

fn default_config_agents() -> (r: Json)
    ensures
        jview(r) == spec_default_config_agents(),
{
    let mut orchestrator: Vec<(String, Json)> = Vec::new();
    orchestrator.push(member("name", jstr("captain")));
    orchestrator.push(
        member(
            "summary",
            jstr("Captain keeps the LongWay, chooses specialists, and closes the loop."),
        ),
    );
    orchestrator.push(member("model", jstr("gpt-5.5")));
    orchestrator.push(member("variant", jstr("medium")));
    orchestrator.push(member("fast_mode", jbool(false)));
    orchestrator.push(member("config_entries", jempty_array()));
    let o = object_of(orchestrator);
    assert(members_view(orchestrator@) =~= spec_default_orchestrator_config()->Object_0);
    match default_specialist_agents_config() {
        Json::Object(mut m) => {
            let ghost before = m@;
            proof {
                crate::json::lemma_object_view(m);
            }
            m.insert(0, member("orchestrator", o));
            assert(members_view(m@) =~= seq![("orchestrator"@, spec_default_orchestrator_config())]
                + members_view(before));
            object_of(m)
        },
        _ => Json::Null,
    }
}

fn default_output_config() -> (r: Json)
    ensures
        jview(r) == spec_default_output_config(),
{
    let mut m: Vec<(String, Json)> = Vec::new();
    m.push(member("verbosity", jstr("default")));
    m.push(member("changed_max_chars", jint(160)));
    m.push(member("include_agent_loop_when_idle", jbool(false)));
    let r = object_of(m);
    assert(members_view(m@) =~= spec_default_output_config()->Object_0);
    r
}

/// The config that setup writes where no config exists yet.
pub fn default_ccc_config() -> (r: Json)
    ensures
        jview(r) == spec_default_ccc_config(),
{
    let mut entry_policy: Vec<(String, Json)> = Vec::new();
    entry_policy.push(member("mode", jstr("guided_explicit")));
    let ep = object_of(entry_policy);
    assert(members_view(entry_policy@) =~= seq![("mode"@, JVal::Str("guided_explicit"@))]);
    let mut m: Vec<(String, Json)> = Vec::new();
    m.push(member("version", jint(1)));
    m.push(member("generated_defaults", default_generated_defaults_policy()));
    m.push(member("entry_policy", ep));
    m.push(member("output", default_output_config()));
    m.push(member("features", default_features_config()));
    m.push(member("goal_bridge", default_goal_bridge_config()));
    m.push(member("lsp", default_lsp_config()));
    m.push(member("graph_context", default_graph_context_config()));
    m.push(member("agents", default_config_agents()));
    let r = object_of(m);
    assert(members_view(m@) =~= spec_default_ccc_config()->Object_0);
    r
}

} // verus!
