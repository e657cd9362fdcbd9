//! Backfilling a CCC config with its generated defaults: the entry policy
//! mode, the companion and specialist agent sections and their role
//! metadata, the operational sections that are present, and the generated
//! default drift upgrades.

use vstd::prelude::*;
use crate::config_defaults::{
    default_companion_agents_config, default_features_config, default_goal_bridge_config,
    default_graph_context_config, default_lsp_config, default_runtime_config, default_specialist_agents_config,
    role_metadata_for_config_key, spec_default_companion_agents_config, spec_default_features_config,
    spec_default_goal_bridge_config, spec_default_graph_context_config, spec_default_lsp_config,
    spec_default_runtime_config, spec_default_specialist_agents_config, spec_role_metadata_for_config_key,
};
use crate::config_merge::{jmerge, merge_missing_config_fields};
use crate::config_upgrade::{apply_generated_default_drift_upgrades, spec_apply_generated_default_drift_upgrades};
use crate::json::{jget, jinsert, jstr, jstr_field, jview, new_object, JVal, Json};
use crate::strings::{opt_view, str_eq};

verus! {

/// The entry policy step: a non-object entry policy becomes
/// `{"mode": "guided_explicit"}`; an object's mode becomes `normalized`
/// (what its current mode normalizes to), or `guided_explicit` when it has
/// no string mode or the mode does not normalize; an absent entry policy is
/// left alone. The flag says whether the config changed.
pub open spec fn spec_entry_policy_step(c: JVal, normalized: Option<Seq<char>>) -> (JVal, bool) {
    match jget(c, "entry_policy"@) {
        None => (c, false),
        Some(ep) => if !(ep is Object) {
            (jinsert(c, "entry_policy"@, JVal::Object(seq![("mode"@, JVal::Str("guided_explicit"@))])), true)
        } else {
            let cur = jstr_field(ep, "mode"@);
            let next = match cur {
                Some(_) => match normalized {
                    Some(n) => n,
                    None => "guided_explicit"@,
                },
                None => "guided_explicit"@,
            };
            if cur == Some(next) {
                (c, false)
            } else {
                (jinsert(c, "entry_policy"@, jinsert(ep, "mode"@, JVal::Str(next))), true)
            }
        },
    }
}

/// A present section that is `null` takes its defaults; any other present
/// section has its missing fields merged in; an absent section stays absent.
pub open spec fn spec_section_step(c: JVal, key: Seq<char>, defaults: JVal) -> (JVal, bool) {
    match jget(c, key) {
        Some(v) => if v is Null {
            (jinsert(c, key, defaults), true)
        } else {
            let r = jmerge(v, defaults);
            (jinsert(c, key, r.0), r.1)
        },
        None => (c, false),
    }
}

/// A role config present under section `parent` has its role metadata
/// merged in.
pub open spec fn spec_role_step(c: JVal, parent: Seq<char>, role: Seq<char>) -> (JVal, bool) {
    match jget(c, parent) {
        Some(p) => match jget(p, role) {
            Some(rc) => match spec_role_metadata_for_config_key(role) {
                Some(md) => {
                    let r = jmerge(rc, md);
                    (jinsert(c, parent, jinsert(p, role, r.0)), r.1)
                },
                None => (c, false),
            },
            None => (c, false),
        },
        None => (c, false),
    }
}

pub open spec fn then_section(acc: (JVal, bool), key: Seq<char>, defaults: JVal) -> (JVal, bool) {
    let r = spec_section_step(acc.0, key, defaults);
    (r.0, acc.1 || r.1)
}

pub open spec fn then_role(acc: (JVal, bool), parent: Seq<char>, role: Seq<char>) -> (JVal, bool) {
    let r = spec_role_step(acc.0, parent, role);
    (r.0, acc.1 || r.1)
}

/// The agent sections after their defaults and role metadata.
pub open spec fn spec_backfill_agents(a: (JVal, bool)) -> (JVal, bool) {
    let a = then_section(a, "companion_agents"@, spec_default_companion_agents_config());
    let a = then_section(a, "agents"@, spec_default_specialist_agents_config());
    let a = then_role(a, "agents"@, "way"@);
    let a = then_role(a, "agents"@, "planner"@);
    let a = then_role(a, "agents"@, "explorer"@);
    let a = then_role(a, "agents"@, "documenter"@);
    let a = then_role(a, "agents"@, "code specialist"@);
    let a = then_role(a, "agents"@, "verifier"@);
    let a = then_role(a, "agents"@, "sentinel"@);
    let a = then_role(a, "companion_agents"@, "companion_reader"@);
    then_role(a, "companion_agents"@, "companion_operator"@)
}

/// The operational sections that are present, after their defaults.
pub open spec fn spec_backfill_sections(a: (JVal, bool), routing: JVal, tool_routing: JVal) -> (JVal, bool) {
    let a = then_section(a, "features"@, spec_default_features_config());
    let a = then_section(a, "goal_bridge"@, spec_default_goal_bridge_config());
    let a = then_section(a, "graph_context"@, spec_default_graph_context_config());
    let a = then_section(a, "routing"@, routing);
    let a = then_section(a, "tool_routing"@, tool_routing);
    let a = then_section(a, "runtime"@, spec_default_runtime_config());
    then_section(a, "lsp"@, spec_default_lsp_config())
}

/// Backfilling a config object (anything else is left alone, unchanged):
/// the entry policy step, the agent sections, the present operational
/// sections (with `routing` and `tool_routing` as the routing defaults),
/// then the generated default drift upgrades. The flag says whether any
/// step changed the config.
pub open spec fn spec_backfill_generated_defaults(
    c: JVal,
    normalized_entry_mode: Option<Seq<char>>,
    routing: JVal,
    tool_routing: JVal,
) -> (JVal, bool) {
    if !(c is Object) {
        (c, false)
    } else {
        let a = spec_backfill_sections(
            spec_backfill_agents(spec_entry_policy_step(c, normalized_entry_mode)),
            routing,
            tool_routing,
        );
        let u = spec_apply_generated_default_drift_upgrades(a.0);
        (u.0, a.1 || u.1)
    }
}

fn entry_policy_step(config: &mut Json, normalized: Option<&str>) -> (changed: bool)
    ensures
        (jview(*final(config)), changed) == spec_entry_policy_step(jview(*old(config)), opt_view(normalized)),
{
    proof {
        reveal_strlit("guided_explicit");
    }
    let updated = match config.get("entry_policy") {
        None => None,
        Some(ep) => if !ep.is_object() {
            let mut o = new_object();
            o.insert("mode", jstr("guided_explicit"));
            Some(o)
        } else {
            let cur = ep.str_field("mode");
            let next: &str = match cur {
                Some(_) => match normalized {
                    Some(n) => n,
                    None => "guided_explicit",
                },
                None => "guided_explicit",
            };
            let same = match cur {
                Some(c) => str_eq(c, next),
                None => false,
            };
            if same {
                None
            } else {
                let mut ep2 = ep.deep_clone();
                ep2.insert("mode", jstr(next));
                Some(ep2)
            }
        },
    };
    match updated {
        Some(v) => {
            config.insert("entry_policy", v);
            true
        },
        None => false,
    }
}

fn section_step(config: &mut Json, key: &str, defaults: Json) -> (changed: bool)
    ensures
        (jview(*final(config)), changed) == spec_section_step(jview(*old(config)), key@, jview(defaults)),
{
    let current = match config.get(key) {
        Some(v) => Some(v.deep_clone()),
        None => None,
    };
    match current {
        Some(mut v) => {
            let changed = if v.is_null() {
                v = defaults;
                true
            } else {
                merge_missing_config_fields(&mut v, &defaults)
            };
            config.insert(key, v);
            changed
        },
        None => false,
    }
}

fn role_step(config: &mut Json, parent: &str, role: &str) -> (changed: bool)
    ensures
        (jview(*final(config)), changed) == spec_role_step(jview(*old(config)), parent@, role@),
{
    let found = match config.get(parent) {
        Some(p) => match p.get(role) {
            Some(rc) => Some((p.deep_clone(), rc.deep_clone())),
            None => None,
        },
        None => None,
    };
    match found {
        Some((mut p, mut rc)) => match role_metadata_for_config_key(role) {
            Some(md) => {
                let changed = merge_missing_config_fields(&mut rc, &md);
                p.insert(role, rc);
                config.insert(parent, p);
                changed
            },
            None => false,
        },
        None => false,
    }
}

fn backfill_agents(config: &mut Json, changed: bool) -> (r: bool)
    ensures
        (jview(*final(config)), r) == spec_backfill_agents((jview(*old(config)), changed)),
{
    let mut changed = changed;
    if section_step(config, "companion_agents", default_companion_agents_config()) {
        changed = true;
    }
    if section_step(config, "agents", default_specialist_agents_config()) {
        changed = true;
    }
    proof {
        reveal_strlit("way");
        reveal_strlit("planner");
        reveal_strlit("explorer");
        reveal_strlit("documenter");
        reveal_strlit("code specialist");
        reveal_strlit("verifier");
        reveal_strlit("sentinel");
        reveal_strlit("companion_reader");
        reveal_strlit("companion_operator");
    }
    if role_step(config, "agents", "way") {
        changed = true;
    }
    if role_step(config, "agents", "planner") {
        changed = true;
    }
    if role_step(config, "agents", "explorer") {
        changed = true;
    }
    if role_step(config, "agents", "documenter") {
        changed = true;
    }
    if role_step(config, "agents", "code specialist") {
        changed = true;
    }
    if role_step(config, "agents", "verifier") {
        changed = true;
    }
    if role_step(config, "agents", "sentinel") {
        changed = true;
    }
    if role_step(config, "companion_agents", "companion_reader") {
        changed = true;
    }
    if role_step(config, "companion_agents", "companion_operator") {
        changed = true;
    }
    changed
}

fn backfill_sections(config: &mut Json, changed: bool, routing: &Json, tool_routing: &Json) -> (r: bool)
    ensures
        (jview(*final(config)), r) == spec_backfill_sections(
            (jview(*old(config)), changed),
            jview(*routing),
            jview(*tool_routing),
        ),
{
    let mut changed = changed;
    if section_step(config, "features", default_features_config()) {
        changed = true;
    }
    if section_step(config, "goal_bridge", default_goal_bridge_config()) {
        changed = true;
    }
    if section_step(config, "graph_context", default_graph_context_config()) {
        changed = true;
    }
    if section_step(config, "routing", routing.deep_clone()) {
        changed = true;
    }
    if section_step(config, "tool_routing", tool_routing.deep_clone()) {
        changed = true;
    }
    if section_step(config, "runtime", default_runtime_config()) {
        changed = true;
    }
    if section_step(config, "lsp", default_lsp_config()) {
        changed = true;
    }
    changed
}

/// Backfills a config with its generated defaults (see
/// `spec_backfill_generated_defaults`). `normalized_entry_mode` is what the
/// config's current entry policy mode normalizes to, and `routing_defaults`
/// and `tool_routing_defaults` are the generated routing sections.
pub fn backfill_generated_defaults(
    config: &mut Json,
    normalized_entry_mode: Option<&str>,
    routing_defaults: &Json,
    tool_routing_defaults: &Json,
) -> (changed: bool)
    ensures
        (jview(*final(config)), changed) == spec_backfill_generated_defaults(
            jview(*old(config)),
            opt_view(normalized_entry_mode),
            jview(*routing_defaults),
            jview(*tool_routing_defaults),
        ),
{
    if !config.is_object() {
        return false;
    }
    let changed = entry_policy_step(config, normalized_entry_mode);
    let changed = backfill_agents(config, changed);
    let changed = backfill_sections(config, changed, routing_defaults, tool_routing_defaults);
    let upgraded = apply_generated_default_drift_upgrades(config);
    changed || upgraded
}


/// The health of a config's entry policy mode: its status, the raw mode,
/// the canonical mode and a summary. `normalized` is what the raw mode
/// normalizes to (`None` when it is unsupported).
pub open spec fn spec_entry_policy_mode_visibility(c: JVal, normalized: Option<Seq<char>>) -> (
    Seq<char>,
    Option<Seq<char>>,
    Option<Seq<char>>,
    Seq<char>,
) {
    match jget(c, "entry_policy"@) {
        None => (
            "missing/backfill-needed"@,
            None,
            Some("guided_explicit"@),
            "Entry policy config is missing; run setup to backfill `guided_explicit`."@,
        ),
        Some(ep) => if !(ep is Object) {
            (
                "invalid/backfill-needed"@,
                None,
                Some("guided_explicit"@),
                "Entry policy config must be an object with a supported mode; run setup to backfill `guided_explicit`."@,
            )
        } else {
            match jget(ep, "mode"@) {
                None => (
                    "missing/backfill-needed"@,
                    None,
                    Some("guided_explicit"@),
                    "Entry policy mode is missing; run setup to backfill `guided_explicit`."@,
                ),
                Some(JVal::Str(raw)) => match normalized {
                    Some(canonical) => if canonical == raw {
                        (
                            "canonical"@,
                            Some(raw),
                            Some(canonical),
                            "Entry policy mode `"@ + raw + "` is canonical and supported."@,
                        )
                    } else {
                        (
                            "legacy/backfill-needed"@,
                            Some(raw),
                            Some(canonical),
                            "Entry policy mode `"@ + raw + "` is runtime-compatible as `"@ + canonical
                                + "`, but setup should backfill the canonical value."@,
                        )
                    },
                    None => (
                        "invalid/unsupported"@,
                        Some(raw),
                        Some("guided_explicit"@),
                        "Entry policy mode `"@ + raw
                            + "` is unsupported; runtime falls back to `guided_explicit`, and setup should backfill it."@,
                    ),
                },
                Some(_) => (
                    "invalid/backfill-needed"@,
                    None,
                    Some("guided_explicit"@),
                    "Entry policy mode must be a string; run setup to backfill `guided_explicit`."@,
                ),
            }
        },
    }
}

pub open spec fn opt_string_view(o: Option<String>) -> Option<Seq<char>> {
    match o {
        Some(s) => Some(s@),
        None => None,
    }
}

/// The entry policy mode health of a config (see
/// `spec_entry_policy_mode_visibility`).
pub fn entry_policy_mode_visibility(config: &Json, normalized: Option<&str>) -> (r: (
    &'static str,
    Option<String>,
    Option<String>,
    String,
))
    ensures
        ({
            let s = spec_entry_policy_mode_visibility(jview(*config), opt_view(normalized));
            r.0@ == s.0 && opt_string_view(r.1) == s.1 && opt_string_view(r.2) == s.2 && r.3@ == s.3
        }),
{
    proof {
        reveal_strlit("missing/backfill-needed");
        reveal_strlit("invalid/backfill-needed");
        reveal_strlit("canonical");
        reveal_strlit("legacy/backfill-needed");
        reveal_strlit("invalid/unsupported");
        reveal_strlit("guided_explicit");
        reveal_strlit("Entry policy config is missing; run setup to backfill `guided_explicit`.");
        reveal_strlit(
            "Entry policy config must be an object with a supported mode; run setup to backfill `guided_explicit`.",
        );
        reveal_strlit("Entry policy mode is missing; run setup to backfill `guided_explicit`.");
        reveal_strlit("Entry policy mode must be a string; run setup to backfill `guided_explicit`.");
        reveal_strlit("Entry policy mode `");
        reveal_strlit("` is canonical and supported.");
        reveal_strlit("` is runtime-compatible as `");
        reveal_strlit("`, but setup should backfill the canonical value.");
        reveal_strlit("` is unsupported; runtime falls back to `guided_explicit`, and setup should backfill it.");
    }
    let ep = match config.get("entry_policy") {
        Some(ep) => ep,
        None => {
            return (
                "missing/backfill-needed",
                None,
                Some(crate::strings::to_owned("guided_explicit")),
                crate::strings::to_owned("Entry policy config is missing; run setup to backfill `guided_explicit`."),
            );
        },
    };
    if !ep.is_object() {
        return (
            "invalid/backfill-needed",
            None,
            Some(crate::strings::to_owned("guided_explicit")),
            crate::strings::to_owned(
                "Entry policy config must be an object with a supported mode; run setup to backfill `guided_explicit`.",
            ),
        );
    }
    let mode = match ep.get("mode") {
        Some(m) => m,
        None => {
            return (
                "missing/backfill-needed",
                None,
                Some(crate::strings::to_owned("guided_explicit")),
                crate::strings::to_owned("Entry policy mode is missing; run setup to backfill `guided_explicit`."),
            );
        },
    };
    let raw = match mode.as_str() {
        Some(raw) => raw,
        None => {
            return (
                "invalid/backfill-needed",
                None,
                Some(crate::strings::to_owned("guided_explicit")),
                crate::strings::to_owned(
                    "Entry policy mode must be a string; run setup to backfill `guided_explicit`.",
                ),
            );
        },
    };
    match normalized {
        Some(canonical) => if str_eq(canonical, raw) {
            (
                "canonical",
                Some(crate::strings::to_owned(raw)),
                Some(crate::strings::to_owned(canonical)),
                crate::strings::concat3("Entry policy mode `", raw, "` is canonical and supported."),
            )
        } else {
            let head = crate::strings::concat3("Entry policy mode `", raw, "` is runtime-compatible as `");
            (
                "legacy/backfill-needed",
                Some(crate::strings::to_owned(raw)),
                Some(crate::strings::to_owned(canonical)),
                crate::strings::concat3(
                    head.as_str(),
                    canonical,
                    "`, but setup should backfill the canonical value.",
                ),
            )
        },
        None => (
            "invalid/unsupported",
            Some(crate::strings::to_owned(raw)),
            Some(crate::strings::to_owned("guided_explicit")),
            crate::strings::concat3(
                "Entry policy mode `",
                raw,
                "` is unsupported; runtime falls back to `guided_explicit`, and setup should backfill it.",
            ),
        ),
    }
}

/// Why a config's entry policy needs a backfill, if it does: it is not an
/// object, has no mode, has a mode that is not a string, has a legacy alias
/// (`normalized` differs from the mode) or an unsupported mode (`normalized`
/// is `None`). No reason when the entry policy is absent or canonical.
pub open spec fn spec_entry_policy_mode_backfill_reason(c: JVal, normalized: Option<Seq<char>>) -> Option<
    Seq<char>,
> {
    match jget(c, "entry_policy"@) {
        None => None,
        Some(ep) => if !(ep is Object) {
            Some(
                "Entry policy config must be an object with a supported mode; run setup to backfill `guided_explicit`."@,
            )
        } else {
            match jget(ep, "mode"@) {
                None => Some("Entry policy config is missing `mode`; run setup to backfill `guided_explicit`."@),
                Some(JVal::Str(raw)) => match normalized {
                    Some(canonical) => if canonical == raw {
                        None
                    } else {
                        Some(
                            "Entry policy mode `"@ + raw + "` is a legacy alias for `"@ + canonical
                                + "`; run setup to backfill the canonical value."@,
                        )
                    },
                    None => Some(
                        "Entry policy mode `"@ + raw + "` is not supported; run setup to backfill `guided_explicit`."@,
                    ),
                },
                Some(_) => Some("Entry policy mode must be a string; run setup to backfill `guided_explicit`."@),
            }
        },
    }
}

/// The reason a config's entry policy needs a backfill (see
/// `spec_entry_policy_mode_backfill_reason`).
pub fn entry_policy_mode_backfill_reason(config: &Json, normalized: Option<&str>) -> (r: Option<String>)
    ensures
        opt_string_view(r) == spec_entry_policy_mode_backfill_reason(jview(*config), opt_view(normalized)),
{
    proof {
        reveal_strlit(
            "Entry policy config must be an object with a supported mode; run setup to backfill `guided_explicit`.",
        );
        reveal_strlit("Entry policy config is missing `mode`; run setup to backfill `guided_explicit`.");
        reveal_strlit("Entry policy mode must be a string; run setup to backfill `guided_explicit`.");
        reveal_strlit("Entry policy mode `");
        reveal_strlit("` is a legacy alias for `");
        reveal_strlit("`; run setup to backfill the canonical value.");
        reveal_strlit("` is not supported; run setup to backfill `guided_explicit`.");
    }
    let ep = match config.get("entry_policy") {
        Some(ep) => ep,
        None => return None,
    };
    if !ep.is_object() {
        return Some(
            crate::strings::to_owned(
                "Entry policy config must be an object with a supported mode; run setup to backfill `guided_explicit`.",
            ),
        );
    }
    let mode = match ep.get("mode") {
        Some(m) => m,
        None => {
            return Some(
                crate::strings::to_owned(
                    "Entry policy config is missing `mode`; run setup to backfill `guided_explicit`.",
                ),
            );
        },
    };
    let raw = match mode.as_str() {
        Some(raw) => raw,
        None => {
            return Some(
                crate::strings::to_owned(
                    "Entry policy mode must be a string; run setup to backfill `guided_explicit`.",
                ),
            );
        },
    };
    match normalized {
        Some(canonical) => if str_eq(canonical, raw) {
            None
        } else {
            let head = crate::strings::concat3("Entry policy mode `", raw, "` is a legacy alias for `");
            Some(
                crate::strings::concat3(
                    head.as_str(),
                    canonical,
                    "`; run setup to backfill the canonical value.",
                ),
            )
        },
        None => Some(
            crate::strings::concat3(
                "Entry policy mode `",
                raw,
                "` is not supported; run setup to backfill `guided_explicit`.",
            ),
        ),
    }
}

} // verus!
