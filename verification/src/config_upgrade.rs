//! Upgrading a config written under an older version of the generated
//! defaults: stale generated model variants, legacy runtime modes, missing
//! operational sections, and the version stamp itself.

use vstd::prelude::*;
use crate::config_defaults::{
    default_features_config, default_generated_defaults_policy, default_goal_bridge_config,
    default_graph_context_config, spec_default_features_config,
    spec_default_generated_defaults_policy, spec_default_goal_bridge_config,
    spec_default_graph_context_config, str_views, CURRENT_GENERATED_DEFAULTS_VERSION,
};
use crate::config_merge::{
    defaults_have_no_null_members, jmerge, jpresent, lemma_merge_flat_defaults_covered,
    lemma_merge_has_default_keys, merge_missing_config_fields,
};
use crate::json::{
    jbool, jget, jinsert, jstr, jstr_field, juint, jview, lemma_jget_jinsert_other,
    lemma_jget_jinsert_same, lemma_jinsert_present, lemma_jinsert_twice, lemma_jmember_index_scan, opt_bool, opt_u64,
    take_member, JVal, Json,
};
use crate::strings::{opt_str_is, str_eq};

verus! {

/// `generated_defaults.version` as an unsigned integer, or 0.
pub open spec fn spec_generated_defaults_version(c: JVal) -> int {
    match jget(c, "generated_defaults"@) {
        Some(g) => match opt_u64(jget(g, "version"@)) {
            Some(n) => n,
            None => 0,
        },
        None => 0,
    }
}

/// The version of the generated defaults a config was written with (0 when
/// it carries none).
pub fn generated_defaults_version(config: &Json) -> (r: u64)
    ensures
        r == spec_generated_defaults_version(jview(*config)),
{
    match config.get("generated_defaults") {
        Some(g) => match g.u64_field("version") {
            Some(n) => n,
            None => 0,
        },
        None => 0,
    }
}

/// Whether a path is `[a, b]`.
fn path_is(path: &[&str], a: &str, b: &str) -> (r: bool)
    ensures
        r == (str_views(path@) == seq![a@, b@]),
{
    let r = path.len() == 2 && str_eq(path[0], a) && str_eq(path[1], b);
    proof {
        if r {
            assert(str_views(path@) =~= seq![a@, b@]);
        }
        if str_views(path@) == seq![a@, b@] {
            assert(str_views(path@).len() == path@.len());
            assert(str_views(path@)[0] == path@[0]@);
            assert(str_views(path@)[1] == path@[1]@);
        }
    }
    r
}

/// The roles whose generated mini model runs at medium reasoning.
pub open spec fn spec_uses_medium_mini_generated_default(p: Seq<Seq<char>>) -> bool {
    p == seq!["agents"@, "documenter"@] || p == seq!["companion_agents"@, "companion_reader"@]
        || p == seq!["companion_agents"@, "companion_operator"@]
}

pub fn uses_medium_mini_generated_default(path: &[&str]) -> (r: bool)
    ensures
        r == spec_uses_medium_mini_generated_default(str_views(path@)),
{
    path_is(path, "agents", "documenter") || path_is(path, "companion_agents", "companion_reader")
        || path_is(path, "companion_agents", "companion_operator")
}

/// The roles generated on the full model at high reasoning (`planner` is the
/// legacy key of the Way role).
pub open spec fn spec_is_high_reasoning_role_path(p: Seq<Seq<char>>) -> bool {
    p == seq!["agents"@, "way"@] || p == seq!["agents"@, "planner"@] || p == seq![
        "agents"@,
        "verifier"@,
    ] || p == seq!["agents"@, "code specialist"@]
}

/// A role entry after its generated defaults are brought up to date, and
/// whether anything changed: a high-reasoning role still on `gpt-5.5` at
/// `medium` goes to `high`; a role on `gpt-5.4-mini` gets the variant its
/// generated default has now and `fast_mode` back on.
pub open spec fn spec_upgrade_role_entry(o: JVal, p: Seq<Seq<char>>) -> (JVal, bool) {
    if spec_is_high_reasoning_role_path(p) {
        if jstr_field(o, "model"@) == Some("gpt-5.5"@) && jstr_field(o, "variant"@) == Some(
            "medium"@,
        ) {
            (jinsert(o, "variant"@, JVal::Str("high"@)), true)
        } else {
            (o, false)
        }
    } else if jstr_field(o, "model"@) == Some("gpt-5.4-mini"@) {
        let medium = spec_uses_medium_mini_generated_default(p);
        let stale = if medium {
            jstr_field(o, "variant"@) == Some("high"@)
        } else {
            jstr_field(o, "variant"@) == Some("medium"@)
        };
        let target: Seq<char> = if medium {
            "medium"@
        } else {
            "high"@
        };
        let o1 = if stale {
            jinsert(o, "variant"@, JVal::Str(target))
        } else {
            o
        };
        let fast_off = opt_bool(jget(o1, "fast_mode"@)) == Some(false);
        let o2 = if fast_off {
            jinsert(o1, "fast_mode"@, JVal::Bool(true))
        } else {
            o1
        };
        (o2, stale || fast_off)
    } else {
        (o, false)
    }
}

fn upgrade_role_entry(object: &mut Json, path: &[&str]) -> (changed: bool)
    ensures
        (jview(*final(object)), changed) == spec_upgrade_role_entry(
            jview(*old(object)),
            str_views(path@),
        ),
{
    let high = path_is(path, "agents", "way") || path_is(path, "agents", "planner") || path_is(
        path,
        "agents",
        "verifier",
    ) || path_is(path, "agents", "code specialist");
    if high {
        let hit = opt_str_is(object.str_field("model"), "gpt-5.5") && opt_str_is(
            object.str_field("variant"),
            "medium",
        );
        if hit {
            object.insert("variant", jstr("high"));
            true
        } else {
            false
        }
    } else if opt_str_is(object.str_field("model"), "gpt-5.4-mini") {
        let medium = uses_medium_mini_generated_default(path);
        let stale = if medium {
            opt_str_is(object.str_field("variant"), "high")
        } else {
            opt_str_is(object.str_field("variant"), "medium")
        };
        let mut changed = false;
        if stale {
            let target = if medium {
                "medium"
            } else {
                "high"
            };
            object.insert("variant", jstr(target));
            changed = true;
        }
        let fast_off = match object.bool_field("fast_mode") {
            Some(b) => !b,
            None => false,
        };
        if fast_off {
            object.insert("fast_mode", jbool(true));
            changed = true;
        }
        changed
    } else {
        false
    }
}

/// Follows `rest` from `v` to a role entry and upgrades it there (`p` is the
/// whole path); nothing changes where the path leads nowhere or to something
/// other than an object.
pub open spec fn spec_upgrade_role_at(v: JVal, rest: Seq<Seq<char>>, p: Seq<Seq<char>>) -> (
    JVal,
    bool,
)
    decreases rest.len(),
{
    if rest.len() == 0 {
        match v {
            JVal::Object(_) => spec_upgrade_role_entry(v, p),
            _ => (v, false),
        }
    } else {
        match jget(v, rest[0]) {
            Some(child) => {
                let r = spec_upgrade_role_at(child, rest.drop_first(), p);
                (jinsert(v, rest[0], r.0), r.1)
            },
            None => (v, false),
        }
    }
}

/// The config after upgrading the role entry at `p`, and whether it changed.
pub open spec fn spec_upgrade_role_generated_defaults(c: JVal, p: Seq<Seq<char>>) -> (JVal, bool) {
    spec_upgrade_role_at(c, p, p)
}

fn upgrade_role_at(node: &mut Json, path: &[&str], idx: usize) -> (changed: bool)
    requires
        idx <= path.len(),
    ensures
        (jview(*final(node)), changed) == spec_upgrade_role_at(
            jview(*old(node)),
            str_views(path@).skip(idx as int),
            str_views(path@),
        ),
    decreases path.len() - idx,
{
    let ghost rest = str_views(path@).skip(idx as int);
    if idx == path.len() {
        assert(rest.len() == 0);
        if node.is_object() {
            upgrade_role_entry(node, path)
        } else {
            false
        }
    } else {
        assert(rest[0] == path@[idx as int]@);
        assert(rest.drop_first() =~= str_views(path@).skip(idx + 1));
        let ghost before = jview(*node);
        match take_member(node, path[idx]) {
            Some(mut child) => {
                let changed = upgrade_role_at(&mut child, path, idx + 1);
                node.insert(path[idx], child);
                proof {
                    lemma_jinsert_twice(before, rest[0], JVal::Null, jview(child));
                }
                changed
            },
            None => false,
        }
    }
}

/// Brings the generated defaults of the role entry at `path` up to date.
pub fn upgrade_role_generated_defaults(config: &mut Json, path: &[&str]) -> (changed: bool)
    ensures
        (jview(*final(config)), changed) == spec_upgrade_role_generated_defaults(
            jview(*old(config)),
            str_views(path@),
        ),
{
    assert(str_views(path@).skip(0) =~= str_views(path@));
    upgrade_role_at(config, path, 0)
}

/// An orchestrator generated on `gpt-5.5` at `high` goes to `medium`.
pub open spec fn spec_upgrade_orchestrator(c: JVal) -> (JVal, bool) {
    match jget(c, "agents"@) {
        Some(agents) => match jget(agents, "orchestrator"@) {
            Some(o) => if jstr_field(o, "model"@) == Some("gpt-5.5"@) && jstr_field(o, "variant"@)
                == Some("high"@) {
                (
                    jinsert(
                        c,
                        "agents"@,
                        jinsert(agents, "orchestrator"@, jinsert(o, "variant"@, JVal::Str("medium"@))),
                    ),
                    true,
                )
            } else {
                (c, false)
            },
            None => (c, false),
        },
        None => (c, false),
    }
}

fn upgrade_orchestrator(config: &mut Json) -> (changed: bool)
    ensures
        (jview(*final(config)), changed) == spec_upgrade_orchestrator(jview(*old(config))),
{
    let hit = match config.get("agents") {
        Some(agents) => match agents.get("orchestrator") {
            Some(o) => opt_str_is(o.str_field("model"), "gpt-5.5") && opt_str_is(
                o.str_field("variant"),
                "high",
            ),
            None => false,
        },
        None => false,
    };
    if !hit {
        return false;
    }
    let ghost c0 = jview(*config);
    match take_member(config, "agents") {
        Some(mut agents) => {
            let ghost a0 = jview(agents);
            match take_member(&mut agents, "orchestrator") {
                Some(mut o) => {
                    o.insert("variant", jstr("medium"));
                    agents.insert("orchestrator", o);
                    proof {
                        lemma_jinsert_twice(a0, "orchestrator"@, JVal::Null, jview(o));
                    }
                },
                None => {},
            }
            config.insert("agents", agents);
            proof {
                lemma_jinsert_twice(c0, "agents"@, JVal::Null, jview(agents));
            }
            true
        },
        None => false,
    }
}

/// The role entries whose generated defaults are brought up to date, in order.
pub open spec fn spec_generated_role_paths() -> Seq<Seq<Seq<char>>> {
    seq![
        seq!["agents"@, "explorer"@],
        seq!["agents"@, "sentinel"@],
        seq!["agents"@, "documenter"@],
        seq!["agents"@, "code specialist"@],
        seq!["agents"@, "way"@],
        seq!["agents"@, "planner"@],
        seq!["agents"@, "verifier"@],
        seq!["companion_agents"@, "companion_reader"@],
        seq!["companion_agents"@, "companion_operator"@],
    ]
}

/// Upgrading the role entries at `paths` one after another.
pub open spec fn spec_upgrade_role_paths(c: JVal, paths: Seq<Seq<Seq<char>>>) -> (JVal, bool)
    decreases paths.len(),
{
    if paths.len() == 0 {
        (c, false)
    } else {
        let prev = spec_upgrade_role_paths(c, paths.drop_last());
        let r = spec_upgrade_role_generated_defaults(prev.0, paths.last());
        (r.0, prev.1 || r.1)
    }
}

fn upgrade_generated_roles(config: &mut Json) -> (changed: bool)
    ensures
        (jview(*final(config)), changed) == spec_upgrade_role_paths(
            jview(*old(config)),
            spec_generated_role_paths(),
        ),
{
    let paths: Vec<Vec<&str>> = vec![
        vec!["agents", "explorer"],
        vec!["agents", "sentinel"],
        vec!["agents", "documenter"],
        vec!["agents", "code specialist"],
        vec!["agents", "way"],
        vec!["agents", "planner"],
        vec!["agents", "verifier"],
        vec!["companion_agents", "companion_reader"],
        vec!["companion_agents", "companion_operator"],
    ];
    let ghost pv = spec_generated_role_paths();
    proof {
        assert(str_views(paths@[0]@) =~= pv[0]);
        assert(str_views(paths@[1]@) =~= pv[1]);
        assert(str_views(paths@[2]@) =~= pv[2]);
        assert(str_views(paths@[3]@) =~= pv[3]);
        assert(str_views(paths@[4]@) =~= pv[4]);
        assert(str_views(paths@[5]@) =~= pv[5]);
        assert(str_views(paths@[6]@) =~= pv[6]);
        assert(str_views(paths@[7]@) =~= pv[7]);
        assert(str_views(paths@[8]@) =~= pv[8]);
    }
    let ghost c0 = jview(*config);
    let mut changed = false;
    let mut i: usize = 0;
    assert(pv.take(0) =~= Seq::<Seq<Seq<char>>>::empty());
    while i < paths.len()
        invariant
            i <= paths.len(),
            paths.len() == pv.len(),
            pv == spec_generated_role_paths(),
            forall|k: int| 0 <= k < pv.len() ==> str_views(#[trigger] paths@[k]@) == pv[k],
            (jview(*config), changed) == spec_upgrade_role_paths(c0, pv.take(i as int)),
        decreases paths.len() - i,
    {
        proof {
            assert(pv.take(i + 1).drop_last() =~= pv.take(i as int));
            assert(pv.take(i + 1).last() == pv[i as int]);
            assert(str_views(paths@[i as int]@) == pv[i as int]);
        }
        let c = upgrade_role_generated_defaults(config, paths[i].as_slice());
        changed = changed || c;
        i = i + 1;
    }
    assert(pv.take(9) =~= pv);
    changed
}

/// A runtime still falling back to the retired host mode falls back to
/// `codex_exec`.
pub open spec fn spec_upgrade_runtime_fallback(c: JVal) -> (JVal, bool) {
    match jget(c, "runtime"@) {
        Some(rt) => if jstr_field(rt, "fallback_specialist_execution_mode"@) == Some(
            "visible_degraded_host_fallback"@,
        ) {
            (
                jinsert(
                    c,
                    "runtime"@,
                    jinsert(rt, "fallback_specialist_execution_mode"@, JVal::Str("codex_exec"@)),
                ),
                true,
            )
        } else {
            (c, false)
        },
        None => (c, false),
    }
}

fn upgrade_runtime_fallback(config: &mut Json) -> (changed: bool)
    ensures
        (jview(*final(config)), changed) == spec_upgrade_runtime_fallback(jview(*old(config))),
{
    let hit = match config.get("runtime") {
        Some(rt) => opt_str_is(
            rt.str_field("fallback_specialist_execution_mode"),
            "visible_degraded_host_fallback",
        ),
        None => false,
    };
    if !hit {
        return false;
    }
    let ghost c0 = jview(*config);
    match take_member(config, "runtime") {
        Some(mut rt) => {
            rt.insert("fallback_specialist_execution_mode", jstr("codex_exec"));
            config.insert("runtime", rt);
            proof {
                lemma_jinsert_twice(c0, "runtime"@, JVal::Null, jview(rt));
            }
            true
        },
        None => false,
    }
}

/// A config section backfilled from its defaults: a `null` section takes the
/// defaults, a present one gets its missing fields, an absent one is added
/// (when the config is an object).
pub open spec fn spec_backfill_section(c: JVal, key: Seq<char>, d: JVal) -> (JVal, bool) {
    match jget(c, key) {
        Some(v) => if v is Null {
            (jinsert(c, key, d), true)
        } else {
            let m = jmerge(v, d);
            (jinsert(c, key, m.0), m.1)
        },
        None => if c is Object {
            (jinsert(c, key, d), true)
        } else {
            (c, false)
        },
    }
}

fn backfill_section(config: &mut Json, key: &str, default_value: Json) -> (changed: bool)
    ensures
        (jview(*final(config)), changed) == spec_backfill_section(
            jview(*old(config)),
            key@,
            jview(default_value),
        ),
{
    let ghost c0 = jview(*config);
    match take_member(config, key) {
        Some(mut existing) => {
            let changed = if existing.is_null() {
                existing = default_value;
                true
            } else {
                merge_missing_config_fields(&mut existing, &default_value)
            };
            config.insert(key, existing);
            proof {
                lemma_jinsert_twice(c0, key@, JVal::Null, jview(existing));
            }
            changed
        },
        None => {
            if config.is_object() {
                config.insert(key, default_value);
                true
            } else {
                false
            }
        },
    }
}

/// The upgrades owed by a config written before the current generated
/// defaults, in order.
pub open spec fn spec_legacy_generated_default_upgrades(c: JVal) -> (JVal, bool) {
    let a = spec_upgrade_orchestrator(c);
    let b = spec_upgrade_role_paths(a.0, spec_generated_role_paths());
    let r = spec_upgrade_runtime_fallback(b.0);
    let f = spec_backfill_section(r.0, "features"@, spec_default_features_config());
    let g = spec_backfill_section(f.0, "goal_bridge"@, spec_default_goal_bridge_config());
    let h = spec_backfill_section(g.0, "graph_context"@, spec_default_graph_context_config());
    (h.0, a.1 || b.1 || r.1 || f.1 || g.1 || h.1)
}

/// Whether a `generated_defaults` policy lacks a current version.
pub open spec fn spec_policy_version_stale(g: JVal) -> bool {
    match opt_u64(jget(g, "version"@)) {
        Some(v) => v < CURRENT_GENERATED_DEFAULTS_VERSION,
        None => true,
    }
}

/// The `generated_defaults` policy brought to the current version: a `null`
/// or absent policy becomes the default policy; a present one gets the
/// missing policy fields and, when its version is not current and it is an
/// object, the current version. A config that is not an object is left as
/// it is.
pub open spec fn spec_stamp_generated_defaults(c: JVal) -> (JVal, bool) {
    match c {
        JVal::Object(_) => match jget(c, "generated_defaults"@) {
            Some(g) => if g is Null {
                (jinsert(c, "generated_defaults"@, spec_default_generated_defaults_policy()), true)
            } else {
                let m = jmerge(g, spec_default_generated_defaults_policy());
                if spec_policy_version_stale(m.0) && m.0 is Object {
                    (
                        jinsert(
                            c,
                            "generated_defaults"@,
                            jinsert(
                                m.0,
                                "version"@,
                                JVal::Num(CURRENT_GENERATED_DEFAULTS_VERSION as int),
                            ),
                        ),
                        true,
                    )
                } else {
                    (jinsert(c, "generated_defaults"@, m.0), m.1)
                }
            },
            None => (jinsert(c, "generated_defaults"@, spec_default_generated_defaults_policy()), true),
        },
        _ => (c, false),
    }
}

fn stamp_generated_defaults(config: &mut Json) -> (changed: bool)
    ensures
        (jview(*final(config)), changed) == spec_stamp_generated_defaults(jview(*old(config))),
{
    if !config.is_object() {
        return false;
    }
    let ghost c0 = jview(*config);
    let default_policy = default_generated_defaults_policy();
    match take_member(config, "generated_defaults") {
        Some(mut existing) => {
            let mut changed = false;
            if existing.is_null() {
                existing = default_policy;
                changed = true;
            } else {
                if merge_missing_config_fields(&mut existing, &default_policy) {
                    changed = true;
                }
                let stale = match existing.u64_field("version") {
                    Some(v) => v < CURRENT_GENERATED_DEFAULTS_VERSION,
                    None => true,
                };
                if stale && existing.is_object() {
                    existing.insert("version", juint(CURRENT_GENERATED_DEFAULTS_VERSION));
                    changed = true;
                }
            }
            config.insert("generated_defaults", existing);
            proof {
                lemma_jinsert_twice(c0, "generated_defaults"@, JVal::Null, jview(existing));
            }
            changed
        },
        None => {
            config.insert("generated_defaults", default_policy);
            true
        },
    }
}

/// A config after the generated-default drift upgrades: the legacy upgrades
/// when it was written before the current version, then the version stamp.
pub open spec fn spec_apply_generated_default_drift_upgrades(c: JVal) -> (JVal, bool) {
    let legacy = if spec_generated_defaults_version(c) < CURRENT_GENERATED_DEFAULTS_VERSION {
        spec_legacy_generated_default_upgrades(c)
    } else {
        (c, false)
    };
    let s = spec_stamp_generated_defaults(legacy.0);
    (s.0, legacy.1 || s.1)
}

/// Applies the generated-default drift upgrades and reports whether the
/// config changed.
pub fn apply_generated_default_drift_upgrades(config: &mut Json) -> (changed: bool)
    ensures
        (jview(*final(config)), changed) == spec_apply_generated_default_drift_upgrades(
            jview(*old(config)),
        ),
{
    let existing_generated_defaults_version = generated_defaults_version(config);
    let mut changed = false;
    if existing_generated_defaults_version < CURRENT_GENERATED_DEFAULTS_VERSION {
        if upgrade_orchestrator(config) {
            changed = true;
        }
        if upgrade_generated_roles(config) {
            changed = true;
        }
        if upgrade_runtime_fallback(config) {
            changed = true;
        }
        if backfill_section(config, "features", default_features_config()) {
            changed = true;
        }
        if backfill_section(config, "goal_bridge", default_goal_bridge_config()) {
            changed = true;
        }
        if backfill_section(config, "graph_context", default_graph_context_config()) {
            changed = true;
        }
    }
    if stamp_generated_defaults(config) {
        changed = true;
    }
    changed
}

/// Whether a config can carry the version stamp: an object whose
/// `generated_defaults` is absent, `null` or an object.
pub open spec fn spec_generated_defaults_stampable(c: JVal) -> bool {
    &&& c is Object
    &&& match jget(c, "generated_defaults"@) {
        Some(g) => g is Null || g is Object,
        None => true,
    }
}

proof fn lemma_policy_key_is_apart()
    ensures
        "generated_defaults"@ != "agents"@,
        "generated_defaults"@ != "companion_agents"@,
        "generated_defaults"@ != "runtime"@,
        "generated_defaults"@ != "features"@,
        "generated_defaults"@ != "goal_bridge"@,
        "generated_defaults"@ != "graph_context"@,
        "version"@ != "policy"@,
{
    reveal_strlit("generated_defaults");
    reveal_strlit("agents");
    reveal_strlit("companion_agents");
    reveal_strlit("runtime");
    reveal_strlit("features");
    reveal_strlit("goal_bridge");
    reveal_strlit("graph_context");
    reveal_strlit("version");
    reveal_strlit("policy");
    assert("generated_defaults"@.len() == 18);
    assert("agents"@.len() == 6);
    assert("companion_agents"@.len() == 16);
    assert("runtime"@.len() == 7);
    assert("features"@.len() == 8);
    assert("goal_bridge"@.len() == 11);
    assert("graph_context"@.len() == 13);
    assert("version"@.len() == 7);
    assert("policy"@.len() == 6);
}

/// An insert under another name keeps an object an object and keeps the
/// lookup of `key`.
proof fn lemma_insert_elsewhere(c: JVal, k: Seq<char>, v: JVal, key: Seq<char>)
    requires
        k != key,
    ensures
        (c is Object) == (jinsert(c, k, v) is Object),
        jget(jinsert(c, k, v), key) == jget(c, key),
{
    lemma_jget_jinsert_other(c, k, v, key);
}

proof fn lemma_role_paths_keep(c: JVal, paths: Seq<Seq<Seq<char>>>, key: Seq<char>)
    requires
        forall|j: int| 0 <= j < paths.len() ==> (#[trigger] paths[j]).len() > 0 && paths[j][0] != key,
    ensures
        (c is Object) == (spec_upgrade_role_paths(c, paths).0 is Object),
        jget(spec_upgrade_role_paths(c, paths).0, key) == jget(c, key),
    decreases paths.len(),
{
    if paths.len() > 0 {
        let dp = paths.drop_last();
        assert forall|j: int| 0 <= j < dp.len() implies (#[trigger] dp[j]).len() > 0 && dp[j][0]
            != key by {
            assert(dp[j] == paths[j]);
        }
        lemma_role_paths_keep(c, dp, key);
        let prev = spec_upgrade_role_paths(c, dp).0;
        let p = paths[paths.len() - 1];
        assert(p.len() > 0 && p[0] != key);
        match jget(prev, p[0]) {
            Some(child) => {
                let r = spec_upgrade_role_at(child, p.drop_first(), p);
                lemma_insert_elsewhere(prev, p[0], r.0, key);
            },
            None => {},
        }
    }
}

proof fn lemma_legacy_upgrades_keep_policy(c: JVal)
    ensures
        (c is Object) == (spec_legacy_generated_default_upgrades(c).0 is Object),
        jget(spec_legacy_generated_default_upgrades(c).0, "generated_defaults"@) == jget(
            c,
            "generated_defaults"@,
        ),
{
    let gd = "generated_defaults"@;
    lemma_policy_key_is_apart();
    let a = spec_upgrade_orchestrator(c);
    match jget(c, "agents"@) {
        Some(agents) => match jget(agents, "orchestrator"@) {
            Some(o) => {
                lemma_insert_elsewhere(
                    c,
                    "agents"@,
                    jinsert(agents, "orchestrator"@, jinsert(o, "variant"@, JVal::Str("medium"@))),
                    gd,
                );
            },
            None => {},
        },
        None => {},
    }
    let paths = spec_generated_role_paths();
    assert forall|j: int| 0 <= j < paths.len() implies (#[trigger] paths[j]).len() > 0
        && paths[j][0] != gd by {
        if j < 7 {
            assert(paths[j][0] == "agents"@);
        } else {
            assert(paths[j][0] == "companion_agents"@);
        }
    }
    lemma_role_paths_keep(a.0, paths, gd);
    let b = spec_upgrade_role_paths(a.0, paths);
    match jget(b.0, "runtime"@) {
        Some(rt) => {
            lemma_insert_elsewhere(
                b.0,
                "runtime"@,
                jinsert(rt, "fallback_specialist_execution_mode"@, JVal::Str("codex_exec"@)),
                gd,
            );
        },
        None => {},
    }
    let r = spec_upgrade_runtime_fallback(b.0);
    lemma_backfill_section_keeps(r.0, "features"@, spec_default_features_config(), gd);
    let f = spec_backfill_section(r.0, "features"@, spec_default_features_config());
    lemma_backfill_section_keeps(f.0, "goal_bridge"@, spec_default_goal_bridge_config(), gd);
    let g = spec_backfill_section(f.0, "goal_bridge"@, spec_default_goal_bridge_config());
    lemma_backfill_section_keeps(g.0, "graph_context"@, spec_default_graph_context_config(), gd);
}

proof fn lemma_backfill_section_keeps(c: JVal, k: Seq<char>, d: JVal, key: Seq<char>)
    requires
        k != key,
    ensures
        (c is Object) == (spec_backfill_section(c, k, d).0 is Object),
        jget(spec_backfill_section(c, k, d).0, key) == jget(c, key),
{
    match jget(c, k) {
        Some(v) => {
            lemma_insert_elsewhere(c, k, d, key);
            lemma_insert_elsewhere(c, k, jmerge(v, d).0, key);
        },
        None => {
            lemma_insert_elsewhere(c, k, d, key);
        },
    }
}

/// The default policy holds the current version and a policy name.
proof fn lemma_default_policy_fields()
    ensures
        spec_default_generated_defaults_policy() is Object,
        jget(spec_default_generated_defaults_policy(), "version"@) == Some(
            JVal::Num(CURRENT_GENERATED_DEFAULTS_VERSION as int),
        ),
        jpresent(jget(spec_default_generated_defaults_policy(), "policy"@)),
        defaults_have_no_null_members(spec_default_generated_defaults_policy()->Object_0),
        forall|j: int|
            0 <= j < spec_default_generated_defaults_policy()->Object_0.len() ==> !(
            #[trigger] spec_default_generated_defaults_policy()->Object_0[j].1 is Object),
        spec_default_generated_defaults_policy()->Object_0.len() == 2,
        spec_default_generated_defaults_policy()->Object_0[0].0 == "version"@,
        spec_default_generated_defaults_policy()->Object_0[1].0 == "policy"@,
{
    lemma_policy_key_is_apart();
    let m = spec_default_generated_defaults_policy()->Object_0;
    lemma_jmember_index_scan(m, "policy"@, 1);
}

/// What the version stamp leaves under `generated_defaults` of a stampable
/// config: an object with a current version and a policy name.
proof fn lemma_stamp_result(c: JVal)
    requires
        spec_generated_defaults_stampable(c),
    ensures
        ({
            let r = spec_stamp_generated_defaults(c).0;
            &&& r is Object
            &&& jget(r, "generated_defaults"@) is Some
            &&& jget(r, "generated_defaults"@)->0 is Object
            &&& spec_generated_defaults_version(r) >= CURRENT_GENERATED_DEFAULTS_VERSION
            &&& jpresent(jget(jget(r, "generated_defaults"@)->0, "version"@))
            &&& jpresent(jget(jget(r, "generated_defaults"@)->0, "policy"@))
        }),
{
    let gd = "generated_defaults"@;
    let policy = spec_default_generated_defaults_policy();
    lemma_default_policy_fields();
    lemma_policy_key_is_apart();
    let g2 = match jget(c, gd) {
        Some(g) => if g is Null {
            policy
        } else {
            let m = jmerge(g, policy);
            lemma_merge_has_default_keys(g, policy);
            assert(policy->Object_0[0].0 == "version"@);
            assert(policy->Object_0[1].0 == "policy"@);
            assert(jpresent(jget(m.0, policy->Object_0[0].0)));
            assert(jpresent(jget(m.0, policy->Object_0[1].0)));
            if spec_policy_version_stale(m.0) && m.0 is Object {
                let g3 = jinsert(m.0, "version"@, JVal::Num(CURRENT_GENERATED_DEFAULTS_VERSION as int));
                lemma_jget_jinsert_same(m.0, "version"@, JVal::Num(CURRENT_GENERATED_DEFAULTS_VERSION as int));
                lemma_jget_jinsert_other(m.0, "version"@, JVal::Num(CURRENT_GENERATED_DEFAULTS_VERSION as int), "policy"@);
                g3
            } else {
                m.0
            }
        },
        None => policy,
    };
    lemma_jget_jinsert_same(c, gd, g2);
}

/// On a stampable config, the drift upgrades leave a version stamp no older
/// than the current generated defaults.
pub proof fn lemma_drift_upgrade_stamps_current_version(c: JVal)
    requires
        spec_generated_defaults_stampable(c),
    ensures
        spec_generated_defaults_version(spec_apply_generated_default_drift_upgrades(c).0)
            >= CURRENT_GENERATED_DEFAULTS_VERSION,
{
    if spec_generated_defaults_version(c) < CURRENT_GENERATED_DEFAULTS_VERSION {
        lemma_legacy_upgrades_keep_policy(c);
    }
    let legacy = if spec_generated_defaults_version(c) < CURRENT_GENERATED_DEFAULTS_VERSION {
        spec_legacy_generated_default_upgrades(c)
    } else {
        (c, false)
    };
    assert(spec_generated_defaults_stampable(legacy.0));
    lemma_stamp_result(legacy.0);
}

/// On a stampable config, the drift upgrades are idempotent: a second run
/// reports no change and leaves the config as the first run left it.
pub proof fn lemma_drift_upgrade_idempotent(c: JVal)
    requires
        spec_generated_defaults_stampable(c),
    ensures
        ({
            let once = spec_apply_generated_default_drift_upgrades(c).0;
            spec_apply_generated_default_drift_upgrades(once) == (once, false)
        }),
{
    let gd = "generated_defaults"@;
    let policy = spec_default_generated_defaults_policy();
    if spec_generated_defaults_version(c) < CURRENT_GENERATED_DEFAULTS_VERSION {
        lemma_legacy_upgrades_keep_policy(c);
    }
    let legacy = if spec_generated_defaults_version(c) < CURRENT_GENERATED_DEFAULTS_VERSION {
        spec_legacy_generated_default_upgrades(c)
    } else {
        (c, false)
    };
    assert(spec_generated_defaults_stampable(legacy.0));
    lemma_stamp_result(legacy.0);
    let once = spec_apply_generated_default_drift_upgrades(c).0;
    let g = jget(once, gd)->0;
    lemma_default_policy_fields();
    assert forall|j: int| 0 <= j < policy->Object_0.len() implies jpresent(
        jget(g, #[trigger] policy->Object_0[j].0),
    ) by {
        if j == 0 {
        } else {
            assert(j == 1);
        }
    }
    lemma_merge_flat_defaults_covered(g, policy);
    lemma_jinsert_present(once, gd, g);
}

proof fn lemma_upgrade_role_at_unreported(v: JVal, rest: Seq<Seq<char>>, p: Seq<Seq<char>>)
    ensures
        !spec_upgrade_role_at(v, rest, p).1 ==> spec_upgrade_role_at(v, rest, p).0 == v,
    decreases rest.len(),
{
    if rest.len() > 0 {
        match jget(v, rest[0]) {
            Some(child) => {
                lemma_upgrade_role_at_unreported(child, rest.drop_first(), p);
                lemma_jinsert_present(v, rest[0], child);
            },
            None => {},
        }
    }
}

/// A role upgrade that reports no change leaves the config as it was.
pub proof fn lemma_upgrade_role_unreported_is_unchanged(c: JVal, p: Seq<Seq<char>>)
    ensures
        !spec_upgrade_role_generated_defaults(c, p).1 ==> spec_upgrade_role_generated_defaults(
            c,
            p,
        ).0 == c,
{
    lemma_upgrade_role_at_unreported(c, p, p);
}


/// The generated agent sections: the specialist agents and the companion
/// agents, as setup writes them.
pub open spec fn spec_generated_role_sections() -> JVal {
    JVal::Object(
        seq![
            ("agents"@, crate::config_defaults::spec_default_specialist_agents_config()),
            ("companion_agents"@, crate::config_defaults::spec_default_companion_agents_config()),
        ],
    )
}

proof fn lemma_managed_agent_fields(
    name: Seq<char>,
    summary: Seq<char>,
    model: Seq<char>,
    variant: Seq<char>,
    fast_mode: bool,
    md: JVal,
)
    ensures
        jstr_field(crate::config_defaults::spec_managed_agent_config(name, summary, model, variant, fast_mode, md), "model"@)
            == Some(model),
        jstr_field(crate::config_defaults::spec_managed_agent_config(name, summary, model, variant, fast_mode, md), "variant"@)
            == Some(variant),
        jget(crate::config_defaults::spec_managed_agent_config(name, summary, model, variant, fast_mode, md), "fast_mode"@)
            == Some(JVal::Bool(fast_mode)),
{
    reveal_strlit("name");
    reveal_strlit("summary");
    reveal_strlit("model");
    reveal_strlit("variant");
    reveal_strlit("fast_mode");
    reveal_strlit("config_entries");
    assert("name"@.len() != "summary"@.len());
    assert("name"@.len() != "model"@.len());
    assert("name"@.len() != "variant"@.len());
    assert("name"@.len() != "fast_mode"@.len());
    assert("name"@.len() != "config_entries"@.len());
    assert("summary"@.len() != "model"@.len());
    assert("summary"@[0] != "variant"@[0]);
    assert("summary"@.len() != "fast_mode"@.len());
    assert("summary"@.len() != "config_entries"@.len());
    assert("model"@.len() != "variant"@.len());
    assert("model"@.len() != "fast_mode"@.len());
    assert("model"@.len() != "config_entries"@.len());
    assert("variant"@.len() != "fast_mode"@.len());
    assert("variant"@.len() != "config_entries"@.len());
    assert("fast_mode"@.len() != "config_entries"@.len());
    let b = crate::config_defaults::spec_managed_agent_base(name, summary, model, variant, fast_mode);
    reveal_with_fuel(crate::json::jmember_index, 6);
    assert(jget(b, "model"@) == Some(JVal::Str(model)));
    assert(jget(b, "variant"@) == Some(JVal::Str(variant)));
    assert(jget(b, "fast_mode"@) == Some(JVal::Bool(fast_mode)));
    if md is Object {
        crate::config_merge::lemma_merge_keeps_scalars(b, md);
        assert(jget(jmerge(b, md).0, "model"@) == jget(b, "model"@));
        assert(jget(jmerge(b, md).0, "variant"@) == jget(b, "variant"@));
        assert(jget(jmerge(b, md).0, "fast_mode"@) == jget(b, "fast_mode"@));
    }
}

proof fn lemma_managed_roles_fields()
    ensures
        forall|key: Seq<char>, name: Seq<char>, summary: Seq<char>, model: Seq<char>, variant: Seq<char>|
            {
                let e = #[trigger] crate::config_defaults::spec_managed_role(key, name, summary, model, variant);
                &&& jstr_field(e, "model"@) == Some(model)
                &&& jstr_field(e, "variant"@) == Some(variant)
                &&& jget(e, "fast_mode"@) == Some(JVal::Bool(true))
            },
{
    assert forall|key: Seq<char>, name: Seq<char>, summary: Seq<char>, model: Seq<char>, variant: Seq<char>|
        {
            let e = #[trigger] crate::config_defaults::spec_managed_role(key, name, summary, model, variant);
            &&& jstr_field(e, "model"@) == Some(model)
            &&& jstr_field(e, "variant"@) == Some(variant)
            &&& jget(e, "fast_mode"@) == Some(JVal::Bool(true))
        } by {
        lemma_managed_agent_fields(
            name,
            summary,
            model,
            variant,
            true,
            crate::config_defaults::spec_role_metadata_for_config_key(key)->0,
        );
    }
}

proof fn lemma_upgrade_role_variant(o: JVal, p: Seq<Seq<char>>)
    requires
        o is Object,
    ensures
        jstr_field(spec_upgrade_role_entry(o, p).0, "variant"@) == jstr_field(o, "variant"@) || jstr_field(
            spec_upgrade_role_entry(o, p).0,
            "variant"@,
        ) == Some(
            if !spec_is_high_reasoning_role_path(p) && spec_uses_medium_mini_generated_default(p) {
                "medium"@
            } else {
                "high"@
            },
        ),
{
    reveal_strlit("variant");
    reveal_strlit("fast_mode");
    assert("variant"@.len() != "fast_mode"@.len());
    lemma_jget_jinsert_same(o, "variant"@, JVal::Str("high"@));
    lemma_jget_jinsert_same(o, "variant"@, JVal::Str("medium"@));
    let o1h = jinsert(o, "variant"@, JVal::Str("high"@));
    let o1m = jinsert(o, "variant"@, JVal::Str("medium"@));
    lemma_jget_jinsert_other(o1h, "fast_mode"@, JVal::Bool(true), "variant"@);
    lemma_jget_jinsert_other(o1m, "fast_mode"@, JVal::Bool(true), "variant"@);
    lemma_jget_jinsert_other(o, "fast_mode"@, JVal::Bool(true), "variant"@);
}

/// The role path words, models and variants, spelled out.
proof fn lemma_role_path_words_spelled()
    ensures
        "agents"@.len() == 6,
        "agents"@[0] == 'a',
        "code specialist"@.len() == 15,
        "companion_agents"@.len() == 16,
        "companion_agents"@[0] == 'c',
        "companion_agents"@[1] == 'o',
        "companion_agents"@[2] == 'm',
        "companion_agents"@[3] == 'p',
        "companion_agents"@[4] == 'a',
        "companion_agents"@[5] == 'n',
        "companion_agents"@[6] == 'i',
        "companion_agents"@[7] == 'o',
        "companion_agents"@[8] == 'n',
        "companion_agents"@[9] == '_',
        "companion_agents"@[10] == 'a',
        "companion_operator"@.len() == 18,
        "companion_reader"@.len() == 16,
        "companion_reader"@[0] == 'c',
        "companion_reader"@[1] == 'o',
        "companion_reader"@[2] == 'm',
        "companion_reader"@[3] == 'p',
        "companion_reader"@[4] == 'a',
        "companion_reader"@[5] == 'n',
        "companion_reader"@[6] == 'i',
        "companion_reader"@[7] == 'o',
        "companion_reader"@[8] == 'n',
        "companion_reader"@[9] == '_',
        "companion_reader"@[10] == 'r',
        "documenter"@.len() == 10,
        "explorer"@.len() == 8,
        "explorer"@[0] == 'e',
        "gpt-5.4-mini"@.len() == 12,
        "gpt-5.5"@.len() == 7,
        "gpt-5.5"@[0] == 'g',
        "high"@.len() == 4,
        "medium"@.len() == 6,
        "medium"@[0] == 'm',
        "planner"@.len() == 7,
        "planner"@[0] == 'p',
        "sentinel"@.len() == 8,
        "sentinel"@[0] == 's',
        "verifier"@.len() == 8,
        "verifier"@[0] == 'v',
        "way"@.len() == 3,
{
    reveal_strlit("agents");
    reveal_strlit("code specialist");
    reveal_strlit("companion_agents");
    reveal_strlit("companion_operator");
    reveal_strlit("companion_reader");
    reveal_strlit("documenter");
    reveal_strlit("explorer");
    reveal_strlit("gpt-5.4-mini");
    reveal_strlit("gpt-5.5");
    reveal_strlit("high");
    reveal_strlit("medium");
    reveal_strlit("planner");
    reveal_strlit("sentinel");
    reveal_strlit("verifier");
    reveal_strlit("way");
}

#[verifier::rlimit(50)]
proof fn lemma_default_role_path_0()
    ensures
        match crate::json::jget_path(spec_generated_role_sections(), seq!["agents"@, "explorer"@]) {
            Some(e) => spec_upgrade_role_entry(e, seq!["agents"@, "explorer"@]) == (e, false),
            None => false,
        },
        forall|o: JVal|
            #![trigger jstr_field(o, "variant"@)]
            o is Object ==> jstr_field(spec_upgrade_role_entry(o, seq!["agents"@, "explorer"@]).0, "variant"@) == jstr_field(o, "variant"@)
                || jstr_field(spec_upgrade_role_entry(o, seq!["agents"@, "explorer"@]).0, "variant"@) == jstr_field(
                crate::json::jget_path(spec_generated_role_sections(), seq!["agents"@, "explorer"@])->0,
                "variant"@,
            ),
{
    lemma_role_path_words_spelled();
    let root = spec_generated_role_sections();
    let sec = crate::config_defaults::spec_default_specialist_agents_config();
    let p = seq!["agents"@, "explorer"@];
    lemma_jmember_index_scan(root->Object_0, "agents"@, 0);
    assert(jget(root, "agents"@) == Some(sec));
    assert(p.drop_first() =~= seq!["explorer"@]);
    assert(seq!["explorer"@].drop_first() =~= Seq::<Seq<char>>::empty());
    lemma_jmember_index_scan(sec->Object_0, "explorer"@, 1);
    let e = sec->Object_0[1].1;
    assert(jget(sec, "explorer"@) == Some(e));
    reveal_with_fuel(crate::json::jget_path, 3);
    assert(crate::json::jget_path(e, Seq::<Seq<char>>::empty()) == Some(e));
    assert(crate::json::jget_path(sec, p.drop_first()) == Some(e));
    assert(crate::json::jget_path(root, p) == Some(e));
    lemma_managed_roles_fields();
    assert forall|o: JVal| #![trigger jstr_field(o, "variant"@)] o is Object implies jstr_field(spec_upgrade_role_entry(o, p).0, "variant"@)
        == jstr_field(o, "variant"@) || jstr_field(spec_upgrade_role_entry(o, p).0, "variant"@) == jstr_field(
        e,
        "variant"@,
    ) by {
        lemma_upgrade_role_variant(o, p);
    }
}

#[verifier::rlimit(50)]
proof fn lemma_default_role_path_1()
    ensures
        match crate::json::jget_path(spec_generated_role_sections(), seq!["agents"@, "sentinel"@]) {
            Some(e) => spec_upgrade_role_entry(e, seq!["agents"@, "sentinel"@]) == (e, false),
            None => false,
        },
        forall|o: JVal|
            #![trigger jstr_field(o, "variant"@)]
            o is Object ==> jstr_field(spec_upgrade_role_entry(o, seq!["agents"@, "sentinel"@]).0, "variant"@) == jstr_field(o, "variant"@)
                || jstr_field(spec_upgrade_role_entry(o, seq!["agents"@, "sentinel"@]).0, "variant"@) == jstr_field(
                crate::json::jget_path(spec_generated_role_sections(), seq!["agents"@, "sentinel"@])->0,
                "variant"@,
            ),
{
    lemma_role_path_words_spelled();
    let root = spec_generated_role_sections();
    let sec = crate::config_defaults::spec_default_specialist_agents_config();
    let p = seq!["agents"@, "sentinel"@];
    lemma_jmember_index_scan(root->Object_0, "agents"@, 0);
    assert(jget(root, "agents"@) == Some(sec));
    assert(p.drop_first() =~= seq!["sentinel"@]);
    assert(seq!["sentinel"@].drop_first() =~= Seq::<Seq<char>>::empty());
    lemma_jmember_index_scan(sec->Object_0, "sentinel"@, 5);
    let e = sec->Object_0[5].1;
    assert(jget(sec, "sentinel"@) == Some(e));
    reveal_with_fuel(crate::json::jget_path, 3);
    assert(crate::json::jget_path(e, Seq::<Seq<char>>::empty()) == Some(e));
    assert(crate::json::jget_path(sec, p.drop_first()) == Some(e));
    assert(crate::json::jget_path(root, p) == Some(e));
    lemma_managed_roles_fields();
    assert forall|o: JVal| #![trigger jstr_field(o, "variant"@)] o is Object implies jstr_field(spec_upgrade_role_entry(o, p).0, "variant"@)
        == jstr_field(o, "variant"@) || jstr_field(spec_upgrade_role_entry(o, p).0, "variant"@) == jstr_field(
        e,
        "variant"@,
    ) by {
        lemma_upgrade_role_variant(o, p);
    }
}

#[verifier::rlimit(50)]
proof fn lemma_default_role_path_2()
    ensures
        match crate::json::jget_path(spec_generated_role_sections(), seq!["agents"@, "documenter"@]) {
            Some(e) => spec_upgrade_role_entry(e, seq!["agents"@, "documenter"@]) == (e, false),
            None => false,
        },
        forall|o: JVal|
            #![trigger jstr_field(o, "variant"@)]
            o is Object ==> jstr_field(spec_upgrade_role_entry(o, seq!["agents"@, "documenter"@]).0, "variant"@) == jstr_field(o, "variant"@)
                || jstr_field(spec_upgrade_role_entry(o, seq!["agents"@, "documenter"@]).0, "variant"@) == jstr_field(
                crate::json::jget_path(spec_generated_role_sections(), seq!["agents"@, "documenter"@])->0,
                "variant"@,
            ),
{
    lemma_role_path_words_spelled();
    let root = spec_generated_role_sections();
    let sec = crate::config_defaults::spec_default_specialist_agents_config();
    let p = seq!["agents"@, "documenter"@];
    lemma_jmember_index_scan(root->Object_0, "agents"@, 0);
    assert(jget(root, "agents"@) == Some(sec));
    assert(p.drop_first() =~= seq!["documenter"@]);
    assert(seq!["documenter"@].drop_first() =~= Seq::<Seq<char>>::empty());
    lemma_jmember_index_scan(sec->Object_0, "documenter"@, 3);
    let e = sec->Object_0[3].1;
    assert(jget(sec, "documenter"@) == Some(e));
    reveal_with_fuel(crate::json::jget_path, 3);
    assert(crate::json::jget_path(e, Seq::<Seq<char>>::empty()) == Some(e));
    assert(crate::json::jget_path(sec, p.drop_first()) == Some(e));
    assert(crate::json::jget_path(root, p) == Some(e));
    lemma_managed_roles_fields();
    assert forall|o: JVal| #![trigger jstr_field(o, "variant"@)] o is Object implies jstr_field(spec_upgrade_role_entry(o, p).0, "variant"@)
        == jstr_field(o, "variant"@) || jstr_field(spec_upgrade_role_entry(o, p).0, "variant"@) == jstr_field(
        e,
        "variant"@,
    ) by {
        lemma_upgrade_role_variant(o, p);
    }
}

#[verifier::rlimit(50)]
proof fn lemma_default_role_path_3()
    ensures
        match crate::json::jget_path(spec_generated_role_sections(), seq!["agents"@, "code specialist"@]) {
            Some(e) => spec_upgrade_role_entry(e, seq!["agents"@, "code specialist"@]) == (e, false),
            None => false,
        },
        forall|o: JVal|
            #![trigger jstr_field(o, "variant"@)]
            o is Object ==> jstr_field(spec_upgrade_role_entry(o, seq!["agents"@, "code specialist"@]).0, "variant"@) == jstr_field(o, "variant"@)
                || jstr_field(spec_upgrade_role_entry(o, seq!["agents"@, "code specialist"@]).0, "variant"@) == jstr_field(
                crate::json::jget_path(spec_generated_role_sections(), seq!["agents"@, "code specialist"@])->0,
                "variant"@,
            ),
{
    lemma_role_path_words_spelled();
    let root = spec_generated_role_sections();
    let sec = crate::config_defaults::spec_default_specialist_agents_config();
    let p = seq!["agents"@, "code specialist"@];
    lemma_jmember_index_scan(root->Object_0, "agents"@, 0);
    assert(jget(root, "agents"@) == Some(sec));
    assert(p.drop_first() =~= seq!["code specialist"@]);
    assert(seq!["code specialist"@].drop_first() =~= Seq::<Seq<char>>::empty());
    lemma_jmember_index_scan(sec->Object_0, "code specialist"@, 2);
    let e = sec->Object_0[2].1;
    assert(jget(sec, "code specialist"@) == Some(e));
    reveal_with_fuel(crate::json::jget_path, 3);
    assert(crate::json::jget_path(e, Seq::<Seq<char>>::empty()) == Some(e));
    assert(crate::json::jget_path(sec, p.drop_first()) == Some(e));
    assert(crate::json::jget_path(root, p) == Some(e));
    lemma_managed_roles_fields();
    assert forall|o: JVal| #![trigger jstr_field(o, "variant"@)] o is Object implies jstr_field(spec_upgrade_role_entry(o, p).0, "variant"@)
        == jstr_field(o, "variant"@) || jstr_field(spec_upgrade_role_entry(o, p).0, "variant"@) == jstr_field(
        e,
        "variant"@,
    ) by {
        lemma_upgrade_role_variant(o, p);
    }
}

#[verifier::rlimit(50)]
proof fn lemma_default_role_path_4()
    ensures
        match crate::json::jget_path(spec_generated_role_sections(), seq!["agents"@, "way"@]) {
            Some(e) => spec_upgrade_role_entry(e, seq!["agents"@, "way"@]) == (e, false),
            None => false,
        },
        forall|o: JVal|
            #![trigger jstr_field(o, "variant"@)]
            o is Object ==> jstr_field(spec_upgrade_role_entry(o, seq!["agents"@, "way"@]).0, "variant"@) == jstr_field(o, "variant"@)
                || jstr_field(spec_upgrade_role_entry(o, seq!["agents"@, "way"@]).0, "variant"@) == jstr_field(
                crate::json::jget_path(spec_generated_role_sections(), seq!["agents"@, "way"@])->0,
                "variant"@,
            ),
{
    lemma_role_path_words_spelled();
    let root = spec_generated_role_sections();
    let sec = crate::config_defaults::spec_default_specialist_agents_config();
    let p = seq!["agents"@, "way"@];
    lemma_jmember_index_scan(root->Object_0, "agents"@, 0);
    assert(jget(root, "agents"@) == Some(sec));
    assert(p.drop_first() =~= seq!["way"@]);
    assert(seq!["way"@].drop_first() =~= Seq::<Seq<char>>::empty());
    lemma_jmember_index_scan(sec->Object_0, "way"@, 0);
    let e = sec->Object_0[0].1;
    assert(jget(sec, "way"@) == Some(e));
    reveal_with_fuel(crate::json::jget_path, 3);
    assert(crate::json::jget_path(e, Seq::<Seq<char>>::empty()) == Some(e));
    assert(crate::json::jget_path(sec, p.drop_first()) == Some(e));
    assert(crate::json::jget_path(root, p) == Some(e));
    lemma_managed_roles_fields();
    assert forall|o: JVal| #![trigger jstr_field(o, "variant"@)] o is Object implies jstr_field(spec_upgrade_role_entry(o, p).0, "variant"@)
        == jstr_field(o, "variant"@) || jstr_field(spec_upgrade_role_entry(o, p).0, "variant"@) == jstr_field(
        e,
        "variant"@,
    ) by {
        lemma_upgrade_role_variant(o, p);
    }
}

#[verifier::rlimit(50)]
proof fn lemma_default_role_path_5()
    ensures
        crate::json::jget_path(spec_generated_role_sections(), seq!["agents"@, "planner"@]) is None,
{
    lemma_role_path_words_spelled();
    let root = spec_generated_role_sections();
    let sec = crate::config_defaults::spec_default_specialist_agents_config();
    let p = seq!["agents"@, "planner"@];
    lemma_jmember_index_scan(root->Object_0, "agents"@, 0);
    assert(jget(root, "agents"@) == Some(sec));
    assert(p.drop_first() =~= seq!["planner"@]);
    assert(seq!["planner"@].drop_first() =~= Seq::<Seq<char>>::empty());
    lemma_jmember_index_scan(sec->Object_0, "planner"@, sec->Object_0.len() as int);
    assert(jget(sec, "planner"@) is None);
    reveal_with_fuel(crate::json::jget_path, 3);
    assert(crate::json::jget_path(sec, p.drop_first()) is None);
}

#[verifier::rlimit(50)]
proof fn lemma_default_role_path_6()
    ensures
        match crate::json::jget_path(spec_generated_role_sections(), seq!["agents"@, "verifier"@]) {
            Some(e) => spec_upgrade_role_entry(e, seq!["agents"@, "verifier"@]) == (e, false),
            None => false,
        },
        forall|o: JVal|
            #![trigger jstr_field(o, "variant"@)]
            o is Object ==> jstr_field(spec_upgrade_role_entry(o, seq!["agents"@, "verifier"@]).0, "variant"@) == jstr_field(o, "variant"@)
                || jstr_field(spec_upgrade_role_entry(o, seq!["agents"@, "verifier"@]).0, "variant"@) == jstr_field(
                crate::json::jget_path(spec_generated_role_sections(), seq!["agents"@, "verifier"@])->0,
                "variant"@,
            ),
{
    lemma_role_path_words_spelled();
    let root = spec_generated_role_sections();
    let sec = crate::config_defaults::spec_default_specialist_agents_config();
    let p = seq!["agents"@, "verifier"@];
    lemma_jmember_index_scan(root->Object_0, "agents"@, 0);
    assert(jget(root, "agents"@) == Some(sec));
    assert(p.drop_first() =~= seq!["verifier"@]);
    assert(seq!["verifier"@].drop_first() =~= Seq::<Seq<char>>::empty());
    lemma_jmember_index_scan(sec->Object_0, "verifier"@, 4);
    let e = sec->Object_0[4].1;
    assert(jget(sec, "verifier"@) == Some(e));
    reveal_with_fuel(crate::json::jget_path, 3);
    assert(crate::json::jget_path(e, Seq::<Seq<char>>::empty()) == Some(e));
    assert(crate::json::jget_path(sec, p.drop_first()) == Some(e));
    assert(crate::json::jget_path(root, p) == Some(e));
    lemma_managed_roles_fields();
    assert forall|o: JVal| #![trigger jstr_field(o, "variant"@)] o is Object implies jstr_field(spec_upgrade_role_entry(o, p).0, "variant"@)
        == jstr_field(o, "variant"@) || jstr_field(spec_upgrade_role_entry(o, p).0, "variant"@) == jstr_field(
        e,
        "variant"@,
    ) by {
        lemma_upgrade_role_variant(o, p);
    }
}

#[verifier::rlimit(50)]
proof fn lemma_default_role_path_7()
    ensures
        match crate::json::jget_path(spec_generated_role_sections(), seq!["companion_agents"@, "companion_reader"@]) {
            Some(e) => spec_upgrade_role_entry(e, seq!["companion_agents"@, "companion_reader"@]) == (e, false),
            None => false,
        },
        forall|o: JVal|
            #![trigger jstr_field(o, "variant"@)]
            o is Object ==> jstr_field(spec_upgrade_role_entry(o, seq!["companion_agents"@, "companion_reader"@]).0, "variant"@) == jstr_field(o, "variant"@)
                || jstr_field(spec_upgrade_role_entry(o, seq!["companion_agents"@, "companion_reader"@]).0, "variant"@) == jstr_field(
                crate::json::jget_path(spec_generated_role_sections(), seq!["companion_agents"@, "companion_reader"@])->0,
                "variant"@,
            ),
{
    lemma_role_path_words_spelled();
    let root = spec_generated_role_sections();
    let sec = crate::config_defaults::spec_default_companion_agents_config();
    let p = seq!["companion_agents"@, "companion_reader"@];
    lemma_jmember_index_scan(root->Object_0, "companion_agents"@, 1);
    assert(jget(root, "companion_agents"@) == Some(sec));
    assert(p.drop_first() =~= seq!["companion_reader"@]);
    assert(seq!["companion_reader"@].drop_first() =~= Seq::<Seq<char>>::empty());
    lemma_jmember_index_scan(sec->Object_0, "companion_reader"@, 0);
    let e = sec->Object_0[0].1;
    assert(jget(sec, "companion_reader"@) == Some(e));
    reveal_with_fuel(crate::json::jget_path, 3);
    assert(crate::json::jget_path(e, Seq::<Seq<char>>::empty()) == Some(e));
    assert(crate::json::jget_path(sec, p.drop_first()) == Some(e));
    assert(crate::json::jget_path(root, p) == Some(e));
    lemma_managed_roles_fields();
    assert forall|o: JVal| #![trigger jstr_field(o, "variant"@)] o is Object implies jstr_field(spec_upgrade_role_entry(o, p).0, "variant"@)
        == jstr_field(o, "variant"@) || jstr_field(spec_upgrade_role_entry(o, p).0, "variant"@) == jstr_field(
        e,
        "variant"@,
    ) by {
        lemma_upgrade_role_variant(o, p);
    }
}

#[verifier::rlimit(50)]
proof fn lemma_default_role_path_8()
    ensures
        match crate::json::jget_path(spec_generated_role_sections(), seq!["companion_agents"@, "companion_operator"@]) {
            Some(e) => spec_upgrade_role_entry(e, seq!["companion_agents"@, "companion_operator"@]) == (e, false),
            None => false,
        },
        forall|o: JVal|
            #![trigger jstr_field(o, "variant"@)]
            o is Object ==> jstr_field(spec_upgrade_role_entry(o, seq!["companion_agents"@, "companion_operator"@]).0, "variant"@) == jstr_field(o, "variant"@)
                || jstr_field(spec_upgrade_role_entry(o, seq!["companion_agents"@, "companion_operator"@]).0, "variant"@) == jstr_field(
                crate::json::jget_path(spec_generated_role_sections(), seq!["companion_agents"@, "companion_operator"@])->0,
                "variant"@,
            ),
{
    lemma_role_path_words_spelled();
    let root = spec_generated_role_sections();
    let sec = crate::config_defaults::spec_default_companion_agents_config();
    let p = seq!["companion_agents"@, "companion_operator"@];
    lemma_jmember_index_scan(root->Object_0, "companion_agents"@, 1);
    assert(jget(root, "companion_agents"@) == Some(sec));
    assert(p.drop_first() =~= seq!["companion_operator"@]);
    assert(seq!["companion_operator"@].drop_first() =~= Seq::<Seq<char>>::empty());
    lemma_jmember_index_scan(sec->Object_0, "companion_operator"@, 1);
    let e = sec->Object_0[1].1;
    assert(jget(sec, "companion_operator"@) == Some(e));
    reveal_with_fuel(crate::json::jget_path, 3);
    assert(crate::json::jget_path(e, Seq::<Seq<char>>::empty()) == Some(e));
    assert(crate::json::jget_path(sec, p.drop_first()) == Some(e));
    assert(crate::json::jget_path(root, p) == Some(e));
    lemma_managed_roles_fields();
    assert forall|o: JVal| #![trigger jstr_field(o, "variant"@)] o is Object implies jstr_field(spec_upgrade_role_entry(o, p).0, "variant"@)
        == jstr_field(o, "variant"@) || jstr_field(spec_upgrade_role_entry(o, p).0, "variant"@) == jstr_field(
        e,
        "variant"@,
    ) by {
        lemma_upgrade_role_variant(o, p);
    }
}

/// The generated default drift upgrades leave every generated role entry as
/// setup writes it: upgrading a role that is at its current generated
/// default (model, variant and fast mode) reports no change and keeps its
/// variant. Every generated role path leads to a default entry except the
/// legacy `planner` key.
pub proof fn lemma_drift_upgrade_keeps_default_roles()
    ensures
        forall|i: int|
            0 <= i < spec_generated_role_paths().len() ==> match crate::json::jget_path(
                spec_generated_role_sections(),
                #[trigger] spec_generated_role_paths()[i],
            ) {
                Some(e) => spec_upgrade_role_entry(e, spec_generated_role_paths()[i]) == (e, false),
                None => spec_generated_role_paths()[i] == seq!["agents"@, "planner"@],
            },
        forall|i: int, o: JVal|
            0 <= i < spec_generated_role_paths().len() && o is Object && crate::json::jget_path(
                spec_generated_role_sections(),
                spec_generated_role_paths()[i],
            ) is Some ==> {
                let v = #[trigger] jstr_field(spec_upgrade_role_entry(o, spec_generated_role_paths()[i]).0, "variant"@);
                v == jstr_field(o, "variant"@) || v == jstr_field(
                    crate::json::jget_path(spec_generated_role_sections(), spec_generated_role_paths()[i])->0,
                    "variant"@,
                )
            },
{
    lemma_default_role_path_0();
    lemma_default_role_path_1();
    lemma_default_role_path_2();
    lemma_default_role_path_3();
    lemma_default_role_path_4();
    lemma_default_role_path_5();
    lemma_default_role_path_6();
    lemma_default_role_path_7();
    lemma_default_role_path_8();
    let paths = spec_generated_role_paths();
    assert forall|i: int| 0 <= i < paths.len() implies match crate::json::jget_path(
        spec_generated_role_sections(),
        #[trigger] paths[i],
    ) {
        Some(e) => spec_upgrade_role_entry(e, paths[i]) == (e, false),
        None => paths[i] == seq!["agents"@, "planner"@],
    } by {
        assert(i == 0 || i == 1 || i == 2 || i == 3 || i == 4 || i == 5 || i == 6 || i == 7 || i == 8);
    }
    assert forall|i: int, o: JVal|
        0 <= i < paths.len() && o is Object && crate::json::jget_path(spec_generated_role_sections(), paths[i])
            is Some implies {
        let v = #[trigger] jstr_field(spec_upgrade_role_entry(o, paths[i]).0, "variant"@);
        v == jstr_field(o, "variant"@) || v == jstr_field(
            crate::json::jget_path(spec_generated_role_sections(), paths[i])->0,
            "variant"@,
        )
    } by {
        assert(i == 0 || i == 1 || i == 2 || i == 3 || i == 4 || i == 5 || i == 6 || i == 7 || i == 8);
    }
}


/// The orchestrator upgrade moves a stale orchestrator to the generated
/// default's reasoning variant and leaves an orchestrator that is at its
/// generated default alone.
pub proof fn lemma_orchestrator_upgrade_targets_default(c: JVal)
    ensures
        crate::json::jget_path(c, seq!["agents"@, "orchestrator"@]) == Some(
            crate::config_defaults::spec_default_orchestrator_config(),
        ) ==> spec_upgrade_orchestrator(c) == (c, false),
        ({
            let o = crate::json::jget_path(c, seq!["agents"@, "orchestrator"@]);
            o is Some && jstr_field(o->0, "model"@) == Some("gpt-5.5"@) && jstr_field(o->0, "variant"@) == Some(
                "high"@,
            ) && o->0 is Object && jget(c, "agents"@)->0 is Object && c is Object
        }) ==> {
            let r = spec_upgrade_orchestrator(c);
            &&& r.1
            &&& jstr_field(crate::json::jget_path(r.0, seq!["agents"@, "orchestrator"@])->0, "variant"@)
                == jstr_field(crate::config_defaults::spec_default_orchestrator_config(), "variant"@)
        },
{
    reveal_strlit("gpt-5.5");
    reveal_strlit("medium");
    reveal_strlit("high");
    reveal_strlit("model");
    reveal_strlit("variant");
    reveal_strlit("name");
    reveal_strlit("summary");
    assert("medium"@.len() != "high"@.len());
    assert("model"@.len() != "variant"@.len());
    assert("name"@.len() != "model"@.len());
    assert("name"@.len() != "variant"@.len());
    assert("summary"@.len() != "model"@.len());
    assert("summary"@[0] != "variant"@[0]);
    reveal_with_fuel(crate::json::jget_path, 3);
    reveal_with_fuel(crate::json::jmember_index, 5);
    let p = seq!["agents"@, "orchestrator"@];
    assert(p.drop_first() =~= seq!["orchestrator"@]);
    assert(seq!["orchestrator"@].drop_first() =~= Seq::<Seq<char>>::empty());
    let d = crate::config_defaults::spec_default_orchestrator_config();
    assert(jstr_field(d, "model"@) == Some("gpt-5.5"@));
    assert(jstr_field(d, "variant"@) == Some("medium"@));
    match jget(c, "agents"@) {
        Some(agents) => match jget(agents, "orchestrator"@) {
            Some(o) => {
                assert(crate::json::jget_path(c, p) == Some(o));
                if jstr_field(o, "model"@) == Some("gpt-5.5"@) && jstr_field(o, "variant"@) == Some("high"@)
                    && o is Object && agents is Object && c is Object {
                    let o2 = jinsert(o, "variant"@, JVal::Str("medium"@));
                    let a2 = jinsert(agents, "orchestrator"@, o2);
                    let c2 = jinsert(c, "agents"@, a2);
                    lemma_jget_jinsert_same(o, "variant"@, JVal::Str("medium"@));
                    lemma_jget_jinsert_same(agents, "orchestrator"@, o2);
                    lemma_jget_jinsert_same(c, "agents"@, a2);
                    assert(crate::json::jget_path(c2, p) == Some(o2));
                }
            },
            None => {},
        },
        None => {},
    }
}

} // verus!
