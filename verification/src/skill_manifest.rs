//! Skill SSL manifests: the optional sidecar document that describes a
//! specialist's scheduling, structural and logical evidence. A manifest is
//! advisory only; it is checked here and reported as available, missing,
//! stale, drifted or invalid.

use vstd::prelude::*;
use crate::json::{
    get_or, get_or_null, jbool, jempty_array, jget, jget_or, jstr, jstr_field, jstring, jview,
    member, members_view, object_of, JVal, Json,
};
use crate::custom_agent::{spec_trimmed_nonblank, trimmed_nonblank};
use crate::strings::{
    index_of_char, is_blank, lemma_index_of_char_range, opt_view, push_str, split_once,
    split_once_char, str_eq, to_owned, trim, trim_string,
};
use crate::worker_events::join_with;

verus! {

/// Names what `format!("{:?}", s)` gives for a string slice: the text in
/// double quotes, with the characters that `str::escape_debug` escapes
/// written as escapes.
pub uninterp spec fn debug_quoted_text(s: Seq<char>) -> Seq<char>;

/// std's `Debug` formatting of a string slice. Nothing is claimed of the
/// text but that it is a function of `s`.
#[verifier::external_body]
fn debug_quoted(s: &str) -> (r: String)
    ensures
        r@ == debug_quoted_text(s@),
{
    format!("{:?}", s)
}

/// The value at a dotted path (`"scheduling.role_family"`): each segment
/// between dots names a member of the object reached so far.
pub open spec fn manifest_field_spec(j: JVal, dotted: Seq<char>) -> Option<JVal>
    decreases dotted.len(),
{
    match split_once_char(dotted, '.') {
        Some((head, rest)) => {
            proof {
                lemma_index_of_char_range(dotted, '.');
            }
            match jget(j, head) {
                Some(v) => manifest_field_spec(v, rest),
                None => None,
            }
        },
        None => jget(j, dotted),
    }
}

/// The value at a dotted path of the manifest.
pub fn manifest_field<'a>(manifest: &'a Json, dotted_path: &str) -> (r: Option<&'a Json>)
    ensures
        match r {
            Some(v) => manifest_field_spec(jview(*manifest), dotted_path@) == Some(jview(*v)),
            None => manifest_field_spec(jview(*manifest), dotted_path@) is None,
        },
{
    let mut cur: &'a Json = manifest;
    let mut rest = to_owned(dotted_path);
    loop
        invariant
            manifest_field_spec(jview(*manifest), dotted_path@) == manifest_field_spec(
                jview(*cur),
                rest@,
            ),
        decreases rest@.len(),
    {
        proof {
            lemma_index_of_char_range(rest@, '.');
        }
        match split_once(rest.as_str(), '.') {
            Some((head, tail)) => {
                match cur.get(head.as_str()) {
                    Some(v) => {
                        cur = v;
                        rest = tail;
                    },
                    None => {
                        return None;
                    },
                }
            },
            None => {
                return cur.get(rest.as_str());
            },
        }
    }
}

/// A string that is not blank once trimmed.
pub open spec fn is_nonblank_str(v: Option<JVal>) -> bool {
    match v {
        Some(JVal::Str(s)) => trim(s).len() > 0,
        _ => false,
    }
}

/// An array.
pub open spec fn is_array_value(v: Option<JVal>) -> bool {
    match v {
        Some(JVal::Array(_)) => true,
        _ => false,
    }
}

/// A boolean.
pub open spec fn is_bool_value(v: Option<JVal>) -> bool {
    match v {
        Some(JVal::Bool(_)) => true,
        _ => false,
    }
}

/// An object.
pub open spec fn is_object_value(v: Option<JVal>) -> bool {
    match v {
        Some(JVal::Object(_)) => true,
        _ => false,
    }
}

/// `name` when a requirement is not met, nothing when it is.
pub open spec fn missed(ok: bool, name: Seq<char>) -> Seq<Seq<char>> {
    if ok {
        Seq::empty()
    } else {
        seq![name]
    }
}

/// The views of a list of owned strings.
pub open spec fn string_views(v: Seq<String>) -> Seq<Seq<char>> {
    v.map_values(|s: String| s@)
}

proof fn lemma_string_views_push(v: Seq<String>, s: String)
    ensures
        string_views(v.push(s)) == string_views(v) + seq![s@],
{
    assert(string_views(v.push(s)) =~= string_views(v) + seq![s@]);
}

/// Records `dotted_path` as missing unless it holds a non-blank string.
pub fn require_string(manifest: &Json, dotted_path: &str, missing: &mut Vec<String>)
    ensures
        string_views(final(missing)@) == string_views(old(missing)@) + missed(
            is_nonblank_str(manifest_field_spec(jview(*manifest), dotted_path@)),
            dotted_path@,
        ),
{
    let ok = match manifest_field(manifest, dotted_path) {
        Some(v) => match v.as_str() {
            Some(s) => !is_blank(s),
            None => false,
        },
        None => false,
    };
    let ghost before = missing@;
    if !ok {
        missing.push(to_owned(dotted_path));
        proof {
            lemma_string_views_push(before, missing@.last());
        }
    } else {
        assert(string_views(missing@) =~= string_views(before) + Seq::<Seq<char>>::empty());
    }
}

/// Records `dotted_path` as missing unless it holds an array.
pub fn require_array(manifest: &Json, dotted_path: &str, missing: &mut Vec<String>)
    ensures
        string_views(final(missing)@) == string_views(old(missing)@) + missed(
            is_array_value(manifest_field_spec(jview(*manifest), dotted_path@)),
            dotted_path@,
        ),
{
    let ok = match manifest_field(manifest, dotted_path) {
        Some(v) => v.is_array(),
        None => false,
    };
    let ghost before = missing@;
    if !ok {
        missing.push(to_owned(dotted_path));
        proof {
            lemma_string_views_push(before, missing@.last());
        }
    } else {
        assert(string_views(missing@) =~= string_views(before) + Seq::<Seq<char>>::empty());
    }
}

/// Records `dotted_path` as missing unless it holds a boolean.
pub fn require_bool(manifest: &Json, dotted_path: &str, missing: &mut Vec<String>)
    ensures
        string_views(final(missing)@) == string_views(old(missing)@) + missed(
            is_bool_value(manifest_field_spec(jview(*manifest), dotted_path@)),
            dotted_path@,
        ),
{
    let ok = match manifest_field(manifest, dotted_path) {
        Some(v) => v.as_bool().is_some(),
        None => false,
    };
    let ghost before = missing@;
    if !ok {
        missing.push(to_owned(dotted_path));
        proof {
            lemma_string_views_push(before, missing@.last());
        }
    } else {
        assert(string_views(missing@) =~= string_views(before) + Seq::<Seq<char>>::empty());
    }
}

/// The required fields that a manifest lacks, in the order they are listed:
/// identity strings, the three evidence arrays, then the scheduling,
/// structural and logical fields.
pub open spec fn spec_missing_required_fields(m: JVal) -> Seq<Seq<char>> {
    let s = |p: Seq<char>| missed(is_nonblank_str(manifest_field_spec(m, p)), p);
    let a = |p: Seq<char>| missed(is_array_value(manifest_field_spec(m, p)), p);
    let b = |p: Seq<char>| missed(is_bool_value(manifest_field_spec(m, p)), p);
    s("skill_id"@) + s("display_name"@) + s("callsign"@) + s("theme"@) + a("inspired_by"@) + a(
        "recommended_workflows"@,
    ) + a("lsp_capabilities"@) + s("scheduling.role_family"@) + s(
        "scheduling.display_agent_id"@,
    ) + a("scheduling.intent_signatures"@) + a("scheduling.expected_inputs"@) + a(
        "scheduling.expected_outputs"@,
    ) + b("scheduling.mutation_allowed"@) + a("structural.scenes"@) + a("logical.actions"@) + b(
        "logical.requires_operator_approval"@,
    ) + b("logical.external_side_effects"@)
}

/// The required fields that `manifest` lacks.
pub fn missing_required_manifest_fields(manifest: &Json) -> (r: Vec<String>)
    ensures
        string_views(r@) == spec_missing_required_fields(jview(*manifest)),
{
    let mut missing: Vec<String> = Vec::new();
    assert(string_views(missing@) =~= Seq::<Seq<char>>::empty());
    require_string(manifest, "skill_id", &mut missing);
    require_string(manifest, "display_name", &mut missing);
    require_string(manifest, "callsign", &mut missing);
    require_string(manifest, "theme", &mut missing);
    require_array(manifest, "inspired_by", &mut missing);
    require_array(manifest, "recommended_workflows", &mut missing);
    require_array(manifest, "lsp_capabilities", &mut missing);
    require_string(manifest, "scheduling.role_family", &mut missing);
    require_string(manifest, "scheduling.display_agent_id", &mut missing);
    require_array(manifest, "scheduling.intent_signatures", &mut missing);
    require_array(manifest, "scheduling.expected_inputs", &mut missing);
    require_array(manifest, "scheduling.expected_outputs", &mut missing);
    require_bool(manifest, "scheduling.mutation_allowed", &mut missing);
    require_array(manifest, "structural.scenes", &mut missing);
    require_array(manifest, "logical.actions", &mut missing);
    require_bool(manifest, "logical.requires_operator_approval", &mut missing);
    require_bool(manifest, "logical.external_side_effects", &mut missing);
    assert(string_views(missing@) =~= spec_missing_required_fields(jview(*manifest)));
    missing
}

/// The sections among scheduling, structural and logical that are not
/// objects.
pub open spec fn spec_missing_sections(m: JVal) -> Seq<Seq<char>> {
    missed(is_object_value(jget(m, "scheduling"@)), "scheduling"@) + missed(
        is_object_value(jget(m, "structural"@)),
        "structural"@,
    ) + missed(is_object_value(jget(m, "logical"@)), "logical"@)
}

fn require_section(manifest: &Json, section: &str, missing: &mut Vec<String>)
    ensures
        string_views(final(missing)@) == string_views(old(missing)@) + missed(
            is_object_value(jget(jview(*manifest), section@)),
            section@,
        ),
{
    let ok = match manifest.get(section) {
        Some(v) => v.is_object(),
        None => false,
    };
    let ghost before = missing@;
    if !ok {
        missing.push(to_owned(section));
        proof {
            lemma_string_views_push(before, missing@.last());
        }
    } else {
        assert(string_views(missing@) =~= string_views(before) + Seq::<Seq<char>>::empty());
    }
}

fn missing_manifest_sections(manifest: &Json) -> (r: Vec<String>)
    ensures
        string_views(r@) == spec_missing_sections(jview(*manifest)),
{
    let mut missing: Vec<String> = Vec::new();
    assert(string_views(missing@) =~= Seq::<Seq<char>>::empty());
    require_section(manifest, "scheduling", &mut missing);
    require_section(manifest, "structural", &mut missing);
    require_section(manifest, "logical", &mut missing);
    assert(string_views(missing@) =~= spec_missing_sections(jview(*manifest)));
    missing
}

/// `items.join(sep)`.
pub fn join_strings(items: &Vec<String>, sep: &str) -> (r: String)
    ensures
        r@ == join_with(string_views(items@), sep@),
{
    let ghost iv = string_views(items@);
    let mut out = String::new();
    let mut i: usize = 0;
    assert(iv.take(0) =~= Seq::<Seq<char>>::empty());
    while i < items.len()
        invariant
            i <= items.len(),
            iv == string_views(items@),
            out@ == join_with(iv.take(i as int), sep@),
        decreases items.len() - i,
    {
        let ghost before = out@;
        if i > 0 {
            push_str(&mut out, sep);
        }
        push_str(&mut out, items[i].as_str());
        proof {
            assert(iv.take(i + 1).drop_last() =~= iv.take(i as int));
            assert(iv.take(i + 1).last() == items@[i as int]@);
            if i == 0 {
                assert(out@ =~= iv.take(1)[0]);
            } else {
                assert(out@ =~= before + sep@ + iv.take(i + 1).last());
            }
        }
        i = i + 1;
    }
    assert(iv.take(items.len() as int) =~= iv);
    out
}

/// The path text of a report: the path, or empty when there is none.
pub open spec fn path_text(path: Option<Seq<char>>) -> Seq<char> {
    match path {
        Some(p) => p,
        None => Seq::empty(),
    }
}

/// A report with a status and a reason, for a manifest that cannot be used.
pub open spec fn spec_classified_manifest(
    agent_name: Seq<char>,
    path: Option<Seq<char>>,
    status: Seq<char>,
    reason: Seq<char>,
) -> JVal {
    JVal::Object(
        seq![
            ("schema"@, JVal::Str("ccc.skill_ssl_manifest.v1"@)),
            ("status"@, JVal::Str(status)),
            ("blocking"@, JVal::Bool(false)),
            ("source"@, JVal::Str("skill_ssl_manifest"@)),
            ("agent_name"@, JVal::Str(agent_name)),
            ("path"@, JVal::Str(path_text(path))),
            ("runtime_truth"@, JVal::Bool(false)),
            ("advisory_only"@, JVal::Bool(true)),
            ("fallback"@, JVal::Str("SKILL.md + ccc-config.toml"@)),
            ("reason"@, JVal::Str(reason)),
        ],
    )
}

fn path_string(path: Option<&str>) -> (r: String)
    ensures
        r@ == path_text(opt_view(path)),
{
    match path {
        Some(p) => to_owned(p),
        None => String::new(),
    }
}

/// The report for a manifest with the given status and reason.
pub fn classified_manifest(agent_name: &str, path: Option<&str>, status: &str, reason: String) -> (r:
    Json)
    ensures
        jview(r) == spec_classified_manifest(agent_name@, opt_view(path), status@, reason@),
{
    let mut m: Vec<(String, Json)> = Vec::new();
    m.push(member("schema", jstr("ccc.skill_ssl_manifest.v1")));
    m.push(member("status", jstr(status)));
    m.push(member("blocking", jbool(false)));
    m.push(member("source", jstr("skill_ssl_manifest")));
    m.push(member("agent_name", jstr(agent_name)));
    m.push(member("path", jstring(path_string(path))));
    m.push(member("runtime_truth", jbool(false)));
    m.push(member("advisory_only", jbool(true)));
    m.push(member("fallback", jstr("SKILL.md + ccc-config.toml")));
    m.push(member("reason", jstring(reason)));
    let r = object_of(m);
    assert(members_view(m@) =~= spec_classified_manifest(
        agent_name@,
        opt_view(path),
        status@,
        reason@,
    )->Object_0);
    r
}

/// The report for a manifest that cannot be used: status `invalid`.
pub fn invalid_manifest(agent_name: &str, path: Option<&str>, reason: String) -> (r: Json)
    ensures
        jview(r) == spec_classified_manifest(agent_name@, opt_view(path), "invalid"@, reason@),
{
    classified_manifest(agent_name, path, "invalid", reason)
}

/// The report when no manifest was found for an agent.
pub open spec fn spec_missing_manifest(agent_name: Seq<char>) -> JVal {
    JVal::Object(
        seq![
            ("schema"@, JVal::Str("ccc.skill_ssl_manifest.v1"@)),
            ("status"@, JVal::Str("missing"@)),
            ("blocking"@, JVal::Bool(false)),
            ("source"@, JVal::Str("skill_ssl_manifest"@)),
            ("agent_name"@, JVal::Str(agent_name)),
            ("runtime_truth"@, JVal::Bool(false)),
            ("advisory_only"@, JVal::Bool(true)),
            ("fallback"@, JVal::Str("SKILL.md + ccc-config.toml"@)),
            (
                "reason"@,
                JVal::Str(
                    "Optional skill SSL manifest was not found; existing routing and risk rules remain authoritative."@,
                ),
            ),
        ],
    )
}

/// The report when no manifest was found for `agent_name`.
pub fn missing_manifest(agent_name: &str) -> (r: Json)
    ensures
        jview(r) == spec_missing_manifest(agent_name@),
{
    let mut m: Vec<(String, Json)> = Vec::new();
    m.push(member("schema", jstr("ccc.skill_ssl_manifest.v1")));
    m.push(member("status", jstr("missing")));
    m.push(member("blocking", jbool(false)));
    m.push(member("source", jstr("skill_ssl_manifest")));
    m.push(member("agent_name", jstr(agent_name)));
    m.push(member("runtime_truth", jbool(false)));
    m.push(member("advisory_only", jbool(true)));
    m.push(member("fallback", jstr("SKILL.md + ccc-config.toml")));
    m.push(
        member(
            "reason",
            jstr(
                "Optional skill SSL manifest was not found; existing routing and risk rules remain authoritative.",
            ),
        ),
    );
    let r = object_of(m);
    assert(members_view(m@) =~= spec_missing_manifest(agent_name@)->Object_0);
    r
}

/// The report for a manifest that passed every check.
pub open spec fn spec_available_manifest(
    agent_name: Seq<char>,
    path: Option<Seq<char>>,
    version: Seq<char>,
    m: JVal,
) -> JVal {
    JVal::Object(
        seq![
            ("schema"@, JVal::Str("ccc.skill_ssl_manifest.v1"@)),
            ("status"@, JVal::Str("available"@)),
            ("blocking"@, JVal::Bool(false)),
            ("source"@, JVal::Str("skill_ssl_manifest"@)),
            ("agent_name"@, JVal::Str(agent_name)),
            ("path"@, JVal::Str(path_text(path))),
            ("runtime_truth"@, JVal::Bool(false)),
            ("advisory_only"@, JVal::Bool(true)),
            ("manifest_version"@, JVal::Str(version)),
            ("fallback"@, JVal::Str("SKILL.md + ccc-config.toml"@)),
            ("display_name"@, jget_or(m, "display_name"@, JVal::Null)),
            ("callsign"@, jget_or(m, "callsign"@, JVal::Null)),
            ("theme"@, jget_or(m, "theme"@, JVal::Null)),
            ("inspired_by"@, jget_or(m, "inspired_by"@, JVal::Array(Seq::empty()))),
            (
                "recommended_workflows"@,
                jget_or(m, "recommended_workflows"@, JVal::Array(Seq::empty())),
            ),
            ("lsp_capabilities"@, jget_or(m, "lsp_capabilities"@, JVal::Array(Seq::empty()))),
            ("scheduling"@, jget_or(m, "scheduling"@, JVal::Null)),
            ("structural"@, jget_or(m, "structural"@, JVal::Null)),
            ("logical"@, jget_or(m, "logical"@, JVal::Null)),
        ],
    )
}

fn available_manifest(agent_name: &str, path: Option<&str>, version: &str, manifest: &Json) -> (r:
    Json)
    ensures
        jview(r) == spec_available_manifest(agent_name@, opt_view(path), version@, jview(*manifest)),
{
    let mut m: Vec<(String, Json)> = Vec::new();
    m.push(member("schema", jstr("ccc.skill_ssl_manifest.v1")));
    m.push(member("status", jstr("available")));
    m.push(member("blocking", jbool(false)));
    m.push(member("source", jstr("skill_ssl_manifest")));
    m.push(member("agent_name", jstr(agent_name)));
    m.push(member("path", jstring(path_string(path))));
    m.push(member("runtime_truth", jbool(false)));
    m.push(member("advisory_only", jbool(true)));
    m.push(member("manifest_version", jstr(version)));
    m.push(member("fallback", jstr("SKILL.md + ccc-config.toml")));
    m.push(member("display_name", get_or(manifest, "display_name", Json::Null)));
    m.push(member("callsign", get_or(manifest, "callsign", Json::Null)));
    m.push(member("theme", get_or(manifest, "theme", Json::Null)));
    m.push(member("inspired_by", get_or(manifest, "inspired_by", jempty_array())));
    m.push(member("recommended_workflows", get_or(manifest, "recommended_workflows", jempty_array())));
    m.push(member("lsp_capabilities", get_or(manifest, "lsp_capabilities", jempty_array())));
    m.push(member("scheduling", get_or(manifest, "scheduling", Json::Null)));
    m.push(member("structural", get_or(manifest, "structural", Json::Null)));
    m.push(member("logical", get_or(manifest, "logical", Json::Null)));
    let r = object_of(m);
    assert(members_view(m@) =~= spec_available_manifest(
        agent_name@,
        opt_view(path),
        version@,
        jview(*manifest),
    )->Object_0);
    r
}

/// The trimmed `skill_id` of a manifest, or empty when it has none.
pub open spec fn spec_manifest_skill_id(m: JVal) -> Seq<char> {
    match jstr_field(m, "skill_id"@) {
        Some(s) => trim(s),
        None => Seq::empty(),
    }
}

/// The report for a parsed manifest requested for `agent_name`:
/// - no non-blank `version` string: invalid;
/// - a version other than the supported one: stale;
/// - a `skill_id` (trimmed) other than the agent's name: drift detected, the
///   reason quoting the id as `{:?}` shows it;
/// - scheduling, structural or logical not an object: invalid, naming them;
/// - a required field missing: invalid, naming every one;
/// - otherwise available, carrying the manifest's evidence.
pub open spec fn spec_validated_manifest(
    agent_name: Seq<char>,
    path: Option<Seq<char>>,
    m: JVal,
) -> JVal {
    match spec_trimmed_nonblank(jstr_field(m, "version"@)) {
        None => spec_classified_manifest(
            agent_name,
            path,
            "invalid"@,
            "Skill SSL manifest is missing required string field: version"@,
        ),
        Some(version) => if version != "0.1"@ {
            spec_classified_manifest(
                agent_name,
                path,
                "stale"@,
                "Skill SSL manifest version "@ + version + " is not the supported version "@
                    + "0.1"@ + "."@,
            )
        } else if spec_manifest_skill_id(m) != agent_name {
            spec_classified_manifest(
                agent_name,
                path,
                "drift_detected"@,
                "Skill SSL manifest skill_id "@ + debug_quoted_text(spec_manifest_skill_id(m))
                    + " does not match requested agent "@ + agent_name + "."@,
            )
        } else if spec_missing_sections(m).len() > 0 {
            spec_classified_manifest(
                agent_name,
                path,
                "invalid"@,
                "Skill SSL manifest is missing object section(s): "@ + join_with(
                    spec_missing_sections(m),
                    ", "@,
                ),
            )
        } else if spec_missing_required_fields(m).len() > 0 {
            spec_classified_manifest(
                agent_name,
                path,
                "invalid"@,
                "Skill SSL manifest is missing required field(s): "@ + join_with(
                    spec_missing_required_fields(m),
                    ", "@,
                ),
            )
        } else {
            spec_available_manifest(agent_name, path, version, m)
        },
    }
}

/// Checks a parsed manifest for `agent_name` and reports on it.
pub fn validate_skill_ssl_manifest(agent_name: &str, path: Option<&str>, manifest: Json) -> (r:
    Json)
    ensures
        jview(r) == spec_validated_manifest(agent_name@, opt_view(path), jview(manifest)),
{
    let version = match trimmed_nonblank(manifest.str_field("version")) {
        Some(v) => v,
        None => {
            return invalid_manifest(
                agent_name,
                path,
                to_owned("Skill SSL manifest is missing required string field: version"),
            );
        },
    };
    if !str_eq(version.as_str(), "0.1") {
        let mut reason = to_owned("Skill SSL manifest version ");
        push_str(&mut reason, version.as_str());
        push_str(&mut reason, " is not the supported version ");
        push_str(&mut reason, "0.1");
        push_str(&mut reason, ".");
        return classified_manifest(agent_name, path, "stale", reason);
    }
    let skill_id = match manifest.str_field("skill_id") {
        Some(s) => trim_string(s),
        None => String::new(),
    };
    if !str_eq(skill_id.as_str(), agent_name) {
        let mut reason = to_owned("Skill SSL manifest skill_id ");
        let quoted = debug_quoted(skill_id.as_str());
        push_str(&mut reason, quoted.as_str());
        push_str(&mut reason, " does not match requested agent ");
        push_str(&mut reason, agent_name);
        push_str(&mut reason, ".");
        return classified_manifest(agent_name, path, "drift_detected", reason);
    }
    let missing_sections = missing_manifest_sections(&manifest);
    if missing_sections.len() > 0 {
        let mut reason = to_owned("Skill SSL manifest is missing object section(s): ");
        let joined = join_strings(&missing_sections, ", ");
        push_str(&mut reason, joined.as_str());
        return invalid_manifest(agent_name, path, reason);
    }
    let missing_fields = missing_required_manifest_fields(&manifest);
    if missing_fields.len() > 0 {
        let mut reason = to_owned("Skill SSL manifest is missing required field(s): ");
        let joined = join_strings(&missing_fields, ", ");
        push_str(&mut reason, joined.as_str());
        return invalid_manifest(agent_name, path, reason);
    }
    available_manifest(agent_name, path, version.as_str(), &manifest)
}

} // verus!
