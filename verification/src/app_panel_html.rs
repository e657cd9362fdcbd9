//! The HTML resource of the Codex app panel: a self-contained page that
//! renders the structured panel payload.

use vstd::prelude::*;
use crate::strings::to_owned;

verus! {

/// The app panel page.
pub const CODEX_APP_PANEL_HTML: &'static str = r#"<!doctype html>
<html lang="en">
<head>
  <meta charset="utf-8">
  <meta name="viewport" content="width=device-width, initial-scale=1">
  <title>CCC LongWay Panel</title>
  <style>
    :root {
      color-scheme: dark light;
      font-family: -apple-system, BlinkMacSystemFont, "Segoe UI", sans-serif;
      background: transparent;
      color: CanvasText;
    }
    body {
      margin: 0;
      padding: 12px;
      font-size: 13px;
      line-height: 1.45;
    }
    .panel {
      display: grid;
      gap: 10px;
    }
    .title {
      font-size: 14px;
      font-weight: 650;
    }
    .row {
      display: grid;
      grid-template-columns: 92px minmax(0, 1fr);
      gap: 8px;
      align-items: start;
    }
    .label {
      color: color-mix(in srgb, CanvasText 62%, transparent);
    }
    .value {
      min-width: 0;
      overflow-wrap: anywhere;
    }
    .muted {
      color: color-mix(in srgb, CanvasText 62%, transparent);
    }
    ul {
      margin: 0;
      padding-left: 18px;
    }
  </style>
</head>
<body>
  <main class="panel" id="panel">
    <div class="title">CCC LongWay Panel</div>
    <div class="muted">Waiting for CCC app panel data.</div>
  </main>
  <script>
    const bridge = window.openai || {};
    const data = bridge.toolOutput?.app_panel || bridge.toolOutput || bridge.structuredContent?.app_panel || {};
    const text = (value, fallback = "unknown") => value === undefined || value === null || value === "" ? fallback : String(value);
	    const html = (value, fallback = "unknown") => text(value, fallback).replace(/[&<>"']/g, (char) => ({
	      "&": "&amp;",
	      "<": "&lt;",
	      ">": "&gt;",
	      "\"": "&quot;",
	      "'": "&#39;",
	    }[char]));
	    const callsigns = {
	      tactician: "Executor",
	      scout: "Observer",
	      raider: "Marauder",
	      scribe: "Adjutant",
	      arbiter: "Arbiter",
	      sentinel: "Overseer",
	      companion_reader: "Probe",
	      companion_operator: "SCV",
	    };
	    const roleAgents = {
	      way: "tactician",
	      explorer: "scout",
	      "code specialist": "raider",
	      documenter: "scribe",
	      verifier: "arbiter",
	      sentinel: "sentinel",
	      companion_reader: "companion_reader",
	      companion_operator: "companion_operator",
	    };
	    const agentBase = (value) => {
	      const normalized = text(value, "").replace(/^ccc_/, "");
	      if (callsigns[normalized]) return normalized;
	      return normalized.split(/[_-]/)[0];
	    };
	    const displayAgent = (value) => {
	      const raw = text(value, "");
	      if (!raw || raw === "unassigned") return text(value, "unassigned");
	      if (!raw.startsWith("ccc_") && raw.includes("-")) return raw;
	      const base = agentBase(raw);
	      const callsign = callsigns[base];
	      if (!callsign) return raw;
	      return `${callsign}(${raw.startsWith("ccc_") ? raw : `ccc_${base}`})`;
	    };
	    const displayRole = (value) => {
	      const raw = text(value, "");
	      const agent = roleAgents[raw];
	      return agent && callsigns[agent] ? `${callsigns[agent]}(ccc_${agent})/${raw}` : text(value, "unassigned");
	    };
	    const list = (items, key = "kind") => Array.isArray(items) && items.length
	      ? `<ul>${items.slice(0, 6).map((item) => `<li>${html(item[key] || item.lane_id || item.title, "item")}${item.status ? ` (${html(item.status)})` : ""}</li>`).join("")}</ul>`
	      : '<span class="muted">none</span>';
	    const checklist = (items) => Array.isArray(items) && items.length
	      ? `<ul>${items.slice(0, 6).map((item) => `<li>${html(item.title || item.id || item.label, "item")} (${html(item.status)})${item.owner_agent ? ` · owner=${html(displayAgent(item.owner_agent))}` : ""}</li>`).join("")}</ul>`
	      : '<span class="muted">none</span>';
	    const subagents = (items) => Array.isArray(items) && items.length
	      ? `<ul>${items.slice(0, 6).map((item) => `<li>${html(displayAgent(item.child_agent_id), "subagent")} ${html(item.status)} · role=${html(displayRole(item.assigned_role), "unassigned")} · model=${html(item.model)} · variant=${html(item.variant)}${item.lane_id ? ` · lane=${html(item.lane_id)}` : ""} · ${html(item.task_title, "task")}</li>`).join("")}</ul>`
	      : '<span class="muted">none</span>';
    const panel = document.getElementById("panel");
    panel.innerHTML = `
      <div class="title">CCC LongWay Panel</div>
      <div class="row"><div class="label">Run</div><div class="value">${html(data.run?.run_id)} · ${html(data.run?.stage)} · next=${html(data.run?.next_step)}</div></div>
      <div class="row"><div class="label">LongWay</div><div class="value">${html(data.longway_progress?.completed_phase_count, "-")}/${html(data.longway_progress?.phase_count, "-")} current="${html(data.longway_progress?.current_item, "none")}"</div></div>
      <div class="row"><div class="label">Active Gate</div><div class="value">state=${html(data.state_contract?.state)} · gate=${html(data.state_contract?.active_gate)} · requires=${html(data.state_contract?.required_artifact)} · next=${html(data.state_contract?.next_step)}</div></div>
      <div class="row"><div class="label">Recovery</div><div class="value">status=${html(data.recovery_lane?.status, "clear")} · action=${html(data.recovery_lane?.recommended_action, "none")} · reclaim=${html(data.recovery_lane?.reclaim_replan_action, "none")} · targets=${html(data.recovery_lane?.target_count, "0")}</div></div>
      <div class="row"><div class="label">Checklist</div><div class="value">${checklist(data.longway_progress?.rows)}</div></div>
      <div class="row"><div class="label">Workspace</div><div class="value">graph=${html(data.workspace_state?.graph?.available)} files=${html(data.workspace_state?.graph?.file_count, "0")} · graphMirror=${html(data.workspace_state?.graph?.tolaria?.state, "off")} · graphContext=${html(data.workspace_state?.graph_context?.readiness, "unknown")} fallback=${html(data.workspace_state?.graph_context?.fallback, "none")} · memory=${html(data.workspace_state?.memory?.enabled)} entries=${html(data.workspace_state?.memory?.entry_count, "0")} · memoryMirror=${html(data.workspace_state?.memory?.tolaria?.state, "off")}</div></div>
      <div class="row"><div class="label">Mutation Guard</div><div class="value">state=${html(data.captain_direct_mutation_guard?.state, "unknown")} · changed=${html(data.captain_direct_mutation_guard?.changed_path_count, "0")}</div></div>
	      <div class="row"><div class="label">Task</div><div class="value">${html(data.current_task?.title, "none")} · ${html(displayRole(data.current_task?.assigned_role), "unassigned")} · ${html(displayAgent(data.current_task?.assigned_agent_id), "unassigned")} · model=${html(data.current_task?.model)} · variant=${html(data.current_task?.variant)}</div></div>
      <div class="row"><div class="label">Fan-in</div><div class="value">ready=${html(data.fan_in?.ready, "unknown")} · action=${html(data.next_captain_action?.allowed_action)}</div></div>
      <div class="row"><div class="label">Context</div><div class="value">${html(data.context_health?.status)}</div></div>
      <div class="row"><div class="label">Subagents</div><div class="value">${subagents(data.specialist_lanes?.subagent_activity)}</div></div>
      <div class="row"><div class="label">Lanes</div><div class="value">${list(data.specialist_lanes?.parallel_lanes, "lane_id")}</div></div>
      <div class="row"><div class="label">Warnings</div><div class="value">${list(data.warnings, "kind")}</div></div>
    `;
  </script>
</body>
</html>
"#;

/// The app panel page, as text.
pub fn create_codex_app_panel_resource_html() -> (r: String)
    ensures
        r@ == CODEX_APP_PANEL_HTML@,
{
    to_owned(CODEX_APP_PANEL_HTML)
}

} // verus!
