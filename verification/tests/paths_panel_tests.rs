use ccc_mcp::custom_agent::{custom_agent_toml_entries, render_custom_agent_toml, AgentTomlError};
use ccc_mcp::json::{jstr, new_object, Json};
use ccc_mcp::panel_text::boxed_text_panel;
use ccc_mcp::paths::{
    common_path_ancestor, latest_artifact_directory, remove_ancestor_target_candidates,
    target_document_root, target_root_candidate_label, PathComponents,
};

fn obj(members: Vec<(&str, Json)>) -> Json {
    let mut o = new_object();
    for (k, v) in members {
        o.insert(k, v);
    }
    o
}

fn path(parts: &[&str]) -> PathComponents {
    PathComponents { parts: parts.iter().map(|s| s.to_string()).collect() }
}

fn parts(p: &PathComponents) -> Vec<&str> {
    p.parts.iter().map(|s| s.as_str()).collect()
}

#[test]
fn common_ancestor_of_paths() {
    let a = path(&["/", "w", "docs", "a.md"]);
    let b = path(&["/", "w", "docs", "sub", "b.md"]);
    let c = common_path_ancestor(&[a, b]).unwrap();
    assert_eq!(parts(&c), vec!["/", "w", "docs"]);
    assert!(common_path_ancestor(&[]).is_none());
    let rel = path(&["x"]);
    let other = path(&["y"]);
    assert_eq!(common_path_ancestor(&[rel, other]).map(|p| p.parts.len()), Some(0));
    let only = path(&["/", "w"]);
    assert_eq!(parts(&common_path_ancestor(&[only]).unwrap()), vec!["/", "w"]);
}

#[test]
fn ancestor_candidates_are_pruned() {
    let kept = remove_ancestor_target_candidates(vec![
        path(&["/", "w"]),
        path(&["/", "w", "app"]),
        path(&["/", "v"]),
    ]);
    let names: Vec<Vec<&str>> = kept.iter().map(parts).collect();
    assert_eq!(names, vec![vec!["/", "w", "app"], vec!["/", "v"]]);
}

#[test]
fn document_roots_and_artifact_directories() {
    let f = path(&["/", "w", "docs", "a.md"]);
    assert_eq!(parts(&target_document_root(&f, true)), vec!["/", "w", "docs"]);
    assert_eq!(parts(&target_document_root(&f, false)), vec!["/", "w", "docs", "a.md"]);
    let run = path(&["/", "w", ".ccc", "runs", "r1"]);
    assert_eq!(
        parts(&latest_artifact_directory(&run)),
        vec!["/", "w", ".ccc", "temp-artifacts", "app-panel"]
    );
    assert_eq!(target_root_candidate_label("/a/b"), "b");
    assert_eq!(target_root_candidate_label("/"), "/");
}

#[test]
fn boxed_panel_frames_lines() {
    let text = boxed_text_panel(&["hello".to_string()]);
    let rows: Vec<&str> = text.split('\n').collect();
    assert_eq!(rows.len(), 3);
    assert_eq!(rows[0], format!("+{}+", "-".repeat(42)));
    assert_eq!(rows[1], format!("| hello{} |", " ".repeat(35)));
    assert_eq!(rows[2], rows[0]);
    let long = "word ".repeat(30);
    let text = boxed_text_panel(&[long.trim().to_string()]);
    assert!(text.split('\n').count() > 3);
    let width = text.split('\n').next().unwrap().chars().count();
    assert_eq!(width, 122);
    assert!(text.split('\n').all(|row| row.chars().count() == width));
}

#[test]
fn custom_agent_toml_carries_model_settings() {
    let snapshot = obj(vec![
        ("model", jstr(" gpt-5.5 ")),
        ("variant", jstr("high")),
        ("fast_mode", Json::Bool(true)),
    ]);
    let entries = custom_agent_toml_entries(&snapshot, "explorer", "scout");
    let keys: Vec<&str> = entries.iter().map(|(k, _)| k.as_str()).collect();
    assert_eq!(
        keys,
        vec!["name", "description", "developer_instructions", "sandbox_mode", "model", "model_reasoning_effort", "service_tier"]
    );
    assert_eq!(entries[0].1, "ccc_scout");
    assert_eq!(entries[4].1, "gpt-5.5");
    let text = match render_custom_agent_toml(&snapshot, "explorer", "scout") {
        Ok(text) => text,
        Err(AgentTomlError::Encode(message)) => panic!("{}", message),
    };
    assert!(text.contains("name = \"ccc_scout\""));
    assert!(text.contains("service_tier = \"fast\""));
    assert!(text.contains("model = \"gpt-5.5\""));
    let plain = custom_agent_toml_entries(&new_object(), "explorer", "scout");
    assert_eq!(plain.len(), 4);
}
