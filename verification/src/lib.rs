//! Verified core logic of the CCC status, routing and specialist-role toolkit.

pub mod strings;
pub mod text_utils;
pub mod roles;
pub mod json;
pub mod config_merge;
pub mod format;
pub mod status_text;
pub mod subagent_validation;
pub mod clock;
pub mod worker_lifecycle;
pub mod sorted_set;
pub mod target_paths;
pub mod roles_config;
pub mod role_payloads;
pub mod config_defaults;
pub mod config_upgrade;
pub mod worker_fleet;
pub mod custom_agent;
pub mod signature;
pub mod paths;
pub mod panel_text;
pub mod subagent_update;
pub mod worker_events;
pub mod worker_prompt;
pub mod skill_manifest;
pub mod skill_registry;
pub mod config_apply;
pub mod status_templates;
pub mod captain_decision;
pub mod scheduler_status;
pub mod app_panel_html;
pub mod run_health;
pub mod run_checkpoint;
pub mod routing_trace;
pub mod status_truth;
pub mod task_lifecycle;
pub mod workflow_loop;
pub mod token_usage;
pub mod delegation_plan;
pub mod app_panel;
pub mod app_panel_text;
pub mod cost_routing;
pub mod keyed_list;
pub mod longway;
pub mod delegate_result;
pub mod operator_text;
pub mod checklist_text;
pub mod operator_status;
pub mod subagent_text;
pub mod compact_status;
pub mod worker_launch;
pub mod task_card;
pub mod current_task_card;
pub mod task_session;
pub mod status_payload;
pub mod config_backfill;
