use feverthoth::agents::{AgentRole, ExecutionStatus, PipelineState, StepStatus};
use feverthoth::events::PipelineEvent;
use feverthoth::pipeline::{
    extract_json, json_span_would_panic, parse_context, parse_intake, parse_plan, parse_review,
    parse_summary, PipelineCore,
};
use feverthoth::json::JsonValue;

#[test]
fn create_execution_starts_in_intake() {
    let mut core = PipelineCore::new();
    let (id, events) = core.create_execution();
    assert!(!id.is_empty());
    assert_eq!(events.len(), 1);
    assert!(matches!(events[0], PipelineEvent::PipelineStarted));
    let exec = core.execution(&id).expect("execution exists");
    assert_eq!(exec.id, id);
    assert_eq!(exec.pipeline_state, PipelineState::Intake);
    assert_eq!(exec.status, ExecutionStatus::Idle);
    assert!(exec.messages.is_empty());
    assert!(exec.plan_id.is_none());
}

#[test]
fn executions_have_distinct_ids() {
    let mut core = PipelineCore::new();
    let (a, _) = core.create_execution();
    let (b, _) = core.create_execution();
    assert_ne!(a, b);
    assert!(core.execution(&a).is_some());
    assert!(core.execution(&b).is_some());
    assert!(core.execution("no-such-execution").is_none());
}

#[test]
fn intake_finish_reads_json_and_records_reply() {
    let mut core = PipelineCore::new();
    let (id, _) = core.create_execution();
    let reply = "Here you go: {\"ambiguity_detected\": true, \"repo_scope\": \"src/lib.rs\", \"risk_tier\": \"high\", \"destructive_potential\": true} done";
    let (result, events) = core.intake_finish(&id, reply);
    assert!(result.ambiguity_detected);
    assert_eq!(result.repo_scope, "src/lib.rs");
    assert_eq!(result.risk_tier, "high");
    assert!(result.destructive_potential);
    assert!(!result.needs_clarification);
    assert!(result.needs_context);
    assert!(!result.needs_vision);
    assert!(matches!(
        &events[0],
        PipelineEvent::IntakeCompleted { ambiguity_detected: true, destructive_potential: true, .. }
    ));
    let exec = core.execution(&id).unwrap();
    assert_eq!(exec.messages.len(), 1);
    assert_eq!(exec.messages[0].role, AgentRole::IntentClarifier);
    assert_eq!(exec.messages[0].content, reply);
    assert_eq!(exec.pipeline_state, PipelineState::Intake);
}

#[test]
fn intake_defaults_without_json() {
    let r = parse_intake("no json at all");
    assert!(!r.ambiguity_detected);
    assert_eq!(r.repo_scope, "unknown");
    assert_eq!(r.risk_tier, "low");
    assert!(!r.destructive_potential);
    assert!(!r.needs_clarification);
    assert!(r.needs_context);
    assert!(!r.needs_vision);
}

#[test]
fn intake_wrong_types_fall_back_to_defaults() {
    let r = parse_intake("{\"repo_scope\": 5, \"needs_context\": false, \"risk_tier\": null}");
    assert_eq!(r.repo_scope, "unknown");
    assert_eq!(r.risk_tier, "low");
    assert!(!r.needs_context);
}

#[test]
fn json_span_out_of_order_would_panic() {
    assert!(json_span_would_panic("} then {"));
    assert!(!json_span_would_panic("{}"));
    assert!(!json_span_would_panic("a } b"));
    assert!(!json_span_would_panic("x {} y"));
}

#[test]
fn extract_json_takes_outermost_braces() {
    match extract_json("text {\"a\": {\"b\": 1}} more") {
        Some(JsonValue::Object(es)) => {
            assert_eq!(es.len(), 1);
            assert_eq!(es[0].0, "a");
        }
        _ => panic!("expected an object"),
    }
    assert!(extract_json("no braces").is_none());
    assert!(extract_json("{ not json }").is_none());
}

#[test]
fn review_defaults_and_findings() {
    let r = parse_review("{\"approved\": false, \"findings\": [{\"severity\": \"error\", \"description\": \"bug\", \"file\": \"a.rs\", \"line\": 7}, {}]}");
    assert!(!r.approved);
    assert_eq!(r.findings.len(), 2);
    assert_eq!(r.findings[0].severity, "error");
    assert_eq!(r.findings[0].description, "bug");
    assert_eq!(r.findings[0].file.as_deref(), Some("a.rs"));
    assert_eq!(r.findings[0].line, Some(7));
    assert_eq!(r.findings[1].severity, "info");
    assert_eq!(r.findings[1].description, "");
    assert!(r.findings[1].file.is_none());
    let none = parse_review("looks fine");
    assert!(none.approved);
    assert!(none.findings.is_empty());
}

#[test]
fn summary_uses_reply_without_json() {
    let s = parse_summary("Refactored the parser.");
    assert_eq!(s.commit_message, "chore: update files");
    assert_eq!(s.change_summary, "Refactored the parser.");
    let j = parse_summary("{\"commit_message\": \"feat: x\"}");
    assert_eq!(j.commit_message, "feat: x");
    assert_eq!(j.change_summary, "Changes made.");
}

#[test]
fn context_lists_default_to_empty() {
    let c = parse_context("{\"files\": [\"a.rs\", \"b.rs\"]}");
    assert_eq!(c.files, vec!["a.rs".to_string(), "b.rs".to_string()]);
    assert!(c.architecture_notes.is_empty());
    assert!(c.probable_change_surface.is_empty());
}

#[test]
fn plan_falls_back_to_direct_execution() {
    let p = parse_plan("just do it");
    assert_eq!(p.title, "Direct execution");
    assert_eq!(p.steps.len(), 1);
    assert_eq!(p.steps[0].id, "1");
    assert_eq!(p.steps[0].description, "just do it");
    assert_eq!(p.steps[0].status, StepStatus::Pending);
    let q = parse_plan("{\"unrelated\": 1}");
    assert_eq!(q.title, "Auto-generated plan");
    assert_eq!(q.steps.len(), 1);
}

#[test]
fn plan_decodes_structured_reply() {
    let reply = "{\"id\": \"p1\", \"title\": \"Fix\", \"steps\": [{\"id\": \"s1\", \"description\": \"edit\", \"files\": [\"a.rs\"], \"status\": \"Pending\"}], \"assumptions\": [], \"questions\": []}";
    let p = parse_plan(reply);
    assert_eq!(p.id, "p1");
    assert_eq!(p.title, "Fix");
    assert_eq!(p.steps.len(), 1);
    assert_eq!(p.steps[0].files, vec!["a.rs".to_string()]);
}

#[test]
fn summarize_completes_execution() {
    let mut core = PipelineCore::new();
    let (id, _) = core.create_execution();
    let (summary, events) = core.summarize_finish(&id, "{\"commit_message\": \"fix: y\", \"change_summary\": \"done\"}");
    assert_eq!(summary.commit_message, "fix: y");
    assert_eq!(events.len(), 2);
    assert!(matches!(events[1], PipelineEvent::PipelineCompleted));
    let exec = core.execution(&id).unwrap();
    assert_eq!(exec.pipeline_state, PipelineState::Completed);
    assert_eq!(exec.status, ExecutionStatus::Completed);
    assert_eq!(exec.messages.last().unwrap().role, AgentRole::GitSummarizer);
}

#[test]
fn unknown_execution_is_left_alone() {
    let mut core = PipelineCore::new();
    let (id, _) = core.create_execution();
    let _ = core.intake_finish("someone-else", "{}");
    let exec = core.execution(&id).unwrap();
    assert!(exec.messages.is_empty());
}

#[test]
fn step_replies_append_in_order() {
    let mut core = PipelineCore::new();
    let (id, _) = core.create_execution();
    let _ = core.intake_finish(&id, "{}");
    let (out, events) = core.execute_step_finish(&id, "edit file", "patched".to_string());
    assert_eq!(out, "patched");
    assert!(matches!(&events[0], PipelineEvent::ExecutionProgress { .. }));
    let exec = core.execution(&id).unwrap();
    assert_eq!(exec.messages.len(), 2);
    assert_eq!(exec.messages[0].role, AgentRole::IntentClarifier);
    assert_eq!(exec.messages[1].role, AgentRole::Implementer);
    assert_eq!(exec.messages[1].content, "patched");
}

#[test]
fn full_run_ends_completed() {
    let mut core = PipelineCore::new();
    let (id, _) = core.create_execution();
    let _ = core.intake_request(&id, "add a button");
    let _ = core.intake_finish(&id, "{\"ambiguity_detected\": false}");
    let _ = core.clarify_request(&id, "add a button");
    assert_eq!(core.execution(&id).unwrap().pipeline_state, PipelineState::Clarifying);
    let _ = core.clarify_finish(&id, "{\"questions\": []}");
    let _ = core.gather_context_request(&id, "add a button");
    let _ = core.gather_context_finish(&id, "{\"files\": [\"ui.rs\"]}");
    let _ = core.plan_request(&id, "add a button");
    let (plan, _) = core.plan_finish(&id, "edit ui.rs");
    let _ = core.execute_step_request(&id, "edit ui.rs");
    assert_eq!(core.execution(&id).unwrap().status, ExecutionStatus::Running);
    let _ = core.execute_step_finish(&id, "edit ui.rs", "done".to_string());
    let _ = core.review_request(&id, "diff");
    let _ = core.review_finish(&id, "{\"approved\": true}");
    let _ = core.summarize_request(&id, "diff");
    let _ = core.summarize_finish(&id, "{\"commit_message\": \"feat: button\"}");
    let exec = core.execution(&id).unwrap();
    assert_eq!(exec.pipeline_state, PipelineState::Completed);
    assert_eq!(exec.status, ExecutionStatus::Completed);
    assert_eq!(exec.plan_id.as_deref(), Some(plan.id.as_str()));
    let roles: Vec<AgentRole> = exec.messages.iter().map(|m| m.role).collect();
    assert_eq!(
        roles,
        vec![
            AgentRole::IntentClarifier,
            AgentRole::IntentClarifier,
            AgentRole::RepoCartographer,
            AgentRole::Planner,
            AgentRole::Implementer,
            AgentRole::Reviewer,
            AgentRole::GitSummarizer,
        ]
    );
}
