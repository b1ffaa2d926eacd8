//! Pipeline event model: the twelve structured events emitted while an
//! agent execution runs.

use vstd::prelude::*;
use crate::agents::opt_view;
use crate::text::views;

verus! {

/// All event types in the agent pipeline lifecycle.
#[derive(Debug, Clone)]
pub enum PipelineEvent {
    /// Pipeline has started processing a user request.
    PipelineStarted,
    /// Intake analysis completed — ambiguity, scope, and risk detected.
    IntakeCompleted {
        ambiguity_detected: bool,
        repo_scope: String,
        risk_tier: String,
        destructive_potential: bool,
    },
    /// Pipeline paused to ask the user clarification questions.
    ClarificationNeeded { questions: Vec<ClarificationEventQuestion> },
    /// User has responded to clarification questions.
    ClarificationReceived { answers: Vec<String> },
    /// Context gathering completed — relevant files identified.
    ContextGathered {
        files: Vec<String>,
        architecture_notes: Vec<String>,
        probable_change_surface: Vec<String>,
    },
    /// Planner has produced a structured plan.
    PlanCreated { plan_id: String, title: String, step_count: usize },
    /// Plan has been approved (by user or auto-approved for low risk).
    PlanApproved { plan_id: String },
    /// Execution progress — a step has been updated.
    ExecutionProgress { step_id: String, status: String, description: String },
    /// The review step has finished analysing the changes.
    ReviewCompleted { findings: Vec<ReviewFinding>, approved: bool },
    /// Git Summarizer has generated a commit message and summary.
    SummaryGenerated { commit_message: String, change_summary: String },
    /// Pipeline finished successfully.
    PipelineCompleted,
    /// Pipeline failed with an error.
    PipelineFailed { error: String, step: String },
}

/// A clarification question included in a `ClarificationNeeded` event.
#[derive(Debug, Clone)]
pub struct ClarificationEventQuestion {
    pub id: String,
    pub question: String,
    pub options: Vec<String>,
    pub allow_custom: bool,
}

pub struct ClarificationEventQuestionView {
    pub id: Seq<char>,
    pub question: Seq<char>,
    pub options: Seq<Seq<char>>,
    pub allow_custom: bool,
}

impl View for ClarificationEventQuestion {
    type V = ClarificationEventQuestionView;

    open spec fn view(&self) -> ClarificationEventQuestionView {
        ClarificationEventQuestionView {
            id: self.id@,
            question: self.question@,
            options: views(self.options@),
            allow_custom: self.allow_custom,
        }
    }
}

/// A finding of the review step.
#[derive(Debug, Clone)]
pub struct ReviewFinding {
    pub severity: FindingSeverity,
    pub description: String,
    pub file: Option<String>,
    pub line: Option<u32>,
}

pub struct ReviewFindingView {
    pub severity: FindingSeverity,
    pub description: Seq<char>,
    pub file: Option<Seq<char>>,
    pub line: Option<u32>,
}

impl View for ReviewFinding {
    type V = ReviewFindingView;

    open spec fn view(&self) -> ReviewFindingView {
        ReviewFindingView {
            severity: self.severity,
            description: self.description@,
            file: opt_view(self.file),
            line: self.line,
        }
    }
}

/// Severity of a review finding.
#[derive(Debug, Clone, Copy, PartialEq, Eq, Structural)]
pub enum FindingSeverity {
    Info,
    Warning,
    Error,
    Critical,
}

/// Abstract view of a [`PipelineEvent`].
pub enum PipelineEventView {
    PipelineStarted,
    IntakeCompleted {
        ambiguity_detected: bool,
        repo_scope: Seq<char>,
        risk_tier: Seq<char>,
        destructive_potential: bool,
    },
    ClarificationNeeded { questions: Seq<ClarificationEventQuestionView> },
    ClarificationReceived { answers: Seq<Seq<char>> },
    ContextGathered {
        files: Seq<Seq<char>>,
        architecture_notes: Seq<Seq<char>>,
        probable_change_surface: Seq<Seq<char>>,
    },
    PlanCreated { plan_id: Seq<char>, title: Seq<char>, step_count: usize },
    PlanApproved { plan_id: Seq<char> },
    ExecutionProgress { step_id: Seq<char>, status: Seq<char>, description: Seq<char> },
    ReviewCompleted { findings: Seq<ReviewFindingView>, approved: bool },
    SummaryGenerated { commit_message: Seq<char>, change_summary: Seq<char> },
    PipelineCompleted,
    PipelineFailed { error: Seq<char>, step: Seq<char> },
}

impl View for PipelineEvent {
    type V = PipelineEventView;

    open spec fn view(&self) -> PipelineEventView {
        match self {
            PipelineEvent::PipelineStarted => PipelineEventView::PipelineStarted,
            PipelineEvent::IntakeCompleted {
                ambiguity_detected,
                repo_scope,
                risk_tier,
                destructive_potential,
            } => PipelineEventView::IntakeCompleted {
                ambiguity_detected: *ambiguity_detected,
                repo_scope: repo_scope@,
                risk_tier: risk_tier@,
                destructive_potential: *destructive_potential,
            },
            PipelineEvent::ClarificationNeeded { questions } => PipelineEventView::ClarificationNeeded {
                questions: questions@.map_values(|q: ClarificationEventQuestion| q@),
            },
            PipelineEvent::ClarificationReceived { answers } => PipelineEventView::ClarificationReceived {
                answers: views(answers@),
            },
            PipelineEvent::ContextGathered { files, architecture_notes, probable_change_surface } =>
                PipelineEventView::ContextGathered {
                files: views(files@),
                architecture_notes: views(architecture_notes@),
                probable_change_surface: views(probable_change_surface@),
            },
            PipelineEvent::PlanCreated { plan_id, title, step_count } => PipelineEventView::PlanCreated {
                plan_id: plan_id@,
                title: title@,
                step_count: *step_count,
            },
            PipelineEvent::PlanApproved { plan_id } => PipelineEventView::PlanApproved {
                plan_id: plan_id@,
            },
            PipelineEvent::ExecutionProgress { step_id, status, description } =>
                PipelineEventView::ExecutionProgress {
                step_id: step_id@,
                status: status@,
                description: description@,
            },
            PipelineEvent::ReviewCompleted { findings, approved } => PipelineEventView::ReviewCompleted {
                findings: findings@.map_values(|f: ReviewFinding| f@),
                approved: *approved,
            },
            PipelineEvent::SummaryGenerated { commit_message, change_summary } =>
                PipelineEventView::SummaryGenerated {
                commit_message: commit_message@,
                change_summary: change_summary@,
            },
            PipelineEvent::PipelineCompleted => PipelineEventView::PipelineCompleted,
            PipelineEvent::PipelineFailed { error, step } => PipelineEventView::PipelineFailed {
                error: error@,
                step: step@,
            },
        }
    }
}

/// Wrapper for a timed event tied to an execution.
#[derive(Debug, Clone)]
pub struct EventEnvelope {
    pub timestamp: String,
    pub execution_id: String,
    pub event: PipelineEvent,
}

/// Receives pipeline events. Implementations can log, broadcast, or persist
/// events.
pub trait EventSubscriber: Send + Sync {
    fn on_event(&self, envelope: &EventEnvelope);
}

} // verus!
