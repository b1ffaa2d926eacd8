//! The seven-step agent pipeline: reading model replies, and the state
//! machine that records each execution.
//!
//! Intake → Clarify → GatherContext → Plan → Execute → Review → Summarize.
//! Each step is split in two: a `*_request` call that updates the execution
//! and builds the chat request, and a `*_finish` call that reads the reply,
//! records it and returns the result with the events to emit. Sending the
//! request and delivering the events is up to the caller.

use vstd::prelude::*;
use crate::agents::{
    AgentExecution, AgentExecutionView, AgentMessage, AgentMessageView, AgentRole,
    ClarificationOption, ClarificationOptionView, ClarificationQuestion,
    ClarificationQuestionView, ExecutionStatus, PipelineState, Plan, PlanStep, PlanStepView,
    PlanView, StepStatus, dec_plan, dec_questions, dec_texts, decode_questions, opt_view,
};
use crate::events::{
    ClarificationEventQuestion, ClarificationEventQuestionView, FindingSeverity, PipelineEvent,
    PipelineEventView, ReviewFinding, ReviewFindingView,
};
use crate::ids::{new_id, now_rfc3339};
use crate::permissions::{PermissionClass, PermissionManager, PermissionPolicy, default_policies};
use crate::prompts::{
    CLARIFY_INSTRUCTIONS, CONTEXT_INSTRUCTIONS, GIT_SUMMARIZER, IMPLEMENTER, INTAKE_INSTRUCTIONS,
    INTENT_CLARIFIER, PLANNER, PLAN_INSTRUCTIONS, REPO_CARTOGRAPHER, REVIEWER,
    REVIEW_INSTRUCTIONS, SUMMARY_INSTRUCTIONS,
};
use crate::providers::{ChatMessage, ChatMessageView, ChatRequest, ChatRequestView, MessageRole, ModelId, text_message};
use crate::routing::{
    ModelRouter, ModelRoutingConfig, ModelRoutingConfigView, TaskType, default_routing, route_spec,
};
use crate::json::{
    JsonValue, bool_or, get_bool, get_text, json_bool, json_get, json_parse, json_str, json_u64,
    parse_json, str_or, text_or,
};
use crate::text::{
    concat, str_eq, chars_of, find_char, first_index_of, last_index_of, lemma_first_index_of, lemma_last_index_of,
    own, rfind_char, string_from_range, trim, trim_seq, views,
};

verus! {

// ---------------------------------------------------------------------
// Reading JSON out of a reply
// ---------------------------------------------------------------------

/// The text a reply's JSON is parsed from: the trimmed reply when it starts
/// with `{`, else the span from the first `{` to the last `}`.
pub open spec fn json_span(c: Seq<char>) -> Option<Seq<char>> {
    let t = trim_seq(c);
    if t.len() > 0 && t[0] == '{' {
        Some(t)
    } else {
        match (first_index_of(c, '{'), last_index_of(c, '}')) {
            (Some(s), Some(e)) => Some(c.subrange(s, e + 1)),
            _ => None,
        }
    }
}

/// The replies on which reading the JSON span panics: the last `}` stands
/// more than one character before the first `{` (slicing out of order).
pub open spec fn json_span_panics(c: Seq<char>) -> bool {
    let t = trim_seq(c);
    !(t.len() > 0 && t[0] == '{') && match (first_index_of(c, '{'), last_index_of(c, '}')) {
        (Some(s), Some(e)) => e + 1 < s,
        _ => false,
    }
}

/// The JSON value found in a reply, if any.
pub open spec fn reply_json(c: Seq<char>) -> Option<JsonValue> {
    match json_span(c) {
        Some(t) => json_parse(t),
        None => None,
    }
}

/// Whether reading JSON out of `content` would panic (see
/// [`json_span_panics`]).
pub fn json_span_would_panic(content: &str) -> (res: bool)
    ensures
        res == json_span_panics(content@),
{
    let trimmed = trim(content);
    let t = chars_of(trimmed.as_str());
    if t.len() > 0 && t[0] == '{' {
        return false;
    }
    let cs = chars_of(content);
    proof {
        lemma_last_index_of(content@, '}');
    }
    let n = cs.len();
    match (find_char(&cs, '{'), rfind_char(&cs, '}')) {
        (Some(s), Some(e)) => {
            assert(e < n);
            e + 1 < s
        },
        _ => false,
    }
}

/// Reads the JSON value in a reply: the whole trimmed reply when it starts
/// with `{`, else the span from the first `{` to the last `}`.
pub fn extract_json(content: &str) -> (res: Option<JsonValue>)
    requires
        !json_span_panics(content@),
    ensures
        res == reply_json(content@),
{
    let trimmed = trim(content);
    let t = chars_of(trimmed.as_str());
    if t.len() > 0 && t[0] == '{' {
        return parse_json(trimmed.as_str());
    }
    let cs = chars_of(content);
    proof {
        lemma_first_index_of(content@, '{');
        lemma_last_index_of(content@, '}');
    }
    match find_char(&cs, '{') {
        Some(s) => match rfind_char(&cs, '}') {
            Some(e) => {
                let n = cs.len();
                assert(e < n);
                let span = string_from_range(&cs, s, e + 1);
                parse_json(span.as_str())
            },
            None => None,
        },
        None => None,
    }
}

// ---------------------------------------------------------------------
// Step results
// ---------------------------------------------------------------------

/// What intake found in the request.
#[derive(Debug, Clone)]
pub struct IntakeResult {
    pub ambiguity_detected: bool,
    pub repo_scope: String,
    pub risk_tier: String,
    pub destructive_potential: bool,
    pub needs_clarification: bool,
    pub needs_context: bool,
    pub needs_vision: bool,
}

pub struct IntakeResultView {
    pub ambiguity_detected: bool,
    pub repo_scope: Seq<char>,
    pub risk_tier: Seq<char>,
    pub destructive_potential: bool,
    pub needs_clarification: bool,
    pub needs_context: bool,
    pub needs_vision: bool,
}

impl View for IntakeResult {
    type V = IntakeResultView;

    open spec fn view(&self) -> IntakeResultView {
        IntakeResultView {
            ambiguity_detected: self.ambiguity_detected,
            repo_scope: self.repo_scope@,
            risk_tier: self.risk_tier@,
            destructive_potential: self.destructive_potential,
            needs_clarification: self.needs_clarification,
            needs_context: self.needs_context,
            needs_vision: self.needs_vision,
        }
    }
}

/// Intake read from the reply's JSON: each field from its member when that
/// has the right type, else its default (scope `unknown`, risk `low`,
/// context needed, every other flag false).
pub open spec fn intake_of(j: Option<JsonValue>) -> IntakeResultView {
    match j {
        Some(v) => IntakeResultView {
            ambiguity_detected: bool_or(json_bool(json_get(v, "ambiguity_detected"@)), false),
            repo_scope: str_or(json_str(json_get(v, "repo_scope"@)), "unknown"@),
            risk_tier: str_or(json_str(json_get(v, "risk_tier"@)), "low"@),
            destructive_potential: bool_or(json_bool(json_get(v, "destructive_potential"@)), false),
            needs_clarification: bool_or(json_bool(json_get(v, "needs_clarification"@)), false),
            needs_context: bool_or(json_bool(json_get(v, "needs_context"@)), true),
            needs_vision: bool_or(json_bool(json_get(v, "needs_vision"@)), false),
        },
        None => IntakeResultView {
            ambiguity_detected: false,
            repo_scope: "unknown"@,
            risk_tier: "low"@,
            destructive_potential: false,
            needs_clarification: false,
            needs_context: true,
            needs_vision: false,
        },
    }
}

fn flag_or(v: &JsonValue, key: &str, default: bool) -> (res: bool)
    ensures
        res == bool_or(json_bool(json_get(*v, key@)), default),
{
    match get_bool(v, key) {
        Some(b) => b,
        None => default,
    }
}

fn member_text_or(v: &JsonValue, key: &str, default: &str) -> (res: String)
    ensures
        res@ == str_or(json_str(json_get(*v, key@)), default@),
{
    text_or(get_text(v, key), default)
}

/// Reads the intake analysis from a reply.
pub fn parse_intake(content: &str) -> (res: IntakeResult)
    requires
        !json_span_panics(content@),
    ensures
        res@ == intake_of(reply_json(content@)),
{
    match extract_json(content) {
        Some(json) => IntakeResult {
            ambiguity_detected: flag_or(&json, "ambiguity_detected", false),
            repo_scope: member_text_or(&json, "repo_scope", "unknown"),
            risk_tier: member_text_or(&json, "risk_tier", "low"),
            destructive_potential: flag_or(&json, "destructive_potential", false),
            needs_clarification: flag_or(&json, "needs_clarification", false),
            needs_context: flag_or(&json, "needs_context", true),
            needs_vision: flag_or(&json, "needs_vision", false),
        },
        None => IntakeResult {
            ambiguity_detected: false,
            repo_scope: own("unknown"),
            risk_tier: own("low"),
            destructive_potential: false,
            needs_clarification: false,
            needs_context: true,
            needs_vision: false,
        },
    }
}

/// What context gathering found.
#[derive(Debug, Clone)]
pub struct ContextResult {
    pub files: Vec<String>,
    pub architecture_notes: Vec<String>,
    pub probable_change_surface: Vec<String>,
}

pub struct ContextResultView {
    pub files: Seq<Seq<char>>,
    pub architecture_notes: Seq<Seq<char>>,
    pub probable_change_surface: Seq<Seq<char>>,
}

impl View for ContextResult {
    type V = ContextResultView;

    open spec fn view(&self) -> ContextResultView {
        ContextResultView {
            files: views(self.files@),
            architecture_notes: views(self.architecture_notes@),
            probable_change_surface: views(self.probable_change_surface@),
        }
    }
}

/// A list of texts, or empty.
pub open spec fn texts_or_empty(v: Option<Seq<Seq<char>>>) -> Seq<Seq<char>> {
    match v {
        Some(s) => s,
        None => Seq::empty(),
    }
}

/// Context read from the reply's JSON: each list from its member when that
/// is an array of strings, else empty.
pub open spec fn context_of(j: Option<JsonValue>) -> ContextResultView {
    match j {
        Some(v) => ContextResultView {
            files: texts_or_empty(dec_texts(json_get(v, "files"@))),
            architecture_notes: texts_or_empty(dec_texts(json_get(v, "architecture_notes"@))),
            probable_change_surface: texts_or_empty(
                dec_texts(json_get(v, "probable_change_surface"@)),
            ),
        },
        None => ContextResultView {
            files: Seq::empty(),
            architecture_notes: Seq::empty(),
            probable_change_surface: Seq::empty(),
        },
    }
}

fn member_texts(v: &JsonValue, key: &str) -> (res: Vec<String>)
    ensures
        views(res@) == texts_or_empty(dec_texts(json_get(*v, key@))),
{
    match v.get(key) {
        Some(x) => match x.as_strings() {
            Some(list) => list,
            None => Vec::new(),
        },
        None => {
            let out: Vec<String> = Vec::new();
            assert(views(out@) =~= Seq::<Seq<char>>::empty());
            out
        },
    }
}

/// Reads the gathered context from a reply.
pub fn parse_context(content: &str) -> (res: ContextResult)
    requires
        !json_span_panics(content@),
    ensures
        res@ == context_of(reply_json(content@)),
{
    match extract_json(content) {
        Some(json) => ContextResult {
            files: member_texts(&json, "files"),
            architecture_notes: member_texts(&json, "architecture_notes"),
            probable_change_surface: member_texts(&json, "probable_change_surface"),
        },
        None => {
            let res = ContextResult {
                files: Vec::new(),
                architecture_notes: Vec::new(),
                probable_change_surface: Vec::new(),
            };
            assert(views(res.files@) =~= Seq::<Seq<char>>::empty());
            assert(views(res.architecture_notes@) =~= Seq::<Seq<char>>::empty());
            assert(views(res.probable_change_surface@) =~= Seq::<Seq<char>>::empty());
            res
        },
    }
}

/// One finding as read from a review reply.
#[derive(Debug, Clone)]
pub struct ReviewFindingParsed {
    pub severity: String,
    pub description: String,
    pub file: Option<String>,
    pub line: Option<u32>,
}

pub struct ReviewFindingParsedView {
    pub severity: Seq<char>,
    pub description: Seq<char>,
    pub file: Option<Seq<char>>,
    pub line: Option<u32>,
}

impl View for ReviewFindingParsed {
    type V = ReviewFindingParsedView;

    open spec fn view(&self) -> ReviewFindingParsedView {
        ReviewFindingParsedView {
            severity: self.severity@,
            description: self.description@,
            file: opt_view(self.file),
            line: self.line,
        }
    }
}

/// What the review step concluded.
#[derive(Debug, Clone)]
pub struct ReviewResult {
    pub approved: bool,
    pub findings: Vec<ReviewFindingParsed>,
}

pub struct ReviewResultView {
    pub approved: bool,
    pub findings: Seq<ReviewFindingParsedView>,
}

impl View for ReviewResult {
    type V = ReviewResultView;

    open spec fn view(&self) -> ReviewResultView {
        ReviewResultView {
            approved: self.approved,
            findings: self.findings@.map_values(|f: ReviewFindingParsed| f@),
        }
    }
}

/// A number cast to `u32` the way `as u32` truncates it.
pub open spec fn line_of(n: Option<u64>) -> Option<u32> {
    match n {
        Some(l) => Some(l as u32),
        None => None,
    }
}

/// One finding read from an item of the `findings` array: severity `info`
/// and an empty description when absent.
pub open spec fn finding_of(f: JsonValue) -> ReviewFindingParsedView {
    ReviewFindingParsedView {
        severity: str_or(json_str(json_get(f, "severity"@)), "info"@),
        description: str_or(json_str(json_get(f, "description"@)), ""@),
        file: json_str(json_get(f, "file"@)),
        line: line_of(json_u64(json_get(f, "line"@))),
    }
}

/// The review read from the reply's JSON: approved unless `approved` is
/// `false`; one finding per item of the `findings` array.
pub open spec fn review_of(j: Option<JsonValue>) -> ReviewResultView {
    match j {
        Some(v) => ReviewResultView {
            approved: bool_or(json_bool(json_get(v, "approved"@)), true),
            findings: match json_get(v, "findings"@) {
                Some(JsonValue::Array(items)) => items@.map_values(|f: JsonValue| finding_of(f)),
                _ => Seq::empty(),
            },
        },
        None => ReviewResultView { approved: true, findings: Seq::empty() },
    }
}

fn finding_from(f: &JsonValue) -> (res: ReviewFindingParsed)
    ensures
        res@ == finding_of(*f),
{
    let line = match f.get("line") {
        Some(x) => match x.as_u64() {
            Some(l) => Some(l as u32),
            None => None,
        },
        None => None,
    };
    ReviewFindingParsed {
        severity: member_text_or(f, "severity", "info"),
        description: member_text_or(f, "description", ""),
        file: get_text(f, "file"),
        line,
    }
}

/// Reads the review from a reply.
pub fn parse_review(content: &str) -> (res: ReviewResult)
    requires
        !json_span_panics(content@),
    ensures
        res@ == review_of(reply_json(content@)),
{
    match extract_json(content) {
        Some(json) => {
            let mut findings: Vec<ReviewFindingParsed> = Vec::new();
            match json.get("findings") {
                Some(JsonValue::Array(items)) => {
                    let mut i: usize = 0;
                    while i < items.len()
                        invariant
                            i <= items@.len(),
                            findings@.len() == i,
                            forall|k: int| 0 <= k < i ==> #[trigger] findings@[k]@ == finding_of(
                                items@[k],
                            ),
                        decreases items@.len() - i,
                    {
                        findings.push(finding_from(&items[i]));
                        i += 1;
                    }
                    assert(findings@.map_values(|f: ReviewFindingParsed| f@) =~= items@.map_values(
                        |f: JsonValue| finding_of(f),
                    ));
                },
                _ => {
                    assert(findings@.map_values(|f: ReviewFindingParsed| f@) =~= Seq::<
                        ReviewFindingParsedView,
                    >::empty());
                },
            }
            ReviewResult { approved: flag_or(&json, "approved", true), findings }
        },
        None => {
            let res = ReviewResult { approved: true, findings: Vec::new() };
            assert(res.findings@.map_values(|f: ReviewFindingParsed| f@) =~= Seq::<
                ReviewFindingParsedView,
            >::empty());
            res
        },
    }
}

/// The commit message and change summary.
#[derive(Debug, Clone)]
pub struct SummaryResult {
    pub commit_message: String,
    pub change_summary: String,
}

/// The summary read from a reply: the members when they are strings, with
/// defaults; without JSON the whole reply is the change summary.
pub open spec fn summary_of(j: Option<JsonValue>, content: Seq<char>) -> (Seq<char>, Seq<char>) {
    match j {
        Some(v) => (
            str_or(json_str(json_get(v, "commit_message"@)), "chore: update files"@),
            str_or(json_str(json_get(v, "change_summary"@)), "Changes made."@),
        ),
        None => ("chore: update files"@, content),
    }
}

/// Reads the summary from a reply.
pub fn parse_summary(content: &str) -> (res: SummaryResult)
    requires
        !json_span_panics(content@),
    ensures
        (res.commit_message@, res.change_summary@) == summary_of(reply_json(content@), content@),
{
    match extract_json(content) {
        Some(json) => SummaryResult {
            commit_message: member_text_or(&json, "commit_message", "chore: update files"),
            change_summary: member_text_or(&json, "change_summary", "Changes made."),
        },
        None => SummaryResult {
            commit_message: own("chore: update files"),
            change_summary: own(content),
        },
    }
}

/// The questions read from the reply's JSON: its `questions` member decoded
/// as a list of questions, or none.
pub open spec fn questions_of(j: Option<JsonValue>) -> Seq<ClarificationQuestionView> {
    match j {
        Some(v) => match dec_questions(json_get(v, "questions"@)) {
            Some(qs) => qs,
            None => Seq::empty(),
        },
        None => Seq::empty(),
    }
}

/// Reads clarification questions from a reply.
pub fn parse_clarification_questions(content: &str) -> (res: Vec<ClarificationQuestion>)
    requires
        !json_span_panics(content@),
    ensures
        res@.map_values(|q: ClarificationQuestion| q@) == questions_of(reply_json(content@)),
{
    if let Some(json) = extract_json(content) {
        if let Some(questions) = decode_questions(json.get("questions")) {
            return questions;
        }
    }
    let res: Vec<ClarificationQuestion> = Vec::new();
    assert(res@.map_values(|q: ClarificationQuestion| q@) =~= Seq::<ClarificationQuestionView>::empty());
    res
}

/// A one-step plan whose only step is the whole reply.
pub open spec fn fallback_plan(title: Seq<char>, content: Seq<char>, id: Seq<char>) -> PlanView {
    PlanView {
        id,
        title,
        steps: seq![
            PlanStepView {
                id: "1"@,
                description: content,
                files: Seq::empty(),
                status: StepStatus::Pending,
            },
        ],
        assumptions: Seq::empty(),
        questions: Seq::empty(),
    }
}

/// The plan read from a reply: the decoded plan; else a one-step plan
/// titled `Auto-generated plan` (JSON that is no plan) or `Direct
/// execution` (no JSON), with the fresh identifier `id`.
pub open spec fn plan_of(j: Option<JsonValue>, content: Seq<char>, id: Seq<char>) -> PlanView {
    match j {
        Some(v) => match dec_plan(v) {
            Some(p) => p,
            None => fallback_plan("Auto-generated plan"@, content, id),
        },
        None => fallback_plan("Direct execution"@, content, id),
    }
}

fn make_fallback_plan(title: &str, content: &str) -> (res: Plan)
    ensures
        res@ == fallback_plan(title@, content@, res.id@),
{
    let step = PlanStep {
        id: own("1"),
        description: own(content),
        files: Vec::new(),
        status: StepStatus::Pending,
    };
    let mut steps: Vec<PlanStep> = Vec::new();
    steps.push(step);
    let res = Plan {
        id: new_id(),
        title: own(title),
        steps,
        assumptions: Vec::new(),
        questions: Vec::new(),
    };
    assert(views(res.steps@[0].files@) =~= Seq::<Seq<char>>::empty());
    assert(res.steps@.map_values(|s: PlanStep| s@) =~= fallback_plan(title@, content@, res.id@).steps);
    assert(views(res.assumptions@) =~= Seq::<Seq<char>>::empty());
    assert(res.questions@.map_values(|q: ClarificationQuestion| q@) =~= Seq::<
        ClarificationQuestionView,
    >::empty());
    res
}

/// Reads a plan from a reply; a reply without a decodable plan becomes a
/// one-step plan with a fresh identifier.
pub fn parse_plan(content: &str) -> (res: Plan)
    requires
        !json_span_panics(content@),
    ensures
        res@ == plan_of(reply_json(content@), content@, res.id@),
{
    match extract_json(content) {
        Some(json) => match Plan::from_json(&json) {
            Some(plan) => plan,
            None => make_fallback_plan("Auto-generated plan", content),
        },
        None => make_fallback_plan("Direct execution", content),
    }
}


// ---------------------------------------------------------------------
// The execution records and the step state machine
// ---------------------------------------------------------------------

/// Position of the first execution with identifier `id`.
pub open spec fn exec_index(es: Seq<AgentExecutionView>, id: Seq<char>) -> Option<int>
    decreases es.len(),
{
    if es.len() == 0 {
        None
    } else if es[0].id == id {
        Some(0)
    } else {
        match exec_index(es.drop_first(), id) {
            Some(i) => Some(i + 1),
            None => None,
        }
    }
}

pub proof fn lemma_exec_index(es: Seq<AgentExecutionView>, id: Seq<char>)
    ensures
        match exec_index(es, id) {
            Some(i) => 0 <= i < es.len() && es[i].id == id && forall|j: int|
                0 <= j < i ==> es[j].id != id,
            None => forall|j: int| 0 <= j < es.len() ==> es[j].id != id,
        },
    decreases es.len(),
{
    if es.len() > 0 && es[0].id != id {
        lemma_exec_index(es.drop_first(), id);
        match exec_index(es.drop_first(), id) {
            Some(i) => {
                assert forall|j: int| 0 <= j < i + 1 implies es[j].id != id by {
                    if j > 0 {
                        assert(es[j] == es.drop_first()[j - 1]);
                    }
                }
            },
            None => {
                assert forall|j: int| 0 <= j < es.len() implies es[j].id != id by {
                    if j > 0 {
                        assert(es[j] == es.drop_first()[j - 1]);
                    }
                }
            },
        }
    }
}

/// The executions with `f` applied to the one named `id` (none changes when
/// no execution has that identifier).
pub open spec fn map_exec(
    es: Seq<AgentExecutionView>,
    id: Seq<char>,
    f: spec_fn(AgentExecutionView) -> AgentExecutionView,
) -> Seq<AgentExecutionView> {
    match exec_index(es, id) {
        Some(i) => es.update(i, f(es[i])),
        None => es,
    }
}

/// The execution in pipeline state `s`.
pub open spec fn in_state(s: PipelineState) -> spec_fn(AgentExecutionView) -> AgentExecutionView {
    |x: AgentExecutionView| AgentExecutionView { pipeline_state: s, ..x }
}

/// The execution in pipeline state `s` with run status `st`.
pub open spec fn in_state_status(s: PipelineState, st: ExecutionStatus) -> spec_fn(
    AgentExecutionView,
) -> AgentExecutionView {
    |x: AgentExecutionView| AgentExecutionView { pipeline_state: s, status: st, ..x }
}

/// The execution with plan `plan_id`.
pub open spec fn with_plan(plan_id: Seq<char>) -> spec_fn(AgentExecutionView) -> AgentExecutionView {
    |x: AgentExecutionView| AgentExecutionView { plan_id: Some(plan_id), ..x }
}

/// The execution unchanged.
pub open spec fn unchanged() -> spec_fn(AgentExecutionView) -> AgentExecutionView {
    |x: AgentExecutionView| x
}

/// A message without metadata.
pub open spec fn message(role: AgentRole, content: Seq<char>, timestamp: Seq<char>) -> AgentMessageView {
    AgentMessageView { role, content, timestamp, metadata: None }
}

/// `new` is `old` with `f` applied to the execution named `id` and then one
/// message of `role` with `content` appended to it, stamped with whatever
/// time the clock gave; other executions are unchanged.
pub open spec fn recorded(
    old: Seq<AgentExecutionView>,
    new: Seq<AgentExecutionView>,
    id: Seq<char>,
    f: spec_fn(AgentExecutionView) -> AgentExecutionView,
    role: AgentRole,
    content: Seq<char>,
) -> bool {
    match exec_index(old, id) {
        Some(i) => {
            &&& new.len() == old.len()
            &&& forall|j: int| 0 <= j < old.len() && j != i ==> new[j] == old[j]
            &&& new[i] == AgentExecutionView {
                messages: f(old[i]).messages.push(
                    message(role, content, new[i].messages.last().timestamp),
                ),
                ..f(old[i])
            }
        },
        None => new == old,
    }
}

/// The two-message request of a step: the role's system prompt, then the
/// user text.
pub open spec fn step_request(
    model: Seq<char>,
    system: Seq<char>,
    user: Seq<char>,
    temperature_centi: u32,
    max_tokens: u32,
) -> ChatRequestView {
    ChatRequestView {
        model,
        messages: seq![
            text_message(MessageRole::System, system),
            text_message(MessageRole::User, user),
        ],
        stream: false,
        temperature_centi: Some(temperature_centi),
        max_tokens: Some(max_tokens),
    }
}

/// The event form of a clarification question: its option labels.
pub open spec fn event_question(q: ClarificationQuestionView) -> ClarificationEventQuestionView {
    ClarificationEventQuestionView {
        id: q.id,
        question: q.question,
        options: q.options.map_values(|o: ClarificationOptionView| o.label),
        allow_custom: q.allow_custom,
    }
}

/// The severity named by a finding: `critical`, `error`, `warning`, and
/// `info` for anything else.
pub open spec fn severity_of(s: Seq<char>) -> FindingSeverity {
    if s == "critical"@ {
        FindingSeverity::Critical
    } else if s == "error"@ {
        FindingSeverity::Error
    } else if s == "warning"@ {
        FindingSeverity::Warning
    } else {
        FindingSeverity::Info
    }
}

/// The event form of a parsed finding.
pub open spec fn event_finding(f: ReviewFindingParsedView) -> ReviewFindingView {
    ReviewFindingView {
        severity: severity_of(f.severity),
        description: f.description,
        file: f.file,
        line: f.line,
    }
}

/// The decisions of the agent pipeline: the execution records, the
/// permissions and the model router.
pub struct PipelineCore {
    executions: Vec<AgentExecution>,
    permissions: PermissionManager,
    router: ModelRouter,
}

impl PipelineCore {
    /// The executions, in creation order.
    pub closed spec fn executions_view(&self) -> Seq<AgentExecutionView> {
        self.executions@.map_values(|e: AgentExecution| e@)
    }

    /// The permissions of the pipeline.
    pub closed spec fn permissions_view(&self) -> Map<PermissionClass, PermissionPolicy> {
        self.permissions@
    }

    /// The routing configuration.
    pub closed spec fn routing_view(&self) -> ModelRoutingConfigView {
        self.router.config_view()
    }

    /// The permissions the router consults.
    pub closed spec fn router_permissions_view(&self) -> Map<PermissionClass, PermissionPolicy> {
        self.router.permissions_view()
    }

    /// The model the router picks for a task without vision.
    pub open spec fn model_for(&self, task: TaskType) -> Seq<char> {
        route_spec(self.routing_view(), self.router_permissions_view(), task, false).model_id
    }

    /// A pipeline with no executions, default permissions and the default
    /// routing configuration; the router gets its own default permissions.
    pub fn new() -> (res: Self)
        ensures
            res.executions_view() == Seq::<AgentExecutionView>::empty(),
            res.permissions_view() == default_policies(),
            res.router_permissions_view() == default_policies(),
            res.routing_view() == default_routing(),
    {
        let router = ModelRouter::new(ModelRoutingConfig::default(), PermissionManager::new());
        let res = PipelineCore { executions: Vec::new(), permissions: PermissionManager::new(), router };
        assert(res.executions_view() =~= Seq::<AgentExecutionView>::empty());
        res
    }

    /// Replaces the pipeline's permissions (the router keeps its own).
    pub fn with_permissions(&mut self, perms: PermissionManager)
        ensures
            final(self).permissions_view() == perms@,
            final(self).executions_view() == old(self).executions_view(),
            final(self).routing_view() == old(self).routing_view(),
            final(self).router_permissions_view() == old(self).router_permissions_view(),
    {
        self.permissions = perms;
    }

    /// Replaces the router with one built from `config` and a copy of the
    /// pipeline's permissions.
    pub fn with_routing_config(&mut self, config: ModelRoutingConfig)
        ensures
            final(self).routing_view() == config@,
            final(self).router_permissions_view() == old(self).permissions_view(),
            final(self).permissions_view() == old(self).permissions_view(),
            final(self).executions_view() == old(self).executions_view(),
    {
        let perms = self.permissions.duplicate();
        self.router = ModelRouter::new(config, perms);
    }

    /// The execution with identifier `id`, if any.
    pub fn execution(&self, id: &str) -> (res: Option<&AgentExecution>)
        ensures
            match res {
                Some(e) => exec_index(self.executions_view(), id@) matches Some(i)
                    && self.executions_view()[i] == e@,
                None => exec_index(self.executions_view(), id@) is None,
            },
    {
        match self.position(id) {
            Some(i) => {
                proof {
                    lemma_exec_index(self.executions_view(), id@);
                }
                assert(self.executions_view()[i as int] == self.executions@[i as int]@);
                Some(&self.executions[i])
            },
            None => None,
        }
    }

    fn position(&self, id: &str) -> (res: Option<usize>)
        ensures
            match res {
                Some(i) => exec_index(self.executions_view(), id@) == Some(i as int),
                None => exec_index(self.executions_view(), id@) is None,
            },
    {
        let ghost es = self.executions_view();
        proof {
            lemma_exec_index(es, id@);
        }
        let mut i: usize = 0;
        while i < self.executions.len()
            invariant
                i <= es.len(),
                es == self.executions_view(),
                es.len() == self.executions@.len(),
                forall|j: int| 0 <= j < i ==> es[j].id != id@,
                match exec_index(es, id@) {
                    Some(k) => 0 <= k < es.len() && es[k].id == id@ && forall|j: int|
                        0 <= j < k ==> es[j].id != id@,
                    None => forall|j: int| 0 <= j < es.len() ==> es[j].id != id@,
                },
            decreases es.len() - i,
        {
            assert(es[i as int] == self.executions@[i as int]@);
            if str_eq(self.executions[i].id.as_str(), id) {
                proof {
                    match exec_index(es, id@) {
                        Some(k) => {
                            if k > i {
                                assert(false);
                            }
                        },
                        None => {},
                    }
                }
                return Some(i);
            }
            i += 1;
        }
        None
    }

    /// Puts `e` at position `i`.
    fn replace_at(&mut self, i: usize, e: AgentExecution)
        requires
            i < old(self).executions_view().len(),
        ensures
            final(self).executions_view() == old(self).executions_view().update(i as int, e@),
            final(self).permissions_view() == old(self).permissions_view(),
            final(self).routing_view() == old(self).routing_view(),
            final(self).router_permissions_view() == old(self).router_permissions_view(),
    {
        let ghost before = self.executions@;
        let _ = self.executions.remove(i);
        self.executions.insert(i, e);
        assert(self.executions@ =~= before.update(i as int, e));
        assert(self.executions_view() =~= before.map_values(|x: AgentExecution| x@).update(i as int, e@));
    }

    /// Takes the execution at position `i` out, leaving an empty record in
    /// its place.
    fn take_at(&mut self, i: usize) -> (res: AgentExecution)
        requires
            i < old(self).executions_view().len(),
        ensures
            res@ == old(self).executions_view()[i as int],
            final(self).executions@.len() == old(self).executions@.len(),
            final(self).permissions_view() == old(self).permissions_view(),
            final(self).routing_view() == old(self).routing_view(),
            final(self).router_permissions_view() == old(self).router_permissions_view(),
            forall|j: int|
                0 <= j < final(self).executions@.len() && j != i ==> final(self).executions_view()[j]
                    == old(self).executions_view()[j],
    {
        let placeholder = AgentExecution {
            id: String::new(),
            plan_id: None,
            pipeline_state: PipelineState::Intake,
            messages: Vec::new(),
            status: ExecutionStatus::Idle,
            created_at: String::new(),
        };
        let ghost before = self.executions@;
        let res = self.executions.remove(i);
        self.executions.insert(i, placeholder);
        assert(self.executions@ =~= before.update(i as int, placeholder));
        res
    }

    /// Sets the state (and, when given, the status) of the execution `id`.
    fn set_state(&mut self, id: &str, state: PipelineState, status: Option<ExecutionStatus>)
        ensures
            final(self).executions_view() == match status {
                Some(st) => map_exec(old(self).executions_view(), id@, in_state_status(state, st)),
                None => map_exec(old(self).executions_view(), id@, in_state(state)),
            },
            final(self).permissions_view() == old(self).permissions_view(),
            final(self).routing_view() == old(self).routing_view(),
            final(self).router_permissions_view() == old(self).router_permissions_view(),
    {
        match self.position(id) {
            Some(i) => {
                proof {
                    lemma_exec_index(self.executions_view(), id@);
                }
                let ghost before = self.executions_view();
                let mut e = self.take_at(i);
                e.pipeline_state = state;
                match status {
                    Some(st) => {
                        e.status = st;
                    },
                    None => {},
                }
                self.replace_at(i, e);
                proof {
                    assert(self.executions_view() =~= before.update(i as int, e@));
                    match status {
                        Some(st) => {
                            assert(e@ == in_state_status(state, st)(before[i as int]));
                        },
                        None => {
                            assert(e@ == in_state(state)(before[i as int]));
                        },
                    }
                }
            },
            None => {},
        }
    }

    /// Applies the bookkeeping of a finished step to the execution `id`: the
    /// state and status when given, the plan when given, then the reply as a
    /// message of `role`.
    fn record(
        &mut self,
        id: &str,
        state: Option<PipelineState>,
        status: Option<ExecutionStatus>,
        plan_id: Option<String>,
        role: AgentRole,
        content: String,
    )
        ensures
            recorded(
                old(self).executions_view(),
                final(self).executions_view(),
                id@,
                |x: AgentExecutionView|
                    AgentExecutionView {
                        pipeline_state: match state {
                            Some(s) => s,
                            None => x.pipeline_state,
                        },
                        status: match status {
                            Some(s) => s,
                            None => x.status,
                        },
                        plan_id: match plan_id {
                            Some(p) => Some(p@),
                            None => x.plan_id,
                        },
                        ..x
                    },
                role,
                content@,
            ),
            final(self).permissions_view() == old(self).permissions_view(),
            final(self).routing_view() == old(self).routing_view(),
            final(self).router_permissions_view() == old(self).router_permissions_view(),
    {
        match self.position(id) {
            Some(i) => {
                proof {
                    lemma_exec_index(self.executions_view(), id@);
                }
                let ghost before = self.executions_view();
                let mut e = self.take_at(i);
                match state {
                    Some(s) => {
                        e.pipeline_state = s;
                    },
                    None => {},
                }
                match status {
                    Some(s) => {
                        e.status = s;
                    },
                    None => {},
                }
                match plan_id {
                    Some(p) => {
                        e.plan_id = Some(p);
                    },
                    None => {},
                }
                let ghost mid = e@;
                let msg = AgentMessage { role, content, timestamp: now_rfc3339(), metadata: None };
                e.messages.push(msg);
                self.replace_at(i, e);
                proof {
                    let new = self.executions_view();
                    assert(new =~= before.update(i as int, e@));
                    assert(e@.messages == mid.messages.push(msg@));
                    assert(new[i as int].messages.last() == msg@);
                }
            },
            None => {},
        }
    }

    /// Starts a new execution: a fresh identifier, state `Intake`, status
    /// `Idle`, no plan and no messages, created now. An execution with the
    /// same identifier is replaced.
    pub fn create_execution(&mut self) -> (res: (String, Vec<PipelineEvent>))
        ensures
            ({
                let e = AgentExecutionView {
                    id: res.0@,
                    plan_id: None,
                    pipeline_state: PipelineState::Intake,
                    messages: Seq::empty(),
                    status: ExecutionStatus::Idle,
                    created_at: final(self).executions_view().last().created_at,
                };
                match exec_index(old(self).executions_view(), res.0@) {
                    Some(i) => final(self).executions_view() == old(self).executions_view().update(i, AgentExecutionView {
                        created_at: final(self).executions_view()[i].created_at,
                        ..e
                    }),
                    None => final(self).executions_view() == old(self).executions_view().push(e),
                }
            }),
            res.1@.map_values(|ev: PipelineEvent| ev@) == seq![PipelineEventView::PipelineStarted],
            final(self).permissions_view() == old(self).permissions_view(),
            final(self).routing_view() == old(self).routing_view(),
            final(self).router_permissions_view() == old(self).router_permissions_view(),
    {
        let id = new_id();
        let execution = AgentExecution {
            id: id.clone(),
            plan_id: None,
            pipeline_state: PipelineState::Intake,
            messages: Vec::new(),
            status: ExecutionStatus::Idle,
            created_at: now_rfc3339(),
        };
        assert(execution@.messages =~= Seq::<AgentMessageView>::empty());
        proof {
            lemma_exec_index(self.executions_view(), id@);
        }
        match self.position(id.as_str()) {
            Some(i) => {
                self.replace_at(i, execution);
            },
            None => {
                let ghost before = self.executions@;
                self.executions.push(execution);
                assert(self.executions_view() =~= before.map_values(|x: AgentExecution| x@).push(
                    execution@,
                ));
            },
        }
        let mut events: Vec<PipelineEvent> = Vec::new();
        events.push(PipelineEvent::PipelineStarted);
        assert(events@.map_values(|ev: PipelineEvent| ev@) =~= seq![PipelineEventView::PipelineStarted]);
        (id, events)
    }

    fn two_message_request(
        model: String,
        system: &str,
        user: String,
        temperature_centi: u32,
        max_tokens: u32,
    ) -> (res: ChatRequest)
        ensures
            res@ == step_request(model@, system@, user@, temperature_centi, max_tokens),
    {
        let mut messages: Vec<ChatMessage> = Vec::new();
        messages.push(ChatMessage::text(MessageRole::System, own(system)));
        messages.push(ChatMessage::text(MessageRole::User, user));
        let res = ChatRequest {
            model: ModelId(model),
            messages,
            stream: false,
            temperature_centi: Some(temperature_centi),
            max_tokens: Some(max_tokens),
        };
        assert(res@.messages =~= step_request(model@, system@, user@, temperature_centi, max_tokens).messages);
        res
    }

    /// Step 1 request: intake analysis of the user's message. The execution
    /// is not changed yet.
    pub fn intake_request(&self, execution_id: &str, user_message: &str) -> (res: ChatRequest)
        ensures
            res@ == step_request(
                self.model_for(TaskType::Chat),
                INTENT_CLARIFIER@,
                INTAKE_INSTRUCTIONS@ + user_message@,
                30,
                2048,
            ),
    {
        let routing = self.router.route(&TaskType::Chat, false, false);
        Self::two_message_request(
            routing.model_id,
            INTENT_CLARIFIER,
            concat(INTAKE_INSTRUCTIONS, user_message),
            30,
            2048,
        )
    }

    /// Step 1 result: reads the intake reply, sets the execution to `Intake`
    /// and records the reply as an Intent Clarifier message.
    pub fn intake_finish(&mut self, execution_id: &str, content: &str) -> (res: (IntakeResult, Vec<PipelineEvent>))
        requires
            !json_span_panics(content@),
        ensures
            res.0@ == intake_of(reply_json(content@)),
            recorded(
                old(self).executions_view(),
                final(self).executions_view(),
                execution_id@,
                in_state(PipelineState::Intake),
                AgentRole::IntentClarifier,
                content@,
            ),
            res.1@.map_values(|ev: PipelineEvent| ev@) == seq![
                PipelineEventView::IntakeCompleted {
                    ambiguity_detected: res.0.ambiguity_detected,
                    repo_scope: res.0.repo_scope@,
                    risk_tier: res.0.risk_tier@,
                    destructive_potential: res.0.destructive_potential,
                },
            ],
            final(self).permissions_view() == old(self).permissions_view(),
            final(self).routing_view() == old(self).routing_view(),
            final(self).router_permissions_view() == old(self).router_permissions_view(),
    {
        let result = parse_intake(content);
        self.record(execution_id, Some(PipelineState::Intake), None, None, AgentRole::IntentClarifier, own(content));
        let mut events: Vec<PipelineEvent> = Vec::new();
        events.push(
            PipelineEvent::IntakeCompleted {
                ambiguity_detected: result.ambiguity_detected,
                repo_scope: result.repo_scope.clone(),
                risk_tier: result.risk_tier.clone(),
                destructive_potential: result.destructive_potential,
            },
        );
        proof {
            let ev = PipelineEventView::IntakeCompleted {
                ambiguity_detected: result.ambiguity_detected,
                repo_scope: result.repo_scope@,
                risk_tier: result.risk_tier@,
                destructive_potential: result.destructive_potential,
            };
            assert(events@.map_values(|ev: PipelineEvent| ev@) =~= seq![ev]);
        }
        (result, events)
    }

    /// Step 2 request: clarification questions. The execution moves to
    /// `Clarifying`.
    pub fn clarify_request(&mut self, execution_id: &str, user_message: &str) -> (res: ChatRequest)
        ensures
            final(self).executions_view() == map_exec(
                old(self).executions_view(),
                execution_id@,
                in_state(PipelineState::Clarifying),
            ),
            res@ == step_request(
                old(self).model_for(TaskType::Chat),
                INTENT_CLARIFIER@,
                CLARIFY_INSTRUCTIONS@ + user_message@,
                30,
                4096,
            ),
            final(self).permissions_view() == old(self).permissions_view(),
            final(self).routing_view() == old(self).routing_view(),
            final(self).router_permissions_view() == old(self).router_permissions_view(),
    {
        let routing = self.router.route(&TaskType::Chat, false, false);
        self.set_state(execution_id, PipelineState::Clarifying, None);
        Self::two_message_request(
            routing.model_id,
            INTENT_CLARIFIER,
            concat(CLARIFY_INSTRUCTIONS, user_message),
            30,
            4096,
        )
    }

    /// Step 2 result: reads the questions and records the reply as an
    /// Intent Clarifier message.
    pub fn clarify_finish(&mut self, execution_id: &str, content: &str) -> (res: (
        Vec<ClarificationQuestion>,
        Vec<PipelineEvent>,
    ))
        requires
            !json_span_panics(content@),
        ensures
            res.0@.map_values(|q: ClarificationQuestion| q@) == questions_of(reply_json(content@)),
            recorded(
                old(self).executions_view(),
                final(self).executions_view(),
                execution_id@,
                unchanged(),
                AgentRole::IntentClarifier,
                content@,
            ),
            res.1@.map_values(|ev: PipelineEvent| ev@) == seq![
                PipelineEventView::ClarificationNeeded {
                    questions: questions_of(reply_json(content@)).map_values(
                        |q: ClarificationQuestionView| event_question(q),
                    ),
                },
            ],
            final(self).permissions_view() == old(self).permissions_view(),
            final(self).routing_view() == old(self).routing_view(),
            final(self).router_permissions_view() == old(self).router_permissions_view(),
    {
        let questions = parse_clarification_questions(content);
        self.record(execution_id, None, None, None, AgentRole::IntentClarifier, own(content));
        let ghost qv = questions@.map_values(|q: ClarificationQuestion| q@);
        let mut event_questions: Vec<ClarificationEventQuestion> = Vec::new();
        let mut i: usize = 0;
        while i < questions.len()
            invariant
                i <= questions@.len(),
                qv == questions@.map_values(|q: ClarificationQuestion| q@),
                event_questions@.len() == i,
                forall|k: int| 0 <= k < i ==> #[trigger] event_questions@[k]@ == event_question(qv[k]),
            decreases questions@.len() - i,
        {
            let q = &questions[i];
            let mut labels: Vec<String> = Vec::new();
            let mut j: usize = 0;
            while j < q.options.len()
                invariant
                    j <= q.options@.len(),
                    labels@.len() == j,
                    forall|k: int| 0 <= k < j ==> #[trigger] labels@[k]@ == q.options@[k].label@,
                decreases q.options@.len() - j,
            {
                labels.push(q.options[j].label.clone());
                j += 1;
            }
            let eq = ClarificationEventQuestion {
                id: q.id.clone(),
                question: q.question.clone(),
                options: labels,
                allow_custom: q.allow_custom,
            };
            proof {
                assert(views(labels@) =~= q@.options.map_values(|o: ClarificationOptionView| o.label));
                assert(eq@ == event_question(qv[i as int]));
            }
            event_questions.push(eq);
            i += 1;
        }
        let mut events: Vec<PipelineEvent> = Vec::new();
        events.push(PipelineEvent::ClarificationNeeded { questions: event_questions });
        proof {
            assert(event_questions@.map_values(|q: ClarificationEventQuestion| q@) =~= qv.map_values(
                |q: ClarificationQuestionView| event_question(q),
            ));
            assert(events@.map_values(|ev: PipelineEvent| ev@) =~= seq![
                PipelineEventView::ClarificationNeeded {
                    questions: qv.map_values(|q: ClarificationQuestionView| event_question(q)),
                },
            ]);
        }
        (questions, events)
    }

    /// Step 3 request: relevant files and architecture. The execution moves
    /// to `GatheringContext`.
    pub fn gather_context_request(&mut self, execution_id: &str, user_message: &str) -> (res:
        ChatRequest)
        ensures
            final(self).executions_view() == map_exec(
                old(self).executions_view(),
                execution_id@,
                in_state(PipelineState::GatheringContext),
            ),
            res@ == step_request(
                old(self).model_for(TaskType::ContextGathering),
                REPO_CARTOGRAPHER@,
                CONTEXT_INSTRUCTIONS@ + user_message@,
                20,
                4096,
            ),
            final(self).permissions_view() == old(self).permissions_view(),
            final(self).routing_view() == old(self).routing_view(),
            final(self).router_permissions_view() == old(self).router_permissions_view(),
    {
        let routing = self.router.route(&TaskType::ContextGathering, false, false);
        self.set_state(execution_id, PipelineState::GatheringContext, None);
        Self::two_message_request(
            routing.model_id,
            REPO_CARTOGRAPHER,
            concat(CONTEXT_INSTRUCTIONS, user_message),
            20,
            4096,
        )
    }

    /// Step 3 result: reads the context and records the reply as a Repo
    /// Cartographer message.
    pub fn gather_context_finish(&mut self, execution_id: &str, content: &str) -> (res: (
        ContextResult,
        Vec<PipelineEvent>,
    ))
        requires
            !json_span_panics(content@),
        ensures
            res.0@ == context_of(reply_json(content@)),
            recorded(
                old(self).executions_view(),
                final(self).executions_view(),
                execution_id@,
                unchanged(),
                AgentRole::RepoCartographer,
                content@,
            ),
            res.1@.map_values(|ev: PipelineEvent| ev@) == seq![
                PipelineEventView::ContextGathered {
                    files: res.0@.files,
                    architecture_notes: res.0@.architecture_notes,
                    probable_change_surface: res.0@.probable_change_surface,
                },
            ],
            final(self).permissions_view() == old(self).permissions_view(),
            final(self).routing_view() == old(self).routing_view(),
            final(self).router_permissions_view() == old(self).router_permissions_view(),
    {
        let result = parse_context(content);
        self.record(execution_id, None, None, None, AgentRole::RepoCartographer, own(content));
        let mut events: Vec<PipelineEvent> = Vec::new();
        events.push(
            PipelineEvent::ContextGathered {
                files: result.files.clone(),
                architecture_notes: result.architecture_notes.clone(),
                probable_change_surface: result.probable_change_surface.clone(),
            },
        );
        proof {
            assert(events@.map_values(|ev: PipelineEvent| ev@) =~= seq![
                PipelineEventView::ContextGathered {
                    files: result@.files,
                    architecture_notes: result@.architecture_notes,
                    probable_change_surface: result@.probable_change_surface,
                },
            ]);
        }
        (result, events)
    }

    /// Step 4 request: the implementation plan. The execution moves to
    /// `Planning`; its recorded messages go along as user messages between
    /// the planner prompt and the request.
    pub fn plan_request(&mut self, execution_id: &str, user_message: &str) -> (res: ChatRequest)
        ensures
            final(self).executions_view() == map_exec(
                old(self).executions_view(),
                execution_id@,
                in_state(PipelineState::Planning),
            ),
            res@ == plan_request_of(
                old(self).model_for(TaskType::CodingPlan),
                match exec_index(final(self).executions_view(), execution_id@) {
                    Some(i) => final(self).executions_view()[i].messages,
                    None => Seq::empty(),
                },
                user_message@,
            ),
            final(self).permissions_view() == old(self).permissions_view(),
            final(self).routing_view() == old(self).routing_view(),
            final(self).router_permissions_view() == old(self).router_permissions_view(),
    {
        let routing = self.router.route(&TaskType::CodingPlan, false, false);
        self.set_state(execution_id, PipelineState::Planning, None);
        let mut history: Vec<ChatMessage> = Vec::new();
        history.push(ChatMessage::text(MessageRole::System, own(PLANNER)));
        let ghost hist = match exec_index(self.executions_view(), execution_id@) {
            Some(i) => self.executions_view()[i].messages,
            None => Seq::<AgentMessageView>::empty(),
        };
        proof {
            lemma_exec_index(self.executions_view(), execution_id@);
        }
        match self.position(execution_id) {
            Some(p) => {
                let msgs = &self.executions[p].messages;
                assert(hist == msgs@.map_values(|m: AgentMessage| m@));
                let mut k: usize = 0;
                while k < msgs.len()
                    invariant
                        k <= msgs@.len(),
                        hist == msgs@.map_values(|m: AgentMessage| m@),
                        history@.map_values(|m: ChatMessage| m@) == seq![
                            text_message(MessageRole::System, PLANNER@),
                        ] + hist.take(k as int).map_values(
                            |m: AgentMessageView| text_message(MessageRole::User, m.content),
                        ),
                    decreases msgs@.len() - k,
                {
                    let ghost before = history@;
                    history.push(ChatMessage::text(MessageRole::User, msgs[k].content.clone()));
                    proof {
                        assert(hist.take(k + 1) == hist.take(k as int).push(hist[k as int]));
                        assert(history@.map_values(|m: ChatMessage| m@) =~= before.map_values(
                            |m: ChatMessage| m@,
                        ).push(text_message(MessageRole::User, hist[k as int].content)));
                    }
                    k += 1;
                }
                assert(hist.take(msgs@.len() as int) == hist);
            },
            None => {
                assert(history@.map_values(|m: ChatMessage| m@) =~= seq![
                    text_message(MessageRole::System, PLANNER@),
                ] + hist.take(0).map_values(
                    |m: AgentMessageView| text_message(MessageRole::User, m.content),
                ));
            },
        }
        let ghost before = history@;
        assert(before.map_values(|m: ChatMessage| m@) =~= seq![
            text_message(MessageRole::System, PLANNER@),
        ] + hist.map_values(|m: AgentMessageView| text_message(MessageRole::User, m.content)));
        history.push(ChatMessage::text(MessageRole::User, concat(PLAN_INSTRUCTIONS, user_message)));
        let res = ChatRequest {
            model: ModelId(routing.model_id),
            messages: history,
            stream: false,
            temperature_centi: Some(20),
            max_tokens: Some(8192),
        };
        proof {
            assert(res@.messages =~= before.map_values(|m: ChatMessage| m@).push(
                text_message(MessageRole::User, PLAN_INSTRUCTIONS@ + user_message@),
            ));
            assert(res@.model == old(self).model_for(TaskType::CodingPlan));
            assert(res@.messages == plan_request_of(old(self).model_for(TaskType::CodingPlan), hist, user_message@).messages);
            assert(hist == match exec_index(self.executions_view(), execution_id@) {
                Some(i) => self.executions_view()[i].messages,
                None => Seq::<AgentMessageView>::empty(),
            });
        }
        res
    }

    /// Step 4 result: reads the plan, sets it as the execution's plan and
    /// records the reply as a Planner message.
    pub fn plan_finish(&mut self, execution_id: &str, content: &str) -> (res: (Plan, Vec<PipelineEvent>))
        requires
            !json_span_panics(content@),
        ensures
            res.0@ == plan_of(reply_json(content@), content@, res.0.id@),
            recorded(
                old(self).executions_view(),
                final(self).executions_view(),
                execution_id@,
                with_plan(res.0.id@),
                AgentRole::Planner,
                content@,
            ),
            res.1@.map_values(|ev: PipelineEvent| ev@) == seq![
                PipelineEventView::PlanCreated {
                    plan_id: res.0.id@,
                    title: res.0.title@,
                    step_count: res.0.steps@.len() as usize,
                },
            ],
            final(self).permissions_view() == old(self).permissions_view(),
            final(self).routing_view() == old(self).routing_view(),
            final(self).router_permissions_view() == old(self).router_permissions_view(),
    {
        let plan = parse_plan(content);
        self.record(execution_id, None, None, Some(plan.id.clone()), AgentRole::Planner, own(content));
        let mut events: Vec<PipelineEvent> = Vec::new();
        events.push(
            PipelineEvent::PlanCreated {
                plan_id: plan.id.clone(),
                title: plan.title.clone(),
                step_count: plan.steps.len(),
            },
        );
        proof {
            assert(events@.map_values(|ev: PipelineEvent| ev@) =~= seq![
                PipelineEventView::PlanCreated {
                    plan_id: plan.id@,
                    title: plan.title@,
                    step_count: plan.steps@.len() as usize,
                },
            ]);
        }
        (plan, events)
    }

    /// Step 5 request: apply a plan step. The execution moves to
    /// `Executing` and `Running`.
    pub fn execute_step_request(&mut self, execution_id: &str, step_description: &str) -> (res:
        ChatRequest)
        ensures
            final(self).executions_view() == map_exec(
                old(self).executions_view(),
                execution_id@,
                in_state_status(PipelineState::Executing, ExecutionStatus::Running),
            ),
            res@ == step_request(
                old(self).model_for(TaskType::CodingPlan),
                IMPLEMENTER@,
                step_description@,
                20,
                8192,
            ),
            final(self).permissions_view() == old(self).permissions_view(),
            final(self).routing_view() == old(self).routing_view(),
            final(self).router_permissions_view() == old(self).router_permissions_view(),
    {
        let routing = self.router.route(&TaskType::CodingPlan, false, false);
        self.set_state(execution_id, PipelineState::Executing, Some(ExecutionStatus::Running));
        Self::two_message_request(routing.model_id, IMPLEMENTER, own(step_description), 20, 8192)
    }

    /// Step 5 result: records the reply as an Implementer message and
    /// returns it.
    pub fn execute_step_finish(
        &mut self,
        execution_id: &str,
        step_description: &str,
        content: String,
    ) -> (res: (String, Vec<PipelineEvent>))
        ensures
            res.0@ == content@,
            recorded(
                old(self).executions_view(),
                final(self).executions_view(),
                execution_id@,
                unchanged(),
                AgentRole::Implementer,
                content@,
            ),
            res.1@.map_values(|ev: PipelineEvent| ev@) == seq![
                PipelineEventView::ExecutionProgress {
                    step_id: "current"@,
                    status: "completed"@,
                    description: step_description@,
                },
            ],
            final(self).permissions_view() == old(self).permissions_view(),
            final(self).routing_view() == old(self).routing_view(),
            final(self).router_permissions_view() == old(self).router_permissions_view(),
    {
        self.record(execution_id, None, None, None, AgentRole::Implementer, content.clone());
        let mut events: Vec<PipelineEvent> = Vec::new();
        events.push(
            PipelineEvent::ExecutionProgress {
                step_id: own("current"),
                status: own("completed"),
                description: own(step_description),
            },
        );
        proof {
            assert(events@.map_values(|ev: PipelineEvent| ev@) =~= seq![
                PipelineEventView::ExecutionProgress {
                    step_id: "current"@,
                    status: "completed"@,
                    description: step_description@,
                },
            ]);
        }
        (content, events)
    }

    /// Step 6 request: review the changes. The execution moves to
    /// `Reviewing`.
    pub fn review_request(&mut self, execution_id: &str, changes: &str) -> (res: ChatRequest)
        ensures
            final(self).executions_view() == map_exec(
                old(self).executions_view(),
                execution_id@,
                in_state(PipelineState::Reviewing),
            ),
            res@ == step_request(
                old(self).model_for(TaskType::Review),
                REVIEWER@,
                REVIEW_INSTRUCTIONS@ + changes@,
                20,
                4096,
            ),
            final(self).permissions_view() == old(self).permissions_view(),
            final(self).routing_view() == old(self).routing_view(),
            final(self).router_permissions_view() == old(self).router_permissions_view(),
    {
        let routing = self.router.route(&TaskType::Review, false, false);
        self.set_state(execution_id, PipelineState::Reviewing, None);
        Self::two_message_request(
            routing.model_id,
            REVIEWER,
            concat(REVIEW_INSTRUCTIONS, changes),
            20,
            4096,
        )
    }

    /// Step 6 result: reads the review and records the reply as a review
    /// message.
    pub fn review_finish(&mut self, execution_id: &str, content: &str) -> (res: (
        ReviewResult,
        Vec<PipelineEvent>,
    ))
        requires
            !json_span_panics(content@),
        ensures
            res.0@ == review_of(reply_json(content@)),
            recorded(
                old(self).executions_view(),
                final(self).executions_view(),
                execution_id@,
                unchanged(),
                AgentRole::Reviewer,
                content@,
            ),
            res.1@.map_values(|ev: PipelineEvent| ev@) == seq![
                PipelineEventView::ReviewCompleted {
                    findings: res.0@.findings.map_values(|f: ReviewFindingParsedView| event_finding(f)),
                    approved: res.0.approved,
                },
            ],
            final(self).permissions_view() == old(self).permissions_view(),
            final(self).routing_view() == old(self).routing_view(),
            final(self).router_permissions_view() == old(self).router_permissions_view(),
    {
        let result = parse_review(content);
        self.record(execution_id, None, None, None, AgentRole::Reviewer, own(content));
        let ghost fv = result@.findings;
        let mut findings: Vec<ReviewFinding> = Vec::new();
        let mut i: usize = 0;
        while i < result.findings.len()
            invariant
                i <= result.findings@.len(),
                fv == result.findings@.map_values(|f: ReviewFindingParsed| f@),
                findings@.len() == i,
                forall|k: int| 0 <= k < i ==> #[trigger] findings@[k]@ == event_finding(fv[k]),
            decreases result.findings@.len() - i,
        {
            let f = &result.findings[i];
            let finding = ReviewFinding {
                severity: severity_from(f.severity.as_str()),
                description: f.description.clone(),
                file: f.file.clone(),
                line: f.line,
            };
            assert(finding@ == event_finding(fv[i as int]));
            findings.push(finding);
            i += 1;
        }
        let approved = result.approved;
        let mut events: Vec<PipelineEvent> = Vec::new();
        events.push(PipelineEvent::ReviewCompleted { findings, approved });
        proof {
            assert(findings@.map_values(|f: ReviewFinding| f@) =~= fv.map_values(
                |f: ReviewFindingParsedView| event_finding(f),
            ));
            assert(events@.map_values(|ev: PipelineEvent| ev@) =~= seq![
                PipelineEventView::ReviewCompleted {
                    findings: fv.map_values(|f: ReviewFindingParsedView| event_finding(f)),
                    approved,
                },
            ]);
        }
        (result, events)
    }

    /// Step 7 request: commit message and summary. The execution moves to
    /// `Summarizing`.
    pub fn summarize_request(&mut self, execution_id: &str, diff: &str) -> (res: ChatRequest)
        ensures
            final(self).executions_view() == map_exec(
                old(self).executions_view(),
                execution_id@,
                in_state(PipelineState::Summarizing),
            ),
            res@ == step_request(
                old(self).model_for(TaskType::Chat),
                GIT_SUMMARIZER@,
                SUMMARY_INSTRUCTIONS@ + diff@,
                30,
                2048,
            ),
            final(self).permissions_view() == old(self).permissions_view(),
            final(self).routing_view() == old(self).routing_view(),
            final(self).router_permissions_view() == old(self).router_permissions_view(),
    {
        let routing = self.router.route(&TaskType::Chat, false, false);
        self.set_state(execution_id, PipelineState::Summarizing, None);
        Self::two_message_request(
            routing.model_id,
            GIT_SUMMARIZER,
            concat(SUMMARY_INSTRUCTIONS, diff),
            30,
            2048,
        )
    }

    /// Step 7 result: reads the summary, completes the execution and records
    /// the reply as a Git Summarizer message.
    pub fn summarize_finish(&mut self, execution_id: &str, content: &str) -> (res: (
        SummaryResult,
        Vec<PipelineEvent>,
    ))
        requires
            !json_span_panics(content@),
        ensures
            (res.0.commit_message@, res.0.change_summary@) == summary_of(
                reply_json(content@),
                content@,
            ),
            recorded(
                old(self).executions_view(),
                final(self).executions_view(),
                execution_id@,
                in_state_status(PipelineState::Completed, ExecutionStatus::Completed),
                AgentRole::GitSummarizer,
                content@,
            ),
            res.1@.map_values(|ev: PipelineEvent| ev@) == seq![
                PipelineEventView::SummaryGenerated {
                    commit_message: res.0.commit_message@,
                    change_summary: res.0.change_summary@,
                },
                PipelineEventView::PipelineCompleted,
            ],
            final(self).permissions_view() == old(self).permissions_view(),
            final(self).routing_view() == old(self).routing_view(),
            final(self).router_permissions_view() == old(self).router_permissions_view(),
    {
        let result = parse_summary(content);
        self.record(
            execution_id,
            Some(PipelineState::Completed),
            Some(ExecutionStatus::Completed),
            None,
            AgentRole::GitSummarizer,
            own(content),
        );
        let mut events: Vec<PipelineEvent> = Vec::new();
        events.push(
            PipelineEvent::SummaryGenerated {
                commit_message: result.commit_message.clone(),
                change_summary: result.change_summary.clone(),
            },
        );
        events.push(PipelineEvent::PipelineCompleted);
        proof {
            assert(events@.map_values(|ev: PipelineEvent| ev@) =~= seq![
                PipelineEventView::SummaryGenerated {
                    commit_message: result.commit_message@,
                    change_summary: result.change_summary@,
                },
                PipelineEventView::PipelineCompleted,
            ]);
        }
        (result, events)
    }
}

/// The plan request: the planner prompt, the execution's recorded messages
/// as user messages, then the instructions with the request.
pub open spec fn plan_request_of(
    model: Seq<char>,
    history: Seq<AgentMessageView>,
    user: Seq<char>,
) -> ChatRequestView {
    ChatRequestView {
        model,
        messages: seq![text_message(MessageRole::System, PLANNER@)] + history.map_values(
            |m: AgentMessageView| text_message(MessageRole::User, m.content),
        ) + seq![text_message(MessageRole::User, PLAN_INSTRUCTIONS@ + user)],
        stream: false,
        temperature_centi: Some(20),
        max_tokens: Some(8192),
    }
}

/// The event severity named by a finding's text.
pub fn severity_from(s: &str) -> (res: FindingSeverity)
    ensures
        res == severity_of(s@),
{
    if str_eq(s, "critical") {
        FindingSeverity::Critical
    } else if str_eq(s, "error") {
        FindingSeverity::Error
    } else if str_eq(s, "warning") {
        FindingSeverity::Warning
    } else {
        FindingSeverity::Info
    }
}


/// Recording a step's reply changes only the execution it names: that
/// execution moves to the step's state, keeps its identifier, plan, status
/// and creation time, and its message log grows by exactly the reply, the
/// earlier messages staying as they were; every other execution is left
/// alone.
pub proof fn law_recording_appends_reply(
    old: Seq<AgentExecutionView>,
    new: Seq<AgentExecutionView>,
    id: Seq<char>,
    state: PipelineState,
    role: AgentRole,
    content: Seq<char>,
    i: int,
)
    requires
        recorded(old, new, id, in_state(state), role, content),
        exec_index(old, id) == Some(i),
    ensures
        new.len() == old.len(),
        forall|j: int| 0 <= j < old.len() && j != i ==> new[j] == old[j],
        new[i].id == id,
        new[i].pipeline_state == state,
        new[i].plan_id == old[i].plan_id,
        new[i].status == old[i].status,
        new[i].created_at == old[i].created_at,
        new[i].messages.len() == old[i].messages.len() + 1,
        new[i].messages.subrange(0, old[i].messages.len() as int) == old[i].messages,
        new[i].messages.last().role == role,
        new[i].messages.last().content == content,
{
    lemma_exec_index(old, id);
    assert(new[i].messages.subrange(0, old[i].messages.len() as int) =~= old[i].messages);
}

/// A reply for an execution that does not exist changes nothing.
pub proof fn law_unknown_execution_untouched(
    old: Seq<AgentExecutionView>,
    new: Seq<AgentExecutionView>,
    id: Seq<char>,
    f: spec_fn(AgentExecutionView) -> AgentExecutionView,
    role: AgentRole,
    content: Seq<char>,
)
    requires
        recorded(old, new, id, f, role, content),
        forall|j: int| 0 <= j < old.len() ==> (#[trigger] old[j]).id != id,
    ensures
        new == old,
{
    lemma_exec_index(old, id);
    if exec_index(old, id) is Some {
        let i = exec_index(old, id)->0;
        assert(old[i].id == id);
    }
}

/// Moving an execution to another state keeps every message log and every
/// other execution as it was.
pub proof fn law_state_change_keeps_logs(
    es: Seq<AgentExecutionView>,
    id: Seq<char>,
    state: PipelineState,
)
    ensures
        map_exec(es, id, in_state(state)).len() == es.len(),
        forall|j: int|
            0 <= j < es.len() ==> (#[trigger] map_exec(es, id, in_state(state))[j]).messages
                == es[j].messages,
        forall|j: int|
            0 <= j < es.len() && es[j].id != id ==> #[trigger] map_exec(es, id, in_state(state))[j]
                == es[j],
{
    lemma_exec_index(es, id);
}


/// Executions with the same identifiers in the same places are found at
/// the same position.
proof fn lemma_exec_index_same_ids(a: Seq<AgentExecutionView>, b: Seq<AgentExecutionView>, id: Seq<char>)
    requires
        a.len() == b.len(),
        forall|j: int| 0 <= j < a.len() ==> (#[trigger] a[j]).id == b[j].id,
    ensures
        exec_index(a, id) == exec_index(b, id),
    decreases a.len(),
{
    if a.len() > 0 {
        let (x, y) = (a.drop_first(), b.drop_first());
        assert forall|j: int| 0 <= j < x.len() implies (#[trigger] x[j]).id == y[j].id by {
            assert(x[j] == a[j + 1] && y[j] == b[j + 1]);
        }
        lemma_exec_index_same_ids(x, y, id);
        assert(a[0].id == b[0].id);
    }
}

/// One recorded reply, seen from the execution it names.
proof fn lemma_recorded_step(
    old: Seq<AgentExecutionView>,
    new: Seq<AgentExecutionView>,
    id: Seq<char>,
    f: spec_fn(AgentExecutionView) -> AgentExecutionView,
    role: AgentRole,
    content: Seq<char>,
    i: int,
)
    requires
        exec_index(old, id) == Some(i),
        recorded(old, new, id, f, role, content),
        f(old[i]).id == old[i].id,
    ensures
        new.len() == old.len(),
        forall|j: int| 0 <= j < old.len() && j != i ==> new[j] == old[j],
        exec_index(new, id) == Some(i),
        new[i].messages == f(old[i]).messages.push(
            message(role, content, new[i].messages.last().timestamp),
        ),
        new[i].pipeline_state == f(old[i]).pipeline_state,
        new[i].status == f(old[i]).status,
        new[i].plan_id == f(old[i]).plan_id,
        new[i].id == old[i].id,
{
    lemma_exec_index(old, id);
    lemma_exec_index_same_ids(old, new, id);
}

/// One change of state, seen from the execution it names.
proof fn lemma_moved_step(
    old: Seq<AgentExecutionView>,
    id: Seq<char>,
    f: spec_fn(AgentExecutionView) -> AgentExecutionView,
    i: int,
)
    requires
        exec_index(old, id) == Some(i),
        f(old[i]).id == old[i].id,
    ensures
        map_exec(old, id, f).len() == old.len(),
        forall|j: int| 0 <= j < old.len() && j != i ==> map_exec(old, id, f)[j] == old[j],
        map_exec(old, id, f)[i] == f(old[i]),
        exec_index(map_exec(old, id, f), id) == Some(i),
{
    lemma_exec_index(old, id);
    lemma_exec_index_same_ids(old, map_exec(old, id, f), id);
}

/// A full run of the seven steps on one execution, from a fresh record:
/// intake, clarification, context, plan, one executed step, review and
/// summary, each request moving the execution to its step and each reply
/// recorded. The run ends `Completed` with the plan attached and exactly the
/// seven replies logged, in order, under the roles that gave them; every
/// other execution is as it was.
pub proof fn law_full_run(
    s: Seq<Seq<AgentExecutionView>>,
    id: Seq<char>,
    i: int,
    replies: Seq<Seq<char>>,
    plan_id: Seq<char>,
)
    requires
        s.len() == 14,
        replies.len() == 7,
        exec_index(s[0], id) == Some(i),
        s[0][i].pipeline_state == PipelineState::Intake,
        s[0][i].messages.len() == 0,
        recorded(s[0], s[1], id, in_state(PipelineState::Intake), AgentRole::IntentClarifier, replies[0]),
        s[2] == map_exec(s[1], id, in_state(PipelineState::Clarifying)),
        recorded(s[2], s[3], id, unchanged(), AgentRole::IntentClarifier, replies[1]),
        s[4] == map_exec(s[3], id, in_state(PipelineState::GatheringContext)),
        recorded(s[4], s[5], id, unchanged(), AgentRole::RepoCartographer, replies[2]),
        s[6] == map_exec(s[5], id, in_state(PipelineState::Planning)),
        recorded(s[6], s[7], id, with_plan(plan_id), AgentRole::Planner, replies[3]),
        s[8] == map_exec(
            s[7],
            id,
            in_state_status(PipelineState::Executing, ExecutionStatus::Running),
        ),
        recorded(s[8], s[9], id, unchanged(), AgentRole::Implementer, replies[4]),
        s[10] == map_exec(s[9], id, in_state(PipelineState::Reviewing)),
        recorded(s[10], s[11], id, unchanged(), AgentRole::Reviewer, replies[5]),
        s[12] == map_exec(s[11], id, in_state(PipelineState::Summarizing)),
        recorded(
            s[12],
            s[13],
            id,
            in_state_status(PipelineState::Completed, ExecutionStatus::Completed),
            AgentRole::GitSummarizer,
            replies[6],
        ),
    ensures
        s[13].len() == s[0].len(),
        forall|j: int| 0 <= j < s[0].len() && j != i ==> s[13][j] == s[0][j],
        s[13][i].id == id,
        s[13][i].pipeline_state == PipelineState::Completed,
        s[13][i].status == ExecutionStatus::Completed,
        s[13][i].plan_id == Some(plan_id),
        s[13][i].messages.len() == 7,
        forall|k: int| 0 <= k < 7 ==> (#[trigger] s[13][i].messages[k]).content == replies[k],
        s[13][i].messages.map_values(|m: AgentMessageView| m.role) == seq![
            AgentRole::IntentClarifier,
            AgentRole::IntentClarifier,
            AgentRole::RepoCartographer,
            AgentRole::Planner,
            AgentRole::Implementer,
            AgentRole::Reviewer,
            AgentRole::GitSummarizer,
        ],
{
    lemma_exec_index(s[0], id);
    lemma_recorded_step(s[0], s[1], id, in_state(PipelineState::Intake), AgentRole::IntentClarifier, replies[0], i);
    lemma_moved_step(s[1], id, in_state(PipelineState::Clarifying), i);
    lemma_recorded_step(s[2], s[3], id, unchanged(), AgentRole::IntentClarifier, replies[1], i);
    lemma_moved_step(s[3], id, in_state(PipelineState::GatheringContext), i);
    lemma_recorded_step(s[4], s[5], id, unchanged(), AgentRole::RepoCartographer, replies[2], i);
    lemma_moved_step(s[5], id, in_state(PipelineState::Planning), i);
    lemma_recorded_step(s[6], s[7], id, with_plan(plan_id), AgentRole::Planner, replies[3], i);
    lemma_moved_step(s[7], id, in_state_status(PipelineState::Executing, ExecutionStatus::Running), i);
    lemma_recorded_step(s[8], s[9], id, unchanged(), AgentRole::Implementer, replies[4], i);
    lemma_moved_step(s[9], id, in_state(PipelineState::Reviewing), i);
    lemma_recorded_step(s[10], s[11], id, unchanged(), AgentRole::Reviewer, replies[5], i);
    lemma_moved_step(s[11], id, in_state(PipelineState::Summarizing), i);
    lemma_recorded_step(
        s[12],
        s[13],
        id,
        in_state_status(PipelineState::Completed, ExecutionStatus::Completed),
        AgentRole::GitSummarizer,
        replies[6],
        i,
    );
    let ms = s[13][i].messages;
    assert(ms.len() == 7);
    assert forall|k: int| 0 <= k < 7 implies (#[trigger] ms[k]).content == replies[k] by {
        assert(s[13][i].messages == s[12][i].messages.push(ms.last()));
    }
    assert(ms.map_values(|m: AgentMessageView| m.role) =~= seq![
        AgentRole::IntentClarifier,
        AgentRole::IntentClarifier,
        AgentRole::RepoCartographer,
        AgentRole::Planner,
        AgentRole::Implementer,
        AgentRole::Reviewer,
        AgentRole::GitSummarizer,
    ]);
}


/// The review's verdict is taken as given: when the reply's JSON has a
/// boolean `approved`, the review's approval is exactly that boolean,
/// whatever findings come with it, and there is one finding per item of a
/// `findings` array.
pub proof fn law_review_verdict(v: JsonValue, approved: bool)
    requires
        json_get(v, "approved"@) == Some(JsonValue::Bool(approved)),
    ensures
        review_of(Some(v)).approved == approved,
        json_get(v, "findings"@) matches Some(JsonValue::Array(items)) ==> review_of(Some(v)).findings.len()
            == items@.len(),
{
}

/// Without a boolean verdict the changes count as approved: when the
/// `approved` member is missing or not a boolean, or the reply holds no
/// JSON at all, whatever findings there are.
pub proof fn law_review_approved_without_verdict(j: Option<JsonValue>)
    requires
        !(j matches Some(v) && json_get(v, "approved"@) matches Some(JsonValue::Bool(_))),
    ensures
        review_of(j).approved,
{
}

} // verus!
