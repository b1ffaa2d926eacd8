//! Agent roles, plans, clarification questions and execution records, with
//! the decoding of plans and questions from JSON the way their derived
//! deserializers read a `serde_json::Value`.

use vstd::prelude::*;
use crate::json::{JsonValue, entries_get, json_str, json_bool, json_strings};
use crate::text::{views, str_eq};

verus! {

/// The eight agent roles of the pipeline.
#[derive(Debug, Clone, Copy, PartialEq, Eq, Structural)]
pub enum AgentRole {
    IntentClarifier,
    Planner,
    RepoCartographer,
    ToolRouter,
    Implementer,
    Reviewer,
    UiBrowser,
    GitSummarizer,
}

/// A message recorded in an execution.
#[derive(Debug)]
pub struct AgentMessage {
    pub role: AgentRole,
    pub content: String,
    pub timestamp: String,
    pub metadata: Option<JsonValue>,
}

/// Abstract view of an [`AgentMessage`].
pub struct AgentMessageView {
    pub role: AgentRole,
    pub content: Seq<char>,
    pub timestamp: Seq<char>,
    pub metadata: Option<JsonValue>,
}

impl View for AgentMessage {
    type V = AgentMessageView;

    open spec fn view(&self) -> AgentMessageView {
        AgentMessageView {
            role: self.role,
            content: self.content@,
            timestamp: self.timestamp@,
            metadata: self.metadata,
        }
    }
}

/// Status of a plan step.
#[derive(Debug, Clone, Copy, PartialEq, Eq, Structural)]
pub enum StepStatus {
    Pending,
    InProgress,
    Completed,
    Failed,
    Skipped,
}

/// One option of a clarification question.
#[derive(Debug, Clone)]
pub struct ClarificationOption {
    pub label: String,
    pub value: String,
    pub description: Option<String>,
}

pub struct ClarificationOptionView {
    pub label: Seq<char>,
    pub value: Seq<char>,
    pub description: Option<Seq<char>>,
}

pub open spec fn opt_view(o: Option<String>) -> Option<Seq<char>> {
    match o {
        Some(s) => Some(s@),
        None => None,
    }
}

impl View for ClarificationOption {
    type V = ClarificationOptionView;

    open spec fn view(&self) -> ClarificationOptionView {
        ClarificationOptionView {
            label: self.label@,
            value: self.value@,
            description: opt_view(self.description),
        }
    }
}

/// A question the clarifier asks before work starts.
#[derive(Debug, Clone)]
pub struct ClarificationQuestion {
    pub id: String,
    pub question: String,
    pub options: Vec<ClarificationOption>,
    pub allow_custom: bool,
    pub context: Option<String>,
}

pub struct ClarificationQuestionView {
    pub id: Seq<char>,
    pub question: Seq<char>,
    pub options: Seq<ClarificationOptionView>,
    pub allow_custom: bool,
    pub context: Option<Seq<char>>,
}

impl View for ClarificationQuestion {
    type V = ClarificationQuestionView;

    open spec fn view(&self) -> ClarificationQuestionView {
        ClarificationQuestionView {
            id: self.id@,
            question: self.question@,
            options: self.options@.map_values(|o: ClarificationOption| o@),
            allow_custom: self.allow_custom,
            context: opt_view(self.context),
        }
    }
}

/// The user's answer to a clarification question.
#[derive(Debug, Clone)]
pub struct ClarificationResponse {
    pub question_id: String,
    pub selected: Vec<String>,
    pub custom: Option<String>,
}

/// One step of a plan.
#[derive(Debug, Clone)]
pub struct PlanStep {
    pub id: String,
    pub description: String,
    pub files: Vec<String>,
    pub status: StepStatus,
}

pub struct PlanStepView {
    pub id: Seq<char>,
    pub description: Seq<char>,
    pub files: Seq<Seq<char>>,
    pub status: StepStatus,
}

impl View for PlanStep {
    type V = PlanStepView;

    open spec fn view(&self) -> PlanStepView {
        PlanStepView {
            id: self.id@,
            description: self.description@,
            files: views(self.files@),
            status: self.status,
        }
    }
}

/// An implementation plan.
#[derive(Debug, Clone)]
pub struct Plan {
    pub id: String,
    pub title: String,
    pub steps: Vec<PlanStep>,
    pub assumptions: Vec<String>,
    pub questions: Vec<ClarificationQuestion>,
}

pub struct PlanView {
    pub id: Seq<char>,
    pub title: Seq<char>,
    pub steps: Seq<PlanStepView>,
    pub assumptions: Seq<Seq<char>>,
    pub questions: Seq<ClarificationQuestionView>,
}

impl View for Plan {
    type V = PlanView;

    open spec fn view(&self) -> PlanView {
        PlanView {
            id: self.id@,
            title: self.title@,
            steps: self.steps@.map_values(|s: PlanStep| s@),
            assumptions: views(self.assumptions@),
            questions: self.questions@.map_values(|q: ClarificationQuestion| q@),
        }
    }
}

/// The seven pipeline steps and the three end states.
#[derive(Debug, Clone, Copy, PartialEq, Eq, Structural)]
pub enum PipelineState {
    Intake,
    Clarifying,
    GatheringContext,
    Planning,
    Executing,
    Reviewing,
    Summarizing,
    Completed,
    Failed,
    Cancelled,
}

/// Run status of an execution.
#[derive(Debug, Clone, Copy, PartialEq, Eq, Structural)]
pub enum ExecutionStatus {
    Idle,
    Running,
    Paused,
    Completed,
    Failed,
    Cancelled,
}

/// The record of one run of the pipeline.
#[derive(Debug)]
pub struct AgentExecution {
    pub id: String,
    pub plan_id: Option<String>,
    pub pipeline_state: PipelineState,
    pub messages: Vec<AgentMessage>,
    pub status: ExecutionStatus,
    pub created_at: String,
}

pub struct AgentExecutionView {
    pub id: Seq<char>,
    pub plan_id: Option<Seq<char>>,
    pub pipeline_state: PipelineState,
    pub messages: Seq<AgentMessageView>,
    pub status: ExecutionStatus,
    pub created_at: Seq<char>,
}

impl View for AgentExecution {
    type V = AgentExecutionView;

    open spec fn view(&self) -> AgentExecutionView {
        AgentExecutionView {
            id: self.id@,
            plan_id: opt_view(self.plan_id),
            pipeline_state: self.pipeline_state,
            messages: self.messages@.map_values(|m: AgentMessage| m@),
            status: self.status,
            created_at: self.created_at@,
        }
    }
}

// ---------------------------------------------------------------------
// Decoding from JSON, as the derived deserializers read a JSON value: a
// struct is an object (fields by name, unknown members ignored, a missing
// `Option` field is `None`) or an array holding exactly its fields in
// order; a unit enum variant is its name as a string, or an object with
// that name as its only key and `null` as its value.
// ---------------------------------------------------------------------

/// The value is an object, or an array of exactly `count` items.
pub open spec fn struct_shape(v: JsonValue, count: nat) -> bool {
    match v {
        JsonValue::Object(_) => true,
        JsonValue::Array(items) => items@.len() == count,
        _ => false,
    }
}

/// Field `name` (position `pos` of `count`) of a struct-shaped value.
pub open spec fn struct_field(v: JsonValue, name: Seq<char>, pos: int, count: nat) -> Option<
    JsonValue,
> {
    match v {
        JsonValue::Object(es) => entries_get(es@, name),
        JsonValue::Array(items) => if items@.len() == count && 0 <= pos < count {
            Some(items@[pos])
        } else {
            None
        },
        _ => None,
    }
}

/// An `Option<String>` field: absent or `null` is `None`, a string is
/// `Some`, anything else fails.
pub open spec fn dec_opt_text(f: Option<JsonValue>) -> Option<Option<Seq<char>>> {
    match f {
        None => Some(None),
        Some(JsonValue::Null) => Some(None),
        Some(JsonValue::Str(s)) => Some(Some(s@)),
        _ => None,
    }
}

/// A `Vec<String>` field.
pub open spec fn dec_texts(f: Option<JsonValue>) -> Option<Seq<Seq<char>>> {
    match f {
        Some(v) => json_strings(v),
        None => None,
    }
}

/// All items decoded, or `None` when one fails.
pub open spec fn collect_all<A>(s: Seq<Option<A>>) -> Option<Seq<A>> {
    if forall|i: int| 0 <= i < s.len() ==> #[trigger] s[i] is Some {
        Some(s.map_values(|o: Option<A>| o.unwrap()))
    } else {
        None
    }
}

pub open spec fn dec_option(v: JsonValue) -> Option<ClarificationOptionView> {
    let label = json_str(struct_field(v, "label"@, 0, 3));
    let value = json_str(struct_field(v, "value"@, 1, 3));
    let description = dec_opt_text(struct_field(v, "description"@, 2, 3));
    if struct_shape(v, 3) && label is Some && value is Some && description is Some {
        Some(
            ClarificationOptionView {
                label: label.unwrap(),
                value: value.unwrap(),
                description: description.unwrap(),
            },
        )
    } else {
        None
    }
}

pub open spec fn dec_options(f: Option<JsonValue>) -> Option<Seq<ClarificationOptionView>> {
    match f {
        Some(JsonValue::Array(items)) => collect_all(items@.map_values(|x: JsonValue| dec_option(x))),
        _ => None,
    }
}

pub open spec fn dec_question(v: JsonValue) -> Option<ClarificationQuestionView> {
    let id = json_str(struct_field(v, "id"@, 0, 5));
    let question = json_str(struct_field(v, "question"@, 1, 5));
    let options = dec_options(struct_field(v, "options"@, 2, 5));
    let allow_custom = json_bool(struct_field(v, "allow_custom"@, 3, 5));
    let context = dec_opt_text(struct_field(v, "context"@, 4, 5));
    if struct_shape(v, 5) && id is Some && question is Some && options is Some && allow_custom is Some
        && context is Some {
        Some(
            ClarificationQuestionView {
                id: id.unwrap(),
                question: question.unwrap(),
                options: options.unwrap(),
                allow_custom: allow_custom.unwrap(),
                context: context.unwrap(),
            },
        )
    } else {
        None
    }
}

/// `from_value::<Vec<ClarificationQuestion>>` of an optional value.
pub open spec fn dec_questions(f: Option<JsonValue>) -> Option<Seq<ClarificationQuestionView>> {
    match f {
        Some(JsonValue::Array(items)) => collect_all(
            items@.map_values(|x: JsonValue| dec_question(x)),
        ),
        _ => None,
    }
}

/// The step status named `n`.
pub open spec fn status_named(n: Seq<char>) -> Option<StepStatus> {
    if n == "Pending"@ {
        Some(StepStatus::Pending)
    } else if n == "InProgress"@ {
        Some(StepStatus::InProgress)
    } else if n == "Completed"@ {
        Some(StepStatus::Completed)
    } else if n == "Failed"@ {
        Some(StepStatus::Failed)
    } else if n == "Skipped"@ {
        Some(StepStatus::Skipped)
    } else {
        None
    }
}

pub open spec fn dec_status(f: Option<JsonValue>) -> Option<StepStatus> {
    match f {
        Some(JsonValue::Str(s)) => status_named(s@),
        Some(JsonValue::Object(es)) => if es@.len() == 1 && es@[0].1 is Null {
            status_named(es@[0].0@)
        } else {
            None
        },
        _ => None,
    }
}

pub open spec fn dec_step(v: JsonValue) -> Option<PlanStepView> {
    let id = json_str(struct_field(v, "id"@, 0, 4));
    let description = json_str(struct_field(v, "description"@, 1, 4));
    let files = dec_texts(struct_field(v, "files"@, 2, 4));
    let status = dec_status(struct_field(v, "status"@, 3, 4));
    if struct_shape(v, 4) && id is Some && description is Some && files is Some && status is Some {
        Some(
            PlanStepView {
                id: id.unwrap(),
                description: description.unwrap(),
                files: files.unwrap(),
                status: status.unwrap(),
            },
        )
    } else {
        None
    }
}

pub open spec fn dec_steps(f: Option<JsonValue>) -> Option<Seq<PlanStepView>> {
    match f {
        Some(JsonValue::Array(items)) => collect_all(items@.map_values(|x: JsonValue| dec_step(x))),
        _ => None,
    }
}

/// `from_value::<Plan>` of a value.
pub open spec fn dec_plan(v: JsonValue) -> Option<PlanView> {
    let id = json_str(struct_field(v, "id"@, 0, 5));
    let title = json_str(struct_field(v, "title"@, 1, 5));
    let steps = dec_steps(struct_field(v, "steps"@, 2, 5));
    let assumptions = dec_texts(struct_field(v, "assumptions"@, 3, 5));
    let questions = dec_questions(struct_field(v, "questions"@, 4, 5));
    if struct_shape(v, 5) && id is Some && title is Some && steps is Some && assumptions is Some
        && questions is Some {
        Some(
            PlanView {
                id: id.unwrap(),
                title: title.unwrap(),
                steps: steps.unwrap(),
                assumptions: assumptions.unwrap(),
                questions: questions.unwrap(),
            },
        )
    } else {
        None
    }
}

fn struct_shape_of(v: &JsonValue, count: usize) -> (res: bool)
    ensures
        res == struct_shape(*v, count as nat),
{
    match v {
        JsonValue::Object(_) => true,
        JsonValue::Array(items) => items.len() == count,
        _ => false,
    }
}

fn struct_field_of<'a>(v: &'a JsonValue, name: &str, pos: usize, count: usize) -> (res: Option<
    &'a JsonValue,
>)
    ensures
        match res {
            Some(r) => struct_field(*v, name@, pos as int, count as nat) == Some(*r),
            None => struct_field(*v, name@, pos as int, count as nat) is None,
        },
{
    match v {
        JsonValue::Object(_) => v.get(name),
        JsonValue::Array(items) => {
            if items.len() == count && pos < count {
                Some(&items[pos])
            } else {
                None
            }
        },
        _ => None,
    }
}

fn dec_text_of(f: Option<&JsonValue>) -> (res: Option<String>)
    ensures
        match res {
            Some(s) => json_str(match f {
                Some(r) => Some(*r),
                None => None,
            }) == Some(s@),
            None => json_str(match f {
                Some(r) => Some(*r),
                None => None,
            }) is None,
        },
{
    match f {
        Some(x) => x.as_text(),
        None => None,
    }
}

fn dec_bool_of(f: Option<&JsonValue>) -> (res: Option<bool>)
    ensures
        res == json_bool(match f {
            Some(r) => Some(*r),
            None => None,
        }),
{
    match f {
        Some(x) => x.as_bool(),
        None => None,
    }
}

fn dec_opt_text_of(f: Option<&JsonValue>) -> (res: Option<Option<String>>)
    ensures
        match res {
            Some(o) => dec_opt_text(match f {
                Some(r) => Some(*r),
                None => None,
            }) == Some(opt_view(o)),
            None => dec_opt_text(match f {
                Some(r) => Some(*r),
                None => None,
            }) is None,
        },
{
    match f {
        None => Some(None),
        Some(JsonValue::Null) => Some(None),
        Some(JsonValue::Str(s)) => Some(Some(s.clone())),
        _ => None,
    }
}

fn dec_texts_of(f: Option<&JsonValue>) -> (res: Option<Vec<String>>)
    ensures
        match res {
            Some(v) => dec_texts(match f {
                Some(r) => Some(*r),
                None => None,
            }) == Some(views(v@)),
            None => dec_texts(match f {
                Some(r) => Some(*r),
                None => None,
            }) is None,
        },
{
    match f {
        Some(x) => x.as_strings(),
        None => None,
    }
}

impl ClarificationOption {
    /// Decodes an option from a JSON value.
    pub fn from_json(v: &JsonValue) -> (res: Option<ClarificationOption>)
        ensures
            match res {
                Some(o) => dec_option(*v) == Some(o@),
                None => dec_option(*v) is None,
            },
    {
        if !struct_shape_of(v, 3) {
            return None;
        }
        let label = dec_text_of(struct_field_of(v, "label", 0, 3));
        let value = dec_text_of(struct_field_of(v, "value", 1, 3));
        let description = dec_opt_text_of(struct_field_of(v, "description", 2, 3));
        match (label, value, description) {
            (Some(label), Some(value), Some(description)) => Some(
                ClarificationOption { label, value, description },
            ),
            _ => None,
        }
    }
}

impl ClarificationQuestion {
    /// Decodes a question from a JSON value.
    pub fn from_json(v: &JsonValue) -> (res: Option<ClarificationQuestion>)
        ensures
            match res {
                Some(q) => dec_question(*v) == Some(q@),
                None => dec_question(*v) is None,
            },
    {
        if !struct_shape_of(v, 5) {
            return None;
        }
        let id = dec_text_of(struct_field_of(v, "id", 0, 5));
        let question = dec_text_of(struct_field_of(v, "question", 1, 5));
        let options = decode_options(struct_field_of(v, "options", 2, 5));
        let allow_custom = dec_bool_of(struct_field_of(v, "allow_custom", 3, 5));
        let context = dec_opt_text_of(struct_field_of(v, "context", 4, 5));
        match (id, question, options, allow_custom, context) {
            (Some(id), Some(question), Some(options), Some(allow_custom), Some(context)) => Some(
                ClarificationQuestion { id, question, options, allow_custom, context },
            ),
            _ => None,
        }
    }
}

fn decode_options(f: Option<&JsonValue>) -> (res: Option<Vec<ClarificationOption>>)
    ensures
        match res {
            Some(v) => dec_options(match f {
                Some(r) => Some(*r),
                None => None,
            }) == Some(v@.map_values(|o: ClarificationOption| o@)),
            None => dec_options(match f {
                Some(r) => Some(*r),
                None => None,
            }) is None,
        },
{
    match f {
        Some(JsonValue::Array(items)) => {
            let ghost decoded = items@.map_values(|x: JsonValue| dec_option(x));
            let mut out: Vec<ClarificationOption> = Vec::new();
            let mut i: usize = 0;
            while i < items.len()
                invariant
                    i <= items@.len(),
                    decoded == items@.map_values(|x: JsonValue| dec_option(x)),
                    match f {
                        Some(r) => *r == JsonValue::Array(*items),
                        None => false,
                    },
                    out@.len() == i,
                    forall|k: int| 0 <= k < i ==> #[trigger] decoded[k] == Some(out@[k]@),
                decreases items@.len() - i,
            {
                match ClarificationOption::from_json(&items[i]) {
                    Some(o) => out.push(o),
                    None => {
                        assert(decoded[i as int] is None);
                        assert(!(forall|k: int| 0 <= k < decoded.len() ==> #[trigger] decoded[k] is Some));
                        return None;
                    },
                }
                i += 1;
            }
            assert(decoded.map_values(|o: Option<ClarificationOptionView>| o.unwrap())
                =~= out@.map_values(|o: ClarificationOption| o@));
            Some(out)
        },
        _ => None,
    }
}

/// Decodes a list of questions (`from_value::<Vec<ClarificationQuestion>>`).
pub fn decode_questions(f: Option<&JsonValue>) -> (res: Option<Vec<ClarificationQuestion>>)
    ensures
        match res {
            Some(v) => dec_questions(match f {
                Some(r) => Some(*r),
                None => None,
            }) == Some(v@.map_values(|q: ClarificationQuestion| q@)),
            None => dec_questions(match f {
                Some(r) => Some(*r),
                None => None,
            }) is None,
        },
{
    match f {
        Some(JsonValue::Array(items)) => {
            let ghost decoded = items@.map_values(|x: JsonValue| dec_question(x));
            let mut out: Vec<ClarificationQuestion> = Vec::new();
            let mut i: usize = 0;
            while i < items.len()
                invariant
                    i <= items@.len(),
                    decoded == items@.map_values(|x: JsonValue| dec_question(x)),
                    match f {
                        Some(r) => *r == JsonValue::Array(*items),
                        None => false,
                    },
                    out@.len() == i,
                    forall|k: int| 0 <= k < i ==> #[trigger] decoded[k] == Some(out@[k]@),
                decreases items@.len() - i,
            {
                match ClarificationQuestion::from_json(&items[i]) {
                    Some(q) => out.push(q),
                    None => {
                        assert(decoded[i as int] is None);
                        assert(!(forall|k: int| 0 <= k < decoded.len() ==> #[trigger] decoded[k] is Some));
                        return None;
                    },
                }
                i += 1;
            }
            assert(decoded.map_values(|o: Option<ClarificationQuestionView>| o.unwrap())
                =~= out@.map_values(|q: ClarificationQuestion| q@));
            Some(out)
        },
        _ => None,
    }
}

fn status_named_of(n: &str) -> (res: Option<StepStatus>)
    ensures
        res == status_named(n@),
{
    if str_eq(n, "Pending") {
        Some(StepStatus::Pending)
    } else if str_eq(n, "InProgress") {
        Some(StepStatus::InProgress)
    } else if str_eq(n, "Completed") {
        Some(StepStatus::Completed)
    } else if str_eq(n, "Failed") {
        Some(StepStatus::Failed)
    } else if str_eq(n, "Skipped") {
        Some(StepStatus::Skipped)
    } else {
        None
    }
}

fn dec_status_of(f: Option<&JsonValue>) -> (res: Option<StepStatus>)
    ensures
        res == dec_status(match f {
            Some(r) => Some(*r),
            None => None,
        }),
{
    match f {
        Some(JsonValue::Str(s)) => status_named_of(s.as_str()),
        Some(JsonValue::Object(es)) => {
            if es.len() == 1 {
                match &es[0].1 {
                    JsonValue::Null => status_named_of(es[0].0.as_str()),
                    _ => None,
                }
            } else {
                None
            }
        },
        _ => None,
    }
}

impl PlanStep {
    /// Decodes a plan step from a JSON value.
    pub fn from_json(v: &JsonValue) -> (res: Option<PlanStep>)
        ensures
            match res {
                Some(s) => dec_step(*v) == Some(s@),
                None => dec_step(*v) is None,
            },
    {
        if !struct_shape_of(v, 4) {
            return None;
        }
        let id = dec_text_of(struct_field_of(v, "id", 0, 4));
        let description = dec_text_of(struct_field_of(v, "description", 1, 4));
        let files = dec_texts_of(struct_field_of(v, "files", 2, 4));
        let status = dec_status_of(struct_field_of(v, "status", 3, 4));
        match (id, description, files, status) {
            (Some(id), Some(description), Some(files), Some(status)) => Some(
                PlanStep { id, description, files, status },
            ),
            _ => None,
        }
    }
}

fn decode_steps(f: Option<&JsonValue>) -> (res: Option<Vec<PlanStep>>)
    ensures
        match res {
            Some(v) => dec_steps(match f {
                Some(r) => Some(*r),
                None => None,
            }) == Some(v@.map_values(|s: PlanStep| s@)),
            None => dec_steps(match f {
                Some(r) => Some(*r),
                None => None,
            }) is None,
        },
{
    match f {
        Some(JsonValue::Array(items)) => {
            let ghost decoded = items@.map_values(|x: JsonValue| dec_step(x));
            let mut out: Vec<PlanStep> = Vec::new();
            let mut i: usize = 0;
            while i < items.len()
                invariant
                    i <= items@.len(),
                    decoded == items@.map_values(|x: JsonValue| dec_step(x)),
                    match f {
                        Some(r) => *r == JsonValue::Array(*items),
                        None => false,
                    },
                    out@.len() == i,
                    forall|k: int| 0 <= k < i ==> #[trigger] decoded[k] == Some(out@[k]@),
                decreases items@.len() - i,
            {
                match PlanStep::from_json(&items[i]) {
                    Some(s) => out.push(s),
                    None => {
                        assert(decoded[i as int] is None);
                        assert(!(forall|k: int| 0 <= k < decoded.len() ==> #[trigger] decoded[k] is Some));
                        return None;
                    },
                }
                i += 1;
            }
            assert(decoded.map_values(|o: Option<PlanStepView>| o.unwrap()) =~= out@.map_values(
                |s: PlanStep| s@,
            ));
            Some(out)
        },
        _ => None,
    }
}

impl Plan {
    /// Decodes a plan from a JSON value (`from_value::<Plan>`).
    pub fn from_json(v: &JsonValue) -> (res: Option<Plan>)
        ensures
            match res {
                Some(p) => dec_plan(*v) == Some(p@),
                None => dec_plan(*v) is None,
            },
    {
        if !struct_shape_of(v, 5) {
            return None;
        }
        let id = dec_text_of(struct_field_of(v, "id", 0, 5));
        let title = dec_text_of(struct_field_of(v, "title", 1, 5));
        let steps = decode_steps(struct_field_of(v, "steps", 2, 5));
        let assumptions = dec_texts_of(struct_field_of(v, "assumptions", 3, 5));
        let questions = decode_questions(struct_field_of(v, "questions", 4, 5));
        match (id, title, steps, assumptions, questions) {
            (Some(id), Some(title), Some(steps), Some(assumptions), Some(questions)) => Some(
                Plan { id, title, steps, assumptions, questions },
            ),
            _ => None,
        }
    }
}

} // verus!
