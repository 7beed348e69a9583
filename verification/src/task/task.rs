//! Task definition and state management.

use vstd::prelude::*;

use crate::amount::{Amount, AmountView};
use crate::clock::{new_id, now_micros};
use crate::text::{copy_strings, debug_quoted, quoted_debug_text, texts};
use crate::text_map::TextMap;

verus! {

/// Types of tasks Karta can handle.
#[derive(Debug, Clone, PartialEq)]
pub enum TaskType {
    /// Book an appointment
    BookAppointment,
    /// Complete a rental agreement
    RentalAgreement,
    /// Make a reservation
    Reservation,
    /// Negotiate a bill or dispute
    Negotiation,
    /// General inquiry
    Inquiry,
    /// Follow-up on a previous task
    FollowUp,
    /// Custom task type
    Custom(String),
}

/// The target of a task.
#[derive(Debug, Clone)]
pub struct TaskTarget {
    /// Name of the business/person
    pub name: String,
    /// Phone number to call
    pub phone: Option<String>,
    /// Additional context about the target
    pub context: Option<String>,
}

/// Current state of the task.
#[derive(Debug, Clone, PartialEq)]
pub enum TaskState {
    /// Task is created but not started
    Pending,
    /// Gathering information before the call
    Preparing,
    /// Currently executing (on a call)
    InProgress,
    /// Waiting for principal input
    WaitingForInput,
    /// Call ended, processing results
    Processing,
    /// Task completed successfully
    Completed,
    /// Task failed
    Failed(String),
    /// Task was cancelled
    Cancelled,
}

/// Task-specific context and parameters.
#[derive(Debug, Clone)]
pub struct TaskContext {
    /// The goal - what does success look like?
    pub goal: Option<String>,
    /// Information relevant to the task
    pub info: TextMap,
    /// What's negotiable
    pub flexible: Vec<String>,
    /// What's fixed/non-negotiable
    pub firm: Vec<String>,
    /// Notes about the relationship
    pub relationship_context: Option<String>,
    /// Reference to a previous task (for follow-ups)
    pub previous_task_id: Option<u128>,
}

/// Task-specific boundaries (override principal defaults).
#[derive(Debug, Clone)]
pub struct TaskBoundaries {
    /// Budget ceiling for this specific task
    pub budget_ceiling: Option<Amount>,
    /// Budget floor (minimum acceptable)
    pub budget_floor: Option<Amount>,
    /// Deadline for the task, in microseconds since the Unix epoch
    pub deadline: Option<i64>,
    /// Custom constraints
    pub constraints: Vec<String>,
}

#[derive(Debug, Clone, Copy, PartialEq, Eq, Structural)]
pub enum TaskEventType {
    /// Task state changed
    StateChange,
    /// Call was made
    CallStarted,
    /// Call ended
    CallEnded,
    /// Something was said
    Utterance,
    /// Agent made a decision
    Decision,
    /// Escalated to principal
    Escalation,
    /// Principal provided input
    PrincipalInput,
    /// An error occurred
    Error,
    /// A note or observation
    Note,
}

/// An event that occurred during task execution.
#[derive(Debug, Clone)]
pub struct TaskEvent {
    /// When the event occurred, in microseconds since the Unix epoch
    pub timestamp: i64,
    /// Type of event
    pub event_type: TaskEventType,
    /// Human-readable description
    pub description: String,
    /// Additional data
    pub data: TextMap,
}

/// A task that Karta will execute.
#[derive(Debug, Clone)]
pub struct Task {
    /// Unique task identifier (the 128-bit value of a UUID)
    pub id: u128,
    /// Type of task
    pub task_type: TaskType,
    /// Human-readable description
    pub description: String,
    /// Target to contact (phone number, business name, etc.)
    pub target: TaskTarget,
    /// Current state of the task
    pub state: TaskState,
    /// Task-specific context and parameters
    pub context: TaskContext,
    /// Boundaries specific to the task (they override the principal defaults)
    pub boundaries: TaskBoundaries,
    /// History of events during task execution
    pub history: Vec<TaskEvent>,
    /// When the task was created (microseconds since the Unix epoch)
    pub created_at: i64,
    /// When the task was last updated (microseconds since the Unix epoch)
    pub updated_at: i64,
    /// When the task was completed, if it was (microseconds since the Unix epoch)
    pub completed_at: Option<i64>,
}

// ---------------------------------------------------------------------------
// Mathematical models
// ---------------------------------------------------------------------------

pub open spec fn opt_text(o: Option<String>) -> Option<Seq<char>> {
    match o {
        Some(s) => Some(s@),
        None => None,
    }
}

pub open spec fn opt_amount(o: Option<Amount>) -> Option<AmountView> {
    match o {
        Some(a) => Some(a@),
        None => None,
    }
}

pub enum TaskTypeView {
    BookAppointment,
    RentalAgreement,
    Reservation,
    Negotiation,
    Inquiry,
    FollowUp,
    Custom(Seq<char>),
}

pub struct TaskTargetView {
    pub name: Seq<char>,
    pub phone: Option<Seq<char>>,
    pub context: Option<Seq<char>>,
}

pub enum TaskStateView {
    Pending,
    Preparing,
    InProgress,
    WaitingForInput,
    Processing,
    Completed,
    Failed(Seq<char>),
    Cancelled,
}

pub struct TaskContextView {
    pub goal: Option<Seq<char>>,
    pub info: Map<Seq<char>, Seq<char>>,
    pub flexible: Seq<Seq<char>>,
    pub firm: Seq<Seq<char>>,
    pub relationship_context: Option<Seq<char>>,
    pub previous_task_id: Option<u128>,
}

pub struct TaskBoundariesView {
    pub budget_ceiling: Option<AmountView>,
    pub budget_floor: Option<AmountView>,
    pub deadline: Option<i64>,
    pub constraints: Seq<Seq<char>>,
}

pub struct TaskEventView {
    pub timestamp: i64,
    pub event_type: TaskEventType,
    pub description: Seq<char>,
    pub data: Map<Seq<char>, Seq<char>>,
}

pub struct TaskView {
    pub id: u128,
    pub task_type: TaskTypeView,
    pub description: Seq<char>,
    pub target: TaskTargetView,
    pub state: TaskStateView,
    pub context: TaskContextView,
    pub boundaries: TaskBoundariesView,
    pub history: Seq<TaskEventView>,
    pub created_at: i64,
    pub updated_at: i64,
    pub completed_at: Option<i64>,
}

impl View for TaskType {
    type V = TaskTypeView;

    open spec fn view(&self) -> TaskTypeView {
        match self {
            TaskType::BookAppointment => TaskTypeView::BookAppointment,
            TaskType::RentalAgreement => TaskTypeView::RentalAgreement,
            TaskType::Reservation => TaskTypeView::Reservation,
            TaskType::Negotiation => TaskTypeView::Negotiation,
            TaskType::Inquiry => TaskTypeView::Inquiry,
            TaskType::FollowUp => TaskTypeView::FollowUp,
            TaskType::Custom(s) => TaskTypeView::Custom(s@),
        }
    }
}

impl View for TaskTarget {
    type V = TaskTargetView;

    open spec fn view(&self) -> TaskTargetView {
        TaskTargetView { name: self.name@, phone: opt_text(self.phone), context: opt_text(self.context) }
    }
}

impl View for TaskState {
    type V = TaskStateView;

    open spec fn view(&self) -> TaskStateView {
        match self {
            TaskState::Pending => TaskStateView::Pending,
            TaskState::Preparing => TaskStateView::Preparing,
            TaskState::InProgress => TaskStateView::InProgress,
            TaskState::WaitingForInput => TaskStateView::WaitingForInput,
            TaskState::Processing => TaskStateView::Processing,
            TaskState::Completed => TaskStateView::Completed,
            TaskState::Failed(s) => TaskStateView::Failed(s@),
            TaskState::Cancelled => TaskStateView::Cancelled,
        }
    }
}

impl View for TaskContext {
    type V = TaskContextView;

    open spec fn view(&self) -> TaskContextView {
        TaskContextView {
            goal: opt_text(self.goal),
            info: self.info@,
            flexible: texts(self.flexible@),
            firm: texts(self.firm@),
            relationship_context: opt_text(self.relationship_context),
            previous_task_id: self.previous_task_id,
        }
    }
}

impl View for TaskBoundaries {
    type V = TaskBoundariesView;

    open spec fn view(&self) -> TaskBoundariesView {
        TaskBoundariesView {
            budget_ceiling: opt_amount(self.budget_ceiling),
            budget_floor: opt_amount(self.budget_floor),
            deadline: self.deadline,
            constraints: texts(self.constraints@),
        }
    }
}

impl View for TaskEvent {
    type V = TaskEventView;

    open spec fn view(&self) -> TaskEventView {
        TaskEventView {
            timestamp: self.timestamp,
            event_type: self.event_type,
            description: self.description@,
            data: self.data@,
        }
    }
}

impl View for Task {
    type V = TaskView;

    open spec fn view(&self) -> TaskView {
        TaskView {
            id: self.id,
            task_type: self.task_type@,
            description: self.description@,
            target: self.target@,
            state: self.state@,
            context: self.context@,
            boundaries: self.boundaries@,
            history: self.history@.map_values(|e: TaskEvent| e@),
            created_at: self.created_at,
            updated_at: self.updated_at,
            completed_at: self.completed_at,
        }
    }
}

// ---------------------------------------------------------------------------
// Meaning
// ---------------------------------------------------------------------------

/// The empty context: no goal, no information, nothing flexible or firm.
pub open spec fn empty_context() -> TaskContextView {
    TaskContextView {
        goal: None,
        info: Map::empty(),
        flexible: Seq::empty(),
        firm: Seq::empty(),
        relationship_context: None,
        previous_task_id: None,
    }
}

/// No task-specific boundaries.
pub open spec fn no_boundaries() -> TaskBoundariesView {
    TaskBoundariesView {
        budget_ceiling: None,
        budget_floor: None,
        deadline: None,
        constraints: Seq::empty(),
    }
}

/// Completed, failed and cancelled tasks are finished.
pub open spec fn state_is_complete(s: TaskStateView) -> bool {
    s is Completed || s is Failed || s is Cancelled
}

/// Preparing, in progress, waiting for input and processing tasks are active.
pub open spec fn state_is_active(s: TaskStateView) -> bool {
    s is Preparing || s is InProgress || s is WaitingForInput || s is Processing
}

/// A task is active exactly when it has started and is not yet finished:
/// every state but pending, completed, failed and cancelled (a task waiting
/// for the principal's input is active); and it is finished exactly when it
/// completed, failed or was cancelled.
pub proof fn law_active_means_started_and_unfinished(s: TaskStateView)
    ensures
        state_is_active(s) <==> !(s is Pending || s is Completed || s is Failed || s is Cancelled),
        state_is_complete(s) <==> (s is Completed || s is Failed || s is Cancelled),
        state_is_active(s) <==> !(s is Pending) && !state_is_complete(s),
{
}

/// No task is both finished and active.
pub proof fn law_finished_tasks_are_not_active(s: TaskStateView)
    ensures
        !(state_is_complete(s) && state_is_active(s)),
{
}

/// The `{:?}` rendering of a task state.
pub open spec fn task_state_debug(s: TaskStateView) -> Seq<char> {
    match s {
        TaskStateView::Pending => "Pending"@,
        TaskStateView::Preparing => "Preparing"@,
        TaskStateView::InProgress => "InProgress"@,
        TaskStateView::WaitingForInput => "WaitingForInput"@,
        TaskStateView::Processing => "Processing"@,
        TaskStateView::Completed => "Completed"@,
        TaskStateView::Failed(m) => "Failed("@ + quoted_debug_text(m) + ")"@,
        TaskStateView::Cancelled => "Cancelled"@,
    }
}

/// The `{:?}` rendering of a task type.
pub open spec fn task_type_debug(t: TaskTypeView) -> Seq<char> {
    match t {
        TaskTypeView::BookAppointment => "BookAppointment"@,
        TaskTypeView::RentalAgreement => "RentalAgreement"@,
        TaskTypeView::Reservation => "Reservation"@,
        TaskTypeView::Negotiation => "Negotiation"@,
        TaskTypeView::Inquiry => "Inquiry"@,
        TaskTypeView::FollowUp => "FollowUp"@,
        TaskTypeView::Custom(s) => "Custom("@ + quoted_debug_text(s) + ")"@,
    }
}

/// The short label of a task type.
pub open spec fn task_type_label(t: TaskTypeView) -> Seq<char> {
    match t {
        TaskTypeView::BookAppointment => "Appointment"@,
        TaskTypeView::RentalAgreement => "Rental"@,
        TaskTypeView::Reservation => "Reservation"@,
        TaskTypeView::Negotiation => "Negotiation"@,
        TaskTypeView::Inquiry => "Inquiry"@,
        TaskTypeView::FollowUp => "Follow-up"@,
        TaskTypeView::Custom(s) => s,
    }
}

/// The label of a task state.
pub open spec fn task_state_label(s: TaskStateView) -> Seq<char> {
    match s {
        TaskStateView::Pending => "Pending"@,
        TaskStateView::Preparing => "Preparing"@,
        TaskStateView::InProgress => "In Progress"@,
        TaskStateView::WaitingForInput => "Waiting for Input"@,
        TaskStateView::Processing => "Processing"@,
        TaskStateView::Completed => "Completed"@,
        TaskStateView::Failed(_) => "Failed"@,
        TaskStateView::Cancelled => "Cancelled"@,
    }
}

/// `[type] target - description (state)`.
pub open spec fn task_summary(t: TaskView) -> Seq<char> {
    "["@ + task_type_label(t.task_type) + "] "@ + t.target.name + " - "@ + t.description + " ("@
        + task_state_label(t.state) + ")"@
}

/// The description of the event that a state change records.
pub open spec fn state_change_text(from: TaskStateView, to: TaskStateView) -> Seq<char> {
    "State changed from "@ + task_state_debug(from) + " to "@ + task_state_debug(to)
}

/// Everything but the state, the history and the times is the same.
pub open spec fn same_definition(a: TaskView, b: TaskView) -> bool {
    &&& a.id == b.id
    &&& a.task_type == b.task_type
    &&& a.description == b.description
    &&& a.target == b.target
    &&& a.context == b.context
    &&& a.boundaries == b.boundaries
    &&& a.created_at == b.created_at
}

/// `after` is `before` with one more event at the end, of the given type,
/// description and data.
pub open spec fn appended_event(
    before: Seq<TaskEventView>,
    after: Seq<TaskEventView>,
    event_type: TaskEventType,
    description: Seq<char>,
    data: Map<Seq<char>, Seq<char>>,
) -> bool {
    &&& after.len() == before.len() + 1
    &&& after.drop_last() == before
    &&& after.last().event_type == event_type
    &&& after.last().description == description
    &&& after.last().data == data
}

// ---------------------------------------------------------------------------
// Copies
// ---------------------------------------------------------------------------

pub fn copy_opt_text(o: &Option<String>) -> (r: Option<String>)
    ensures
        opt_text(r) == opt_text(*o),
{
    match o {
        Some(s) => Some(s.clone()),
        None => None,
    }
}

impl TaskType {
    /// A copy with the same contents.
    pub fn duplicate(&self) -> (r: TaskType)
        ensures
            r@ == self@,
    {
        match self {
            TaskType::BookAppointment => TaskType::BookAppointment,
            TaskType::RentalAgreement => TaskType::RentalAgreement,
            TaskType::Reservation => TaskType::Reservation,
            TaskType::Negotiation => TaskType::Negotiation,
            TaskType::Inquiry => TaskType::Inquiry,
            TaskType::FollowUp => TaskType::FollowUp,
            TaskType::Custom(s) => TaskType::Custom(s.clone()),
        }
    }

    /// The `{:?}` rendering of this type.
    pub fn debug_text(&self) -> (r: String)
        ensures
            r@ == task_type_debug(self@),
    {
        match self {
            TaskType::BookAppointment => String::from_str("BookAppointment"),
            TaskType::RentalAgreement => String::from_str("RentalAgreement"),
            TaskType::Reservation => String::from_str("Reservation"),
            TaskType::Negotiation => String::from_str("Negotiation"),
            TaskType::Inquiry => String::from_str("Inquiry"),
            TaskType::FollowUp => String::from_str("FollowUp"),
            TaskType::Custom(s) => {
                let mut r = String::from_str("Custom(");
                r.append(debug_quoted(s.as_str()).as_str());
                r.append(")");
                r
            },
        }
    }
}

impl TaskState {
    /// A copy with the same contents.
    pub fn duplicate(&self) -> (r: TaskState)
        ensures
            r@ == self@,
    {
        match self {
            TaskState::Pending => TaskState::Pending,
            TaskState::Preparing => TaskState::Preparing,
            TaskState::InProgress => TaskState::InProgress,
            TaskState::WaitingForInput => TaskState::WaitingForInput,
            TaskState::Processing => TaskState::Processing,
            TaskState::Completed => TaskState::Completed,
            TaskState::Failed(s) => TaskState::Failed(s.clone()),
            TaskState::Cancelled => TaskState::Cancelled,
        }
    }

    /// The `{:?}` rendering of this state.
    pub fn debug_text(&self) -> (r: String)
        ensures
            r@ == task_state_debug(self@),
    {
        match self {
            TaskState::Pending => String::from_str("Pending"),
            TaskState::Preparing => String::from_str("Preparing"),
            TaskState::InProgress => String::from_str("InProgress"),
            TaskState::WaitingForInput => String::from_str("WaitingForInput"),
            TaskState::Processing => String::from_str("Processing"),
            TaskState::Completed => String::from_str("Completed"),
            TaskState::Failed(m) => {
                let mut r = String::from_str("Failed(");
                r.append(debug_quoted(m.as_str()).as_str());
                r.append(")");
                r
            },
            TaskState::Cancelled => String::from_str("Cancelled"),
        }
    }
}

impl Default for TaskContext {
    fn default() -> (c: TaskContext)
        ensures
            c@ == empty_context(),
            c.info.wf(),
    {
        let c = TaskContext {
            goal: None,
            info: TextMap::new(),
            flexible: Vec::new(),
            firm: Vec::new(),
            relationship_context: None,
            previous_task_id: None,
        };
        assert(c@.flexible =~= Seq::<Seq<char>>::empty());
        assert(c@.firm =~= Seq::<Seq<char>>::empty());
        c
    }
}

impl Default for TaskBoundaries {
    fn default() -> (b: TaskBoundaries)
        ensures
            b@ == no_boundaries(),
    {
        let b = TaskBoundaries { budget_ceiling: None, budget_floor: None, deadline: None, constraints: Vec::new() };
        assert(b@.constraints =~= Seq::<Seq<char>>::empty());
        b
    }
}

// ---------------------------------------------------------------------------
// Tasks
// ---------------------------------------------------------------------------

impl Task {
    /// The maps in the task keep their keys distinct.
    pub open spec fn wf(&self) -> bool {
        &&& self.context.info.wf()
        &&& forall|i: int| 0 <= i < self.history@.len() ==> (#[trigger] self.history@[i]).data.wf()
    }

    /// Create a new task: pending, with an empty context, no boundaries, no
    /// history, and a fresh identifier.
    pub fn new(task_type: TaskType, description: String, target: TaskTarget) -> (t: Task)
        ensures
            t.wf(),
            t@.task_type == task_type@,
            t@.description == description@,
            t@.target == target@,
            t@.state == TaskStateView::Pending,
            t@.context == empty_context(),
            t@.boundaries == no_boundaries(),
            t@.history.len() == 0,
            t@.created_at == t@.updated_at,
            t@.completed_at is None,
    {
        let now = now_micros();
        let t = Task {
            id: new_id(),
            task_type,
            description,
            target,
            state: TaskState::Pending,
            context: TaskContext::default(),
            boundaries: TaskBoundaries::default(),
            history: Vec::new(),
            created_at: now,
            updated_at: now,
            completed_at: None,
        };
        t
    }

    /// Create a task with builder pattern
    pub fn builder() -> (b: TaskBuilder)
        ensures
            b@ == empty_builder(),
            b.wf(),
    {
        TaskBuilder::new()
    }

    /// Update the task state, recording the change in the history. A finished
    /// state (completed, failed, cancelled) also stamps the completion time.
    pub fn set_state(&mut self, new_state: TaskState)
        requires
            old(self).wf(),
        ensures
            final(self).wf(),
            same_definition(final(self)@, old(self)@),
            final(self)@.state == new_state@,
            appended_event(
                old(self)@.history,
                final(self)@.history,
                TaskEventType::StateChange,
                state_change_text(old(self)@.state, new_state@),
                Map::empty(),
            ),
            state_is_complete(new_state@) ==> final(self)@.completed_at is Some,
            !state_is_complete(new_state@) ==> final(self)@.completed_at == old(self)@.completed_at,
    {
        let mut text = String::from_str("State changed from ");
        text.append(self.state.debug_text().as_str());
        text.append(" to ");
        text.append(new_state.debug_text().as_str());
        let finished = matches!(new_state, TaskState::Completed | TaskState::Failed(_) | TaskState::Cancelled);
        self.state = new_state;
        self.updated_at = now_micros();
        self.add_event(TaskEventType::StateChange, text);
        if finished {
            self.completed_at = Some(now_micros());
        }
    }

    /// Add an event to the history
    pub fn add_event(&mut self, event_type: TaskEventType, description: String)
        requires
            old(self).wf(),
        ensures
            final(self).wf(),
            same_definition(final(self)@, old(self)@),
            final(self)@.state == old(self)@.state,
            final(self)@.completed_at == old(self)@.completed_at,
            appended_event(old(self)@.history, final(self)@.history, event_type, description@, Map::empty()),
    {
        self.add_event_with_data(event_type, description, TextMap::new());
    }

    /// Add an event with additional data
    pub fn add_event_with_data(&mut self, event_type: TaskEventType, description: String, data: TextMap)
        requires
            old(self).wf(),
            data.wf(),
        ensures
            final(self).wf(),
            same_definition(final(self)@, old(self)@),
            final(self)@.state == old(self)@.state,
            final(self)@.completed_at == old(self)@.completed_at,
            appended_event(old(self)@.history, final(self)@.history, event_type, description@, data@),
    {
        let ghost before = self.history@;
        self.history.push(TaskEvent { timestamp: now_micros(), event_type, description, data });
        self.updated_at = now_micros();
        assert(self.history@.drop_last() =~= before);
        assert(self@.history.drop_last() =~= old(self)@.history);
    }

    /// Check if the task is complete
    pub fn is_complete(&self) -> (b: bool)
        ensures
            b == state_is_complete(self@.state),
    {
        matches!(self.state, TaskState::Completed | TaskState::Failed(_) | TaskState::Cancelled)
    }

    /// Check if the task is active
    pub fn is_active(&self) -> (b: bool)
        ensures
            b == state_is_active(self@.state),
    {
        matches!(
            self.state,
            TaskState::Preparing | TaskState::InProgress | TaskState::WaitingForInput | TaskState::Processing
        )
    }

    /// Get the effective budget ceiling (task-specific or None)
    pub fn budget_ceiling(&self) -> (r: Option<&Amount>)
        ensures
            match self.boundaries.budget_ceiling {
                Some(a) => r is Some && r->0@ == a@,
                None => r is None,
            },
    {
        match &self.boundaries.budget_ceiling {
            Some(a) => Some(a),
            None => None,
        }
    }

    /// Get a summary of the task
    pub fn summary(&self) -> (s: String)
        ensures
            s@ == task_summary(self@),
    {
        let mut s = String::from_str("[");
        s.append(self.task_type_str());
        s.append("] ");
        s.append(self.target.name.as_str());
        s.append(" - ");
        s.append(self.description.as_str());
        s.append(" (");
        s.append(self.state_str());
        s.append(")");
        s
    }

    fn task_type_str(&self) -> (s: &str)
        ensures
            s@ == task_type_label(self@.task_type),
    {
        match &self.task_type {
            TaskType::BookAppointment => "Appointment",
            TaskType::RentalAgreement => "Rental",
            TaskType::Reservation => "Reservation",
            TaskType::Negotiation => "Negotiation",
            TaskType::Inquiry => "Inquiry",
            TaskType::FollowUp => "Follow-up",
            TaskType::Custom(s) => s.as_str(),
        }
    }

    fn state_str(&self) -> (s: &str)
        ensures
            s@ == task_state_label(self@.state),
    {
        match &self.state {
            TaskState::Pending => "Pending",
            TaskState::Preparing => "Preparing",
            TaskState::InProgress => "In Progress",
            TaskState::WaitingForInput => "Waiting for Input",
            TaskState::Processing => "Processing",
            TaskState::Completed => "Completed",
            TaskState::Failed(_) => "Failed",
            TaskState::Cancelled => "Cancelled",
        }
    }
}

// ---------------------------------------------------------------------------
// Builder
// ---------------------------------------------------------------------------

/// Builder for creating tasks.
pub struct TaskBuilder {
    task_type: Option<TaskType>,
    description: Option<String>,
    target: Option<TaskTarget>,
    context: TaskContext,
    boundaries: TaskBoundaries,
}

pub struct TaskBuilderView {
    pub task_type: Option<TaskTypeView>,
    pub description: Option<Seq<char>>,
    pub target: Option<TaskTargetView>,
    pub context: TaskContextView,
    pub boundaries: TaskBoundariesView,
}

impl View for TaskBuilder {
    type V = TaskBuilderView;

    closed spec fn view(&self) -> TaskBuilderView {
        TaskBuilderView {
            task_type: match self.task_type {
                Some(t) => Some(t@),
                None => None,
            },
            description: opt_text(self.description),
            target: match self.target {
                Some(t) => Some(t@),
                None => None,
            },
            context: self.context@,
            boundaries: self.boundaries@,
        }
    }
}

/// A builder with nothing set.
pub open spec fn empty_builder() -> TaskBuilderView {
    TaskBuilderView {
        task_type: None,
        description: None,
        target: None,
        context: empty_context(),
        boundaries: no_boundaries(),
    }
}

/// The message with which `build` refuses a builder, if it does.
pub open spec fn build_error(b: TaskBuilderView) -> Option<Seq<char>> {
    if b.task_type is None {
        Some("Task type is required"@)
    } else if b.description is None {
        Some("Description is required"@)
    } else if b.target is None {
        Some("Target is required"@)
    } else {
        None
    }
}

impl TaskBuilder {
    /// The information map keeps its keys distinct.
    pub closed spec fn wf(&self) -> bool {
        self.context.info.wf()
    }

    pub fn new() -> (b: TaskBuilder)
        ensures
            b@ == empty_builder(),
            b.wf(),
    {
        TaskBuilder {
            task_type: None,
            description: None,
            target: None,
            context: TaskContext::default(),
            boundaries: TaskBoundaries::default(),
        }
    }

    pub fn task_type(self, task_type: TaskType) -> (b: TaskBuilder)
        requires
            self.wf(),
        ensures
            b.wf(),
            b@ == (TaskBuilderView { task_type: Some(task_type@), ..self@ }),
    {
        TaskBuilder { task_type: Some(task_type), ..self }
    }

    pub fn description(self, description: String) -> (b: TaskBuilder)
        requires
            self.wf(),
        ensures
            b.wf(),
            b@ == (TaskBuilderView { description: Some(description@), ..self@ }),
    {
        TaskBuilder { description: Some(description), ..self }
    }

    pub fn target(self, name: String, phone: Option<String>) -> (b: TaskBuilder)
        requires
            self.wf(),
        ensures
            b.wf(),
            b@ == (TaskBuilderView {
                target: Some(TaskTargetView { name: name@, phone: opt_text(phone), context: None }),
                ..self@
            }),
    {
        TaskBuilder { target: Some(TaskTarget { name, phone, context: None }), ..self }
    }

    pub fn target_with_context(self, name: String, phone: Option<String>, context: String) -> (b:
        TaskBuilder)
        requires
            self.wf(),
        ensures
            b.wf(),
            b@ == (TaskBuilderView {
                target: Some(
                    TaskTargetView { name: name@, phone: opt_text(phone), context: Some(context@) },
                ),
                ..self@
            }),
    {
        TaskBuilder { target: Some(TaskTarget { name, phone, context: Some(context) }), ..self }
    }

    pub fn goal(self, goal: String) -> (b: TaskBuilder)
        requires
            self.wf(),
        ensures
            b.wf(),
            b@ == (TaskBuilderView {
                context: TaskContextView { goal: Some(goal@), ..self@.context },
                ..self@
            }),
    {
        let mut b = self;
        b.context.goal = Some(goal);
        b
    }

    pub fn info(self, key: String, value: String) -> (b: TaskBuilder)
        requires
            self.wf(),
        ensures
            b.wf(),
            b@ == (TaskBuilderView {
                context: TaskContextView {
                    info: self@.context.info.insert(key@, value@),
                    ..self@.context
                },
                ..self@
            }),
    {
        let mut b = self;
        b.context.info.insert(key, value);
        b
    }

    pub fn flexible(self, items: Vec<String>) -> (b: TaskBuilder)
        requires
            self.wf(),
        ensures
            b.wf(),
            b@ == (TaskBuilderView {
                context: TaskContextView { flexible: texts(items@), ..self@.context },
                ..self@
            }),
    {
        let mut b = self;
        b.context.flexible = items;
        b
    }

    pub fn firm(self, items: Vec<String>) -> (b: TaskBuilder)
        requires
            self.wf(),
        ensures
            b.wf(),
            b@ == (TaskBuilderView {
                context: TaskContextView { firm: texts(items@), ..self@.context },
                ..self@
            }),
    {
        let mut b = self;
        b.context.firm = items;
        b
    }

    pub fn budget_ceiling(self, ceiling: Amount) -> (b: TaskBuilder)
        requires
            self.wf(),
        ensures
            b.wf(),
            b@ == (TaskBuilderView {
                boundaries: TaskBoundariesView { budget_ceiling: Some(ceiling@), ..self@.boundaries },
                ..self@
            }),
    {
        let mut b = self;
        b.boundaries.budget_ceiling = Some(ceiling);
        b
    }

    pub fn budget_floor(self, floor: Amount) -> (b: TaskBuilder)
        requires
            self.wf(),
        ensures
            b.wf(),
            b@ == (TaskBuilderView {
                boundaries: TaskBoundariesView { budget_floor: Some(floor@), ..self@.boundaries },
                ..self@
            }),
    {
        let mut b = self;
        b.boundaries.budget_floor = Some(floor);
        b
    }

    /// Build the task. It needs a type, a description and a target, and is
    /// refused, naming the first one missing, without them.
    pub fn build(self) -> (r: Result<Task, String>)
        requires
            self.wf(),
        ensures
            match build_error(self@) {
                Some(msg) => r is Err && r->Err_0@ == msg,
                None => r is Ok && {
                    let t = r->Ok_0@;
                    &&& r->Ok_0.wf()
                    &&& Some(t.task_type) == self@.task_type
                    &&& Some(t.description) == self@.description
                    &&& Some(t.target) == self@.target
                    &&& t.context == self@.context
                    &&& t.boundaries == self@.boundaries
                    &&& t.state == TaskStateView::Pending
                    &&& t.history.len() == 0
                    &&& t.created_at == t.updated_at
                    &&& t.completed_at is None
                },
            },
    {
        let task_type = match self.task_type {
            Some(t) => t,
            None => return Err(String::from_str("Task type is required")),
        };
        let description = match self.description {
            Some(d) => d,
            None => return Err(String::from_str("Description is required")),
        };
        let target = match self.target {
            Some(t) => t,
            None => return Err(String::from_str("Target is required")),
        };
        let mut task = Task::new(task_type, description, target);
        task.context = self.context;
        task.boundaries = self.boundaries;
        Ok(task)
    }
}

impl Default for TaskBuilder {
    fn default() -> (b: TaskBuilder)
        ensures
            b@ == empty_builder(),
            b.wf(),
    {
        Self::new()
    }
}

} // verus!
