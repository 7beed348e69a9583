//! The command line: the commands and their arguments, as plain values.
//! Parsing the command line into them is left to the program.

use vstd::prelude::*;

use crate::amount::Amount;
use crate::task::task::TaskType;

verus! {

/// What the test command speaks when no message is given.
pub const DEFAULT_TEST_MESSAGE: &'static str = "Hello! This is Karta, your AI assistant. I'm calling to confirm that the system is working correctly.";

/// How many tasks `task list --all` shows when no limit is given.
pub const DEFAULT_LIST_LIMIT: usize = 10;

/// The commands.
pub enum Commands {
    /// Make a call to complete a task
    Call(CallArgs),
    /// Quick test call - just speaks a message
    Test(TestCallArgs),
    /// Manage tasks
    Task(TaskArgs),
    /// Initialize or manage configuration
    Config(ConfigArgs),
    /// Demo mode - run a simulated conversation
    Demo(DemoArgs),
}

/// Arguments for test call
pub struct TestCallArgs {
    /// Phone number to call
    pub phone: String,
    /// Message to speak
    pub message: String,
}

/// Arguments for the call command
pub struct CallArgs {
    /// Target to call (business name or phone number)
    pub target: String,
    /// Type of task
    pub task: TaskTypeArg,
    /// Phone number (if not included in target)
    pub phone: Option<String>,
    /// Goal description
    pub goal: Option<String>,
    /// Budget ceiling for negotiations
    pub budget_ceiling: Option<Amount>,
    /// Items that are flexible/negotiable
    pub flexible: Vec<String>,
    /// Items that are firm/non-negotiable
    pub firm: Vec<String>,
    /// Additional context
    pub context: Option<String>,
}

/// The task type as the command line names it.
#[derive(Debug, Clone, Copy, PartialEq, Eq, Structural)]
pub enum TaskTypeArg {
    /// Book an appointment
    Appointment,
    /// Complete a rental agreement
    Rental,
    /// Make a reservation
    Reservation,
    /// Negotiate a bill or dispute
    Negotiation,
    /// General inquiry
    Inquiry,
    /// Follow up on a previous task
    FollowUp,
}

/// The task type that a command-line name stands for.
pub open spec fn task_type_of(arg: TaskTypeArg) -> TaskType {
    match arg {
        TaskTypeArg::Appointment => TaskType::BookAppointment,
        TaskTypeArg::Rental => TaskType::RentalAgreement,
        TaskTypeArg::Reservation => TaskType::Reservation,
        TaskTypeArg::Negotiation => TaskType::Negotiation,
        TaskTypeArg::Inquiry => TaskType::Inquiry,
        TaskTypeArg::FollowUp => TaskType::FollowUp,
    }
}

impl From<TaskTypeArg> for TaskType {
    fn from(arg: TaskTypeArg) -> (t: TaskType) {
        match arg {
            TaskTypeArg::Appointment => TaskType::BookAppointment,
            TaskTypeArg::Rental => TaskType::RentalAgreement,
            TaskTypeArg::Reservation => TaskType::Reservation,
            TaskTypeArg::Negotiation => TaskType::Negotiation,
            TaskTypeArg::Inquiry => TaskType::Inquiry,
            TaskTypeArg::FollowUp => TaskType::FollowUp,
        }
    }
}

impl vstd::std_specs::convert::FromSpecImpl<TaskTypeArg> for TaskType {
    open spec fn obeys_from_spec() -> bool {
        true
    }

    open spec fn from_spec(arg: TaskTypeArg) -> TaskType {
        task_type_of(arg)
    }
}

/// Arguments for task management
pub struct TaskArgs {
    pub command: TaskCommands,
}

/// The task commands.
pub enum TaskCommands {
    /// List all tasks
    List {
        /// Include completed tasks
        all: bool,
        /// Limit number of tasks shown
        limit: usize,
    },
    /// Show details of a specific task
    Show {
        /// Task ID (partial match supported)
        id: String,
    },
    /// Search tasks
    Search {
        /// Search query
        query: String,
    },
}

/// Arguments for configuration
pub struct ConfigArgs {
    pub command: ConfigCommands,
}

/// The configuration commands.
#[derive(Debug, Clone, Copy, PartialEq, Eq, Structural)]
pub enum ConfigCommands {
    /// Initialize a new configuration
    Init {
        /// Force overwrite existing config
        force: bool,
    },
    /// Show current configuration
    Show,
    /// Edit configuration (opens in editor)
    Edit,
    /// Validate configuration
    Validate,
    /// Show configuration path
    Path,
}

/// Arguments for demo mode
pub struct DemoArgs {
    /// Demo scenario to run
    pub scenario: DemoScenario,
}

/// The demo scenarios.
#[derive(Debug, Clone, Copy, PartialEq, Eq, Structural)]
pub enum DemoScenario {
    /// Demo appointment booking
    Appointment,
    /// Demo rental negotiation
    Rental,
}

/// The name by which `{:?}` shows a scenario.
pub open spec fn scenario_name(s: DemoScenario) -> Seq<char> {
    match s {
        DemoScenario::Appointment => "Appointment"@,
        DemoScenario::Rental => "Rental"@,
    }
}

impl DemoScenario {
    /// The name by which `{:?}` shows the scenario.
    pub fn debug_text(&self) -> (s: String)
        ensures
            s@ == scenario_name(*self),
    {
        match self {
            DemoScenario::Appointment => String::from_str("Appointment"),
            DemoScenario::Rental => String::from_str("Rental"),
        }
    }
}

} // verus!
