use karta::amount::Amount;
use karta::task::id::{id_string, short_id};
use karta::task::memory::{TaskMemory, TaskQuery};
use karta::task::task::{Task, TaskBuilder, TaskEventType, TaskState, TaskTarget, TaskType};
use karta::text_map::TextMap;

fn target(name: &str) -> TaskTarget {
    TaskTarget { name: name.to_string(), phone: Some("+1-555-0100".to_string()), context: None }
}

fn task(name: &str, t: TaskType) -> Task {
    Task::new(t, format!("Call {}", name), target(name))
}

#[test]
fn a_new_task_is_pending_with_no_history() {
    let t = task("Acme", TaskType::Inquiry);
    assert_eq!(t.state, TaskState::Pending);
    assert!(t.history.is_empty());
    assert_eq!(t.created_at, t.updated_at);
    assert!(t.completed_at.is_none());
    assert!(!t.is_active());
    assert!(!t.is_complete());
}

#[test]
fn the_summary_names_type_target_description_and_state() {
    let mut t = task("Acme Dental", TaskType::BookAppointment);
    assert_eq!(t.summary(), "[Appointment] Acme Dental - Call Acme Dental (Pending)");
    t.set_state(TaskState::InProgress);
    assert_eq!(t.summary(), "[Appointment] Acme Dental - Call Acme Dental (In Progress)");
    let c = Task::new(TaskType::Custom("Survey".to_string()), "Ask".to_string(), target("Bo"));
    assert_eq!(c.summary(), "[Survey] Bo - Ask (Pending)");
    let mut f = task("X", TaskType::FollowUp);
    f.set_state(TaskState::Failed("busy".to_string()));
    assert_eq!(f.summary(), "[Follow-up] X - Call X (Failed)");
}

#[test]
fn a_state_change_is_recorded_and_a_finished_state_is_stamped() {
    let mut t = task("Acme", TaskType::Inquiry);
    t.set_state(TaskState::InProgress);
    assert_eq!(t.history.len(), 1);
    assert_eq!(t.history[0].event_type, TaskEventType::StateChange);
    assert_eq!(t.history[0].description, "State changed from Pending to InProgress");
    assert!(t.completed_at.is_none());
    assert!(t.is_active());
    t.set_state(TaskState::Failed("no answer".to_string()));
    assert_eq!(t.history[1].description, "State changed from InProgress to Failed(\"no answer\")");
    assert!(t.completed_at.is_some());
    assert!(t.is_complete());
    assert!(!t.is_active());
}

#[test]
fn finished_tasks_are_never_active() {
    let states = vec![
        TaskState::Pending,
        TaskState::Preparing,
        TaskState::InProgress,
        TaskState::WaitingForInput,
        TaskState::Processing,
        TaskState::Completed,
        TaskState::Failed("f".to_string()),
        TaskState::Cancelled,
    ];
    for s in states {
        let mut t = task("A", TaskType::Inquiry);
        t.set_state(s);
        assert!(!(t.is_active() && t.is_complete()));
    }
}

#[test]
fn events_are_appended_with_their_data() {
    let mut t = task("A", TaskType::Inquiry);
    t.add_event(TaskEventType::Note, "first".to_string());
    let mut data = TextMap::new();
    data.insert("k".to_string(), "v".to_string());
    data.insert("k".to_string(), "w".to_string());
    t.add_event_with_data(TaskEventType::Decision, "second".to_string(), data);
    assert_eq!(t.history.len(), 2);
    assert_eq!(t.history[1].event_type, TaskEventType::Decision);
    assert_eq!(t.history[1].data.pairs().clone(), vec![("k".to_string(), "w".to_string())]);
}

#[test]
fn build_refuses_each_missing_part_in_order() {
    assert_eq!(TaskBuilder::new().build().err(), Some("Task type is required".to_string()));
    assert_eq!(
        TaskBuilder::new().task_type(TaskType::Inquiry).build().err(),
        Some("Description is required".to_string())
    );
    assert_eq!(
        TaskBuilder::new().task_type(TaskType::Inquiry).description("d".to_string()).build().err(),
        Some("Target is required".to_string())
    );
    assert_eq!(
        Task::builder().description("d".to_string()).target("t".to_string(), None).build().err(),
        Some("Task type is required".to_string())
    );
}

#[test]
fn build_keeps_everything_the_builder_was_given() {
    let t = TaskBuilder::new()
        .task_type(TaskType::Negotiation)
        .description("Lower the bill".to_string())
        .target_with_context("Telco".to_string(), Some("+1".to_string()), "account 42".to_string())
        .goal("Pay less".to_string())
        .info("plan".to_string(), "gold".to_string())
        .flexible(vec!["term".to_string()])
        .firm(vec!["no fees".to_string()])
        .budget_ceiling(Amount { bits: 0x4059000000000000, text: "100".to_string() })
        .budget_floor(Amount { bits: 0, text: "0".to_string() })
        .build()
        .unwrap();
    assert_eq!(t.description, "Lower the bill");
    assert_eq!(t.target.context, Some("account 42".to_string()));
    assert_eq!(t.context.goal, Some("Pay less".to_string()));
    assert_eq!(t.context.info.pairs().clone(), vec![("plan".to_string(), "gold".to_string())]);
    assert_eq!(t.context.flexible, vec!["term".to_string()]);
    assert_eq!(t.context.firm, vec!["no fees".to_string()]);
    assert_eq!(t.budget_ceiling().map(|a| a.text.clone()), Some("100".to_string()));
    assert_eq!(t.boundaries.budget_floor.as_ref().map(|a| a.bits), Some(0));
    assert_eq!(t.state, TaskState::Pending);
}

#[test]
fn identifiers_are_written_as_uuids_are() {
    let ids: [u128; 4] = [0, 1, u128::MAX, 0x0123456789abcdef_fedcba9876543210];
    for id in ids {
        let expected = uuid::Uuid::from_u128(id).to_string();
        assert_eq!(id_string(id), expected);
        assert_eq!(short_id(id), expected[..8].to_string());
    }
    assert_eq!(id_string(0x0123456789abcdef_fedcba9876543210), "01234567-89ab-cdef-fedc-ba9876543210");
}

#[test]
fn a_stored_task_is_read_back_and_replaced_in_place() {
    let mut m = TaskMemory::new();
    let a = task("Acme", TaskType::Inquiry);
    let b = task("Beta", TaskType::Reservation);
    let (ida, idb) = (a.id, b.id);
    m.insert(a);
    m.insert(b);
    assert_eq!(m.get(ida).unwrap().target.name, "Acme");
    assert_eq!(m.get(idb).unwrap().target.name, "Beta");
    let mut changed = m.get(ida).unwrap().clone();
    changed.description = "Changed".to_string();
    m.insert(changed);
    assert_eq!(m.list().len(), 2);
    assert_eq!(m.list().iter().filter(|t| t.description == "Changed").count(), 1);
    assert!(m.get(ida.wrapping_add(1)).is_none() || ida.wrapping_add(1) == idb);
}

#[test]
fn a_removed_task_is_gone_and_the_rest_stay() {
    let mut m = TaskMemory::new();
    let a = task("Acme", TaskType::Inquiry);
    let b = task("Beta", TaskType::Inquiry);
    let (ida, idb) = (a.id, b.id);
    m.insert(a);
    m.insert(b);
    m.remove(ida);
    assert!(m.get(ida).is_none());
    assert_eq!(m.get(idb).unwrap().target.name, "Beta");
    m.remove(ida);
    assert_eq!(m.list().len(), 1);
}

#[test]
fn a_task_changed_in_place_is_kept_changed() {
    let mut m = TaskMemory::new();
    let a = task("Acme", TaskType::Inquiry);
    let id = a.id;
    m.insert(a);
    m.get_mut(id).unwrap().set_state(TaskState::Completed);
    assert_eq!(m.get(id).unwrap().state, TaskState::Completed);
    assert!(m.get_mut(id.wrapping_add(7)).is_none() || id.wrapping_add(7) == id);
}

#[test]
fn listings_filter_by_state() {
    let mut m = TaskMemory::new();
    let mut a = task("Acme", TaskType::Inquiry);
    a.set_state(TaskState::InProgress);
    let mut b = task("Beta", TaskType::Inquiry);
    b.set_state(TaskState::Completed);
    let c = task("Gamma", TaskType::Inquiry);
    m.insert(a);
    m.insert(b);
    m.insert(c);
    let names = |v: Vec<&Task>| v.iter().map(|t| t.target.name.clone()).collect::<Vec<_>>();
    assert_eq!(names(m.list_active()), vec!["Acme"]);
    assert_eq!(names(m.list_completed()), vec!["Beta"]);
    assert_eq!(names(m.list_by_state(&TaskState::Pending)), vec!["Gamma"]);
    let mut all = names(m.list());
    all.sort();
    assert_eq!(all, vec!["Acme", "Beta", "Gamma"]);
}

#[test]
fn search_by_target_ignores_case() {
    let mut m = TaskMemory::new();
    m.insert(task("Acme Dental", TaskType::Inquiry));
    m.insert(task("Beta Motors", TaskType::Inquiry));
    let found = m.search_by_target("DENTAL");
    assert_eq!(found.len(), 1);
    assert_eq!(found[0].target.name, "Acme Dental");
    assert_eq!(m.search_by_target("").len(), 2);
    assert!(m.search_by_target("zeta").is_empty());
}

#[test]
fn a_task_is_found_by_the_start_of_its_identifier() {
    let mut m = TaskMemory::new();
    let a = task("Acme", TaskType::Inquiry);
    let id = a.id;
    m.insert(a);
    m.insert(task("Beta", TaskType::Inquiry));
    let text = id_string(id);
    let found = m.find_by_id_prefix(&text[..8]);
    assert!(found.iter().any(|t| t.id == id));
    assert_eq!(m.find_by_id_prefix(&text).len(), 1);
    assert_eq!(m.find_by_id_prefix("").len(), 2);
    assert!(m.find_by_id_prefix("not-hex").is_empty());
}

#[test]
fn recent_lists_the_most_recently_updated_first() {
    let mut m = TaskMemory::new();
    let mut a = task("Acme", TaskType::Inquiry);
    let mut b = task("Beta", TaskType::Inquiry);
    let mut c = task("Gamma", TaskType::Inquiry);
    a.updated_at = 10;
    b.updated_at = 30;
    c.updated_at = 20;
    m.insert(a);
    m.insert(b);
    m.insert(c);
    let names = |v: Vec<&Task>| v.iter().map(|t| t.target.name.clone()).collect::<Vec<_>>();
    assert_eq!(names(m.recent(10)), vec!["Beta", "Gamma", "Acme"]);
    assert_eq!(names(m.recent(2)), vec!["Beta", "Gamma"]);
    assert!(m.recent(0).is_empty());
}

#[test]
fn a_query_filters_sorts_and_limits() {
    let mut m = TaskMemory::new();
    let mut a = task("Acme One", TaskType::Inquiry);
    let mut b = task("Acme Two", TaskType::Reservation);
    let mut c = task("Acme Three", TaskType::Inquiry);
    let mut d = task("Other", TaskType::Inquiry);
    a.updated_at = 1;
    b.updated_at = 2;
    c.updated_at = 3;
    c.set_state(TaskState::Completed);
    c.updated_at = 3;
    d.updated_at = 4;
    m.insert(a);
    m.insert(b);
    m.insert(c);
    m.insert(d);
    let names = |v: Vec<&Task>| v.iter().map(|t| t.target.name.clone()).collect::<Vec<_>>();
    let q = TaskQuery::new().target_contains("acme".to_string());
    assert_eq!(names(q.execute(&m)), vec!["Acme Two", "Acme One"]);
    let q = TaskQuery::new().target_contains("ACME".to_string()).include_completed(true);
    assert_eq!(names(q.execute(&m)), vec!["Acme Three", "Acme Two", "Acme One"]);
    let q = TaskQuery::new().task_type(TaskType::Inquiry).include_completed(true).limit(2);
    assert_eq!(names(q.execute(&m)), vec!["Other", "Acme Three"]);
    assert_eq!(names(TaskQuery::new().execute(&m)), vec!["Other", "Acme Two", "Acme One"]);
}

#[test]
fn state_and_type_comparison() {
    assert!(TaskState::Failed("a".to_string()).same_as(&TaskState::Failed("a".to_string())));
    assert!(!TaskState::Failed("a".to_string()).same_as(&TaskState::Failed("b".to_string())));
    assert!(TaskType::Custom("x".to_string()).same_as(&TaskType::Custom("x".to_string())));
    assert!(!TaskType::Inquiry.same_as(&TaskType::FollowUp));
    assert_eq!(TaskState::WaitingForInput.debug_text(), format!("{:?}", TaskState::WaitingForInput));
    assert_eq!(TaskType::Custom("q\"".to_string()).debug_text(), format!("{:?}", TaskType::Custom("q\"".to_string())));
}

#[test]
fn tasks_updated_together_keep_their_order() {
    let mut m = TaskMemory::new();
    let names = ["First", "Second", "Third", "Fourth"];
    for (i, n) in names.iter().enumerate() {
        let mut t = task(n, TaskType::Inquiry);
        t.updated_at = if i == 2 { 9 } else { 5 };
        m.insert(t);
    }
    let listed: Vec<_> = m.recent(10).iter().map(|t| t.target.name.clone()).collect();
    let stored_order: Vec<_> =
        m.list().iter().map(|t| t.target.name.clone()).filter(|n| n != "Third").collect();
    assert_eq!(listed[0], "Third");
    assert_eq!(listed[1..].to_vec(), stored_order);
    let again: Vec<_> = m.recent(10).iter().map(|t| t.target.name.clone()).collect();
    assert_eq!(listed, again);
}
