use my_tasks::calendar::parse_timestamp;
use my_tasks::calendar::Frequency;
use my_tasks::calendar::Timestamp;
use my_tasks::calendar::MAX_YEAR;
use my_tasks::error::TaskError;
use my_tasks::ids::parse_id;
use my_tasks::ids::parse_optional_id;
use my_tasks::recurring_task_manager::RecurringTaskManager;
use my_tasks::task::CreateTaskData;
use my_tasks::task::Task;
use my_tasks::task::UpdatedTaskData;
use my_tasks::task_manager::RepositoryProvider;
use my_tasks::task_manager::TaskManager;

fn ts(year: i32, month: u32, day: u32, hour: u32, minute: u32, second: u32) -> Timestamp {
    Timestamp { year, month, day, hour, minute, second, nanosecond: 0 }
}

fn setup() -> TaskManager {
    TaskManager::new(RepositoryProvider::new())
}

fn data(title: &str) -> CreateTaskData {
    CreateTaskData { title: title.to_string(), description: None, project_id: None, due_at_utc: None }
}

fn setup_series(
    manager: &mut TaskManager,
    task_id: u128,
    frequency: Frequency,
    interval: u32,
    first_due: Option<Timestamp>,
) -> my_tasks::recurring_task::RecurringTask {
    let provider = &mut manager.repository_provider;
    RecurringTaskManager::setup_recurring_task(
        &mut provider.recurring_task_repository,
        &provider.task_repository,
        task_id,
        frequency,
        interval,
        first_due,
    )
    .unwrap()
}

#[test]
fn test_task_save_and_load() {
    let mut manager = setup();
    let new_task = manager.create_task(data("New Task")).unwrap();
    assert_eq!("New Task".to_string(), new_task.title);
    let loaded_task = manager.repository_provider.task_repository.find_by_id(new_task.id);
    assert!(loaded_task.is_some());
    assert_eq!(new_task.title, loaded_task.unwrap().title);
}

#[test]
fn it_updates_a_task() {
    let mut manager = setup();
    let new_task = manager.create_task(data("New Task")).unwrap();
    let update_task_data = UpdatedTaskData {
        title: "Updated Title".to_string(),
        description: None,
        project_id: None,
        due_date: None,
    };
    let updated_task = manager.update_task(new_task.id, update_task_data);
    assert!(updated_task.is_ok());
    assert_eq!("Updated Title".to_string(), updated_task.unwrap().title);
}

#[test]
fn it_creates_a_task_and_a_subtask_for_it() {
    let mut manager = setup();
    let new_task = manager.create_task(data("New Task")).unwrap();
    let new_task_id = new_task.id;
    let subtask = manager.create_subtask_for_task(new_task, data("New Task")).unwrap();
    assert_eq!(new_task_id, subtask.parent_task_id.unwrap());
    let new_task_subtasks = manager.load_subtasks_for_task(new_task_id);
    assert_eq!(1, new_task_subtasks.len());
}

#[test]
fn it_completes_a_task() {
    let mut manager = setup();
    let new_task = manager.create_task(data("New Task")).unwrap();
    manager.complete_task(new_task.id).unwrap();
    let loaded_task = manager.load_by_id(new_task.id).unwrap();
    assert!(loaded_task.completed_at_utc.is_some());
}

#[test]
fn completing_a_task_also_completes_all_its_subtasks() {
    let mut manager = setup();
    let new_task = manager.create_task(data("New Task")).unwrap();
    let new_task_uuid = new_task.id;
    let subtask = manager.create_subtask_for_task(new_task, data("New Task")).unwrap();
    manager.complete_task(new_task_uuid).unwrap();
    let reloaded_subtask = manager.load_by_id(subtask.id).unwrap();
    assert!(reloaded_subtask.completed_at_utc.is_some());
}

#[test]
fn completion_toggles() {
    let mut manager = setup();
    let task = manager.create_task(data("Toggle me")).unwrap();
    let at1 = ts(2024, 1, 1, 10, 0, 0);
    let at2 = ts(2024, 1, 1, 11, 0, 0);
    let at3 = ts(2024, 1, 1, 12, 0, 0);
    manager.complete_task_at(task.id, at1, 1).unwrap();
    assert_eq!(manager.load_by_id(task.id).unwrap().completed_at_utc, Some(at1));
    manager.complete_task_at(task.id, at2, 2).unwrap();
    let reopened = manager.load_by_id(task.id).unwrap();
    assert_eq!(reopened.completed_at_utc, None);
    assert_eq!(reopened.updated_at_utc, at2);
    manager.complete_task_at(task.id, at3, 3).unwrap();
    assert_eq!(manager.load_by_id(task.id).unwrap().completed_at_utc, Some(at3));
}

#[test]
fn completing_a_missing_task_does_nothing() {
    let mut manager = setup();
    assert!(matches!(manager.complete_task(42), Ok(None)));
    assert_eq!(manager.load_tasks(true).len(), 0);
}

#[test]
fn cascade_reaches_direct_open_subtasks_only() {
    let mut manager = setup();
    let at = ts(2024, 6, 1, 9, 0, 0);
    let parent = manager.create_task_at(data("Parent"), at, 10).unwrap();
    let s1 = manager.create_subtask_for_task_at(parent.duplicate(), data("S1"), at, 11).unwrap();
    let s2 = manager.create_subtask_for_task_at(parent.duplicate(), data("S2"), at, 12).unwrap();
    let grandchild = manager.create_subtask_for_task_at(s1.duplicate(), data("S1a"), at, 13).unwrap();
    let other = manager.create_task_at(data("Other"), at, 14).unwrap();
    let done = ts(2024, 6, 2, 9, 0, 0);
    assert!(matches!(manager.complete_task_at(parent.id, done, 99), Ok(None)));
    assert_eq!(manager.load_by_id(parent.id).unwrap().completed_at_utc, Some(done));
    assert_eq!(manager.load_by_id(s1.id).unwrap().completed_at_utc, Some(done));
    assert_eq!(manager.load_by_id(s2.id).unwrap().completed_at_utc, Some(done));
    assert_eq!(manager.load_by_id(grandchild.id).unwrap().completed_at_utc, None);
    assert_eq!(manager.load_by_id(other.id).unwrap().completed_at_utc, None);
    assert!(manager.load_by_id(99).is_none());
}

#[test]
fn completing_a_weekly_task_spawns_the_next_one() {
    let mut manager = setup();
    let at = ts(2024, 3, 1, 8, 0, 0);
    let mut create = data("Review");
    create.description = Some("weekly review".to_string());
    let task = manager.create_task_at(create, at, 1).unwrap();
    let due = ts(2024, 3, 4, 17, 0, 0);
    let series = setup_series(&mut manager, task.id, Frequency::Weekly, 1, Some(due));
    let done = ts(2024, 3, 4, 16, 0, 0);
    let next = manager.complete_task_at(task.id, done, 2).unwrap().unwrap();
    assert_eq!(next.id, 2);
    assert_eq!(next.title, "Review");
    assert_eq!(next.description, Some("weekly review".to_string()));
    assert_eq!(next.due_at_utc, Some(ts(2024, 3, 11, 17, 0, 0)));
    assert!(next.completed_at_utc.is_none());
    assert_eq!(manager.load_tasks(true).len(), 2);
    let open = manager.load_tasks(false);
    assert_eq!(open.len(), 1);
    assert_eq!(open[0].id, 2);
    let rt = manager.repository_provider.recurring_task_repository.find_by_task_id(2).unwrap();
    assert_eq!(rt.id, series.id);
    assert_eq!(rt.next_due_at_utc, ts(2024, 3, 11, 17, 0, 0));
    assert!(manager.repository_provider.recurring_task_repository.find_by_task_id(task.id).is_none());
}

#[test]
fn completing_a_task_without_series_spawns_nothing() {
    let mut manager = setup();
    let task = manager.create_task(data("Once")).unwrap();
    let done = ts(2024, 1, 2, 3, 4, 5);
    let before = manager.load_tasks(true).len();
    let provider = &mut manager.repository_provider;
    let handled = RecurringTaskManager::handle_task_completion_at(
        &mut provider.recurring_task_repository,
        &mut provider.task_repository,
        &task,
        done,
        77,
    );
    assert!(matches!(handled, Ok(None)));
    assert!(matches!(manager.complete_task(task.id), Ok(None)));
    assert_eq!(manager.load_tasks(true).len(), before);
}

#[test]
fn water_plants_every_day() {
    let mut manager = setup();
    let task = manager.create_task(data("Water plants")).unwrap();
    assert!(task.due_at_utc.is_none());
    let first = parse_timestamp(&"2024-06-01T08:00:00Z".to_string()).unwrap();
    let series = setup_series(&mut manager, task.id, Frequency::Daily, 1, Some(first));
    assert_eq!(series.next_due_at_utc, first);
    let next = manager.complete_task(task.id).unwrap().unwrap();
    assert_eq!(next.title, "Water plants");
    assert_eq!(next.due_at_utc, Some(ts(2024, 6, 2, 8, 0, 0)));
    let rt = manager.repository_provider.recurring_task_repository.find_by_task_id(next.id).unwrap();
    assert_eq!(rt.next_due_at_utc, ts(2024, 6, 2, 8, 0, 0));
}

#[test]
fn setup_derives_the_first_due_date_from_the_task() {
    let mut manager = setup();
    let mut create = data("Pay rent");
    create.due_at_utc = Some("2024-01-31T09:00:00Z".to_string());
    let task = manager.create_task(create).unwrap();
    let series = setup_series(&mut manager, task.id, Frequency::Monthly, 1, None);
    assert_eq!(series.next_due_at_utc, ts(2024, 1, 31, 9, 0, 0));
    let next = manager.complete_task(task.id).unwrap().unwrap();
    assert_eq!(next.due_at_utc, Some(ts(2024, 2, 29, 9, 0, 0)));
}

#[test]
fn setup_reschedules_an_existing_series() {
    let mut manager = setup();
    let task = manager.create_task(data("Stretch")).unwrap();
    let first = setup_series(&mut manager, task.id, Frequency::Daily, 1, Some(ts(2024, 1, 1, 7, 0, 0)));
    let second = setup_series(&mut manager, task.id, Frequency::Weekly, 2, Some(ts(2024, 1, 2, 7, 0, 0)));
    assert_eq!(first.id, second.id);
    assert_eq!(second.frequency, Frequency::Weekly);
    assert_eq!(second.interval, 2);
    let found = manager.repository_provider.recurring_task_repository.find_by_task_id(task.id).unwrap();
    assert_eq!(found, second);
}

#[test]
fn setup_refuses_missing_tasks_and_zero_intervals() {
    let mut manager = setup();
    let provider = &mut manager.repository_provider;
    let missing = RecurringTaskManager::setup_recurring_task(
        &mut provider.recurring_task_repository,
        &provider.task_repository,
        5,
        Frequency::Daily,
        1,
        None,
    );
    assert_eq!(missing, Err(TaskError::TaskNotFound));
    let task = manager.create_task(data("Zero")).unwrap();
    let provider = &mut manager.repository_provider;
    let zero = RecurringTaskManager::setup_recurring_task(
        &mut provider.recurring_task_repository,
        &provider.task_repository,
        task.id,
        Frequency::Daily,
        0,
        None,
    );
    assert_eq!(zero, Err(TaskError::InvalidInput));
}

#[test]
fn editing_the_due_date_reanchors_the_series() {
    let mut manager = setup();
    let task = manager.create_task(data("Gym")).unwrap();
    setup_series(&mut manager, task.id, Frequency::Daily, 2, Some(ts(2024, 1, 1, 18, 0, 0)));
    let edit = UpdatedTaskData {
        title: "Gym".to_string(),
        description: None,
        project_id: None,
        due_date: Some("2024-02-10T18:00:00Z".to_string()),
    };
    let updated = manager.update_task(task.id, edit).unwrap();
    assert_eq!(updated.due_at_utc, Some(ts(2024, 2, 10, 18, 0, 0)));
    let rt = manager.repository_provider.recurring_task_repository.find_by_task_id(task.id).unwrap();
    assert_eq!(rt.next_due_at_utc, ts(2024, 2, 12, 18, 0, 0));
}

#[test]
fn regeneration_past_the_last_year_fails() {
    let mut manager = setup();
    let task = manager.create_task(data("Forever")).unwrap();
    setup_series(&mut manager, task.id, Frequency::Yearly, 1, Some(ts(MAX_YEAR, 6, 1, 0, 0, 0)));
    assert!(matches!(manager.complete_task(task.id), Err(TaskError::DateOutOfRange)));
    assert!(manager.load_by_id(task.id).unwrap().completed_at_utc.is_some());
}

#[test]
fn promotion_moves_subtasks_into_a_new_project() {
    let mut manager = setup();
    let at = ts(2024, 4, 1, 12, 0, 0);
    let mut create = data("Plan trip");
    create.description = Some("summer".to_string());
    let t = manager.create_task_at(create, at, 1).unwrap();
    let s1 = manager.create_subtask_for_task_at(t.duplicate(), data("Book flights"), at, 2).unwrap();
    let s2 = manager.create_subtask_for_task_at(t.duplicate(), data("Book hotel"), at, 3).unwrap();
    let done = ts(2024, 4, 2, 12, 0, 0);
    let project = manager.promote_task_to_project_at(t.id, done, 500).unwrap();
    assert_eq!(project.id, 500);
    assert_eq!(project.title, "Plan trip");
    assert_eq!(project.description, Some("summer".to_string()));
    for s in [s1.id, s2.id] {
        let moved = manager.load_by_id(s).unwrap();
        assert_eq!(moved.project_id, Some(project.id));
        assert_eq!(moved.parent_task_id, None);
    }
    assert_eq!(manager.load_by_id(t.id).unwrap().completed_at_utc, Some(done));
    assert!(manager.repository_provider.project_repository.contains(500));
}

#[test]
fn promotion_of_a_missing_task_fails() {
    let mut manager = setup();
    assert!(matches!(manager.promote_task_to_project(7), Err(TaskError::TaskNotFound)));
}

#[test]
fn creation_refuses_bad_input() {
    let mut manager = setup();
    assert!(matches!(manager.create_task(data("")), Err(TaskError::InvalidInput)));
    let mut bad_id = data("Bad id");
    bad_id.project_id = Some("not-a-uuid".to_string());
    assert!(matches!(manager.create_task(bad_id), Err(TaskError::InvalidInput)));
    let mut bad_date = data("Bad date");
    bad_date.due_at_utc = Some("tomorrow".to_string());
    assert!(matches!(manager.create_task(bad_date), Err(TaskError::InvalidInput)));
    let mut unknown = data("Unknown project");
    unknown.project_id = Some("550e8400-e29b-41d4-a716-446655440000".to_string());
    assert!(matches!(manager.create_task(unknown), Err(TaskError::InvalidReference)));
    assert_eq!(manager.load_tasks(true).len(), 0);
}

#[test]
fn creation_with_a_taken_identifier_fails() {
    let mut manager = setup();
    let at = ts(2024, 1, 1, 0, 0, 0);
    manager.create_task_at(data("First"), at, 9).unwrap();
    assert!(matches!(manager.create_task_at(data("Second"), at, 9), Err(TaskError::DuplicateId)));
    assert_eq!(manager.load_by_id(9).unwrap().title, "First");
}

#[test]
fn creation_in_a_project() {
    let mut manager = setup();
    let project = my_tasks::project::ProjectsManager::create_project(
        &mut manager.repository_provider.project_repository,
        "Home".to_string(),
        None,
        None,
        None,
    )
    .unwrap();
    let text = uuid::Uuid::from_u128(project.id).to_string();
    let mut create = data("Fix sink");
    create.project_id = Some(text);
    create.due_at_utc = Some("2024-07-01T10:00:00+00:00".to_string());
    let task = manager.create_task(create).unwrap();
    assert_eq!(task.project_id, Some(project.id));
    assert_eq!(task.due_at_utc, Some(ts(2024, 7, 1, 10, 0, 0)));
    let sub = manager.create_subtask_for_task(task.duplicate(), data("Buy washer")).unwrap();
    assert_eq!(sub.project_id, Some(project.id));
    assert_eq!(manager.repository_provider.task_repository.find_by_project(project.id, false).len(), 2);
}

#[test]
fn subtask_of_an_unknown_parent_fails() {
    let mut manager = setup();
    let stranger = Task::new_with_id(3, ts(2024, 1, 1, 0, 0, 0), "Ghost".to_string(), None, None, None, None);
    assert!(matches!(
        manager.create_subtask_for_task(stranger, data("Child")),
        Err(TaskError::InvalidReference)
    ));
}

#[test]
fn updating_refuses_missing_tasks_and_bad_input() {
    let mut manager = setup();
    let edit = UpdatedTaskData { title: "X".to_string(), description: None, project_id: None, due_date: None };
    assert!(matches!(manager.update_task(1, edit), Err(TaskError::TaskNotFound)));
    let task = manager.create_task(data("Keep")).unwrap();
    let empty = UpdatedTaskData { title: String::new(), description: None, project_id: None, due_date: None };
    assert!(matches!(manager.update_task(task.id, empty), Err(TaskError::InvalidInput)));
    let unknown = UpdatedTaskData {
        title: "Keep".to_string(),
        description: None,
        project_id: Some("550e8400-e29b-41d4-a716-446655440000".to_string()),
        due_date: None,
    };
    assert!(matches!(manager.update_task(task.id, unknown), Err(TaskError::InvalidReference)));
    assert_eq!(manager.load_by_id(task.id).unwrap().title, "Keep");
}

#[test]
fn deleting_is_idempotent_and_drops_the_series() {
    let mut manager = setup();
    let task = manager.create_task(data("Trash")).unwrap();
    setup_series(&mut manager, task.id, Frequency::Daily, 1, Some(ts(2024, 1, 1, 0, 0, 0)));
    manager.delete_task(task.id);
    assert!(manager.load_by_id(task.id).is_none());
    assert!(manager.repository_provider.recurring_task_repository.find_by_task_id(task.id).is_none());
    manager.delete_task(task.id);
    assert!(manager.load_by_id(task.id).is_none());
    assert!(matches!(manager.load_task(task.id), Err(TaskError::TaskNotFound)));
}

#[test]
fn queries_select_the_right_tasks() {
    let mut manager = setup();
    let at = ts(2024, 5, 1, 0, 0, 0);
    let mut early = data("Early");
    early.due_at_utc = Some("2024-05-02T00:00:00Z".to_string());
    let early = manager.create_task_at(early, at, 1).unwrap();
    let mut late = data("Late");
    late.due_at_utc = Some("2024-05-20T00:00:00Z".to_string());
    let late = manager.create_task_at(late, at, 2).unwrap();
    let child = manager.create_subtask_for_task_at(early.duplicate(), data("Child"), at, 3).unwrap();
    let due = manager.load_due_before(ts(2024, 5, 10, 0, 0, 0));
    assert_eq!(due.len(), 1);
    assert_eq!(due[0].id, early.id);
    let inbox = manager.load_inbox();
    assert_eq!(inbox.len(), 2);
    assert!(inbox.iter().all(|t| t.id != child.id));
    manager.complete_task_at(late.id, at, 50).unwrap();
    assert_eq!(manager.load_completed_tasks().len(), 1);
    assert_eq!(manager.load_tasks(false).len(), 2);
    assert_eq!(manager.load_tasks(true).len(), 3);
    manager.complete_task_at(child.id, at, 51).unwrap();
    assert_eq!(manager.load_completed_subtasks_for_task(early.id).len(), 1);
    assert_eq!(manager.load_subtasks_for_task(early.id).len(), 0);
    let series_due = manager.repository_provider.recurring_task_repository.find_due_before(at);
    assert!(series_due.is_empty());
}

#[test]
fn identifiers_parse_and_are_fresh() {
    let text = "550e8400-e29b-41d4-a716-446655440000".to_string();
    assert_eq!(parse_id(&text), Some(0x550e8400_e29b_41d4_a716_446655440000));
    assert_eq!(parse_id(&"550e8400".to_string()), None);
    assert_eq!(parse_optional_id(&None), Ok(None));
    assert_eq!(parse_optional_id(&Some("zz".to_string())), Err(()));
    let a = Task::new("A".to_string(), None, None, None, None);
    let b = Task::new("B".to_string(), None, None, None, None);
    assert_ne!(a.id, b.id);
    assert_eq!(a.created_at_utc, a.updated_at_utc);
    assert!(a.created_at_utc.year >= 2024);
}

#[test]
fn lists_come_in_their_order() {
    let mut manager = setup();
    let due = |title: &str, at: &str| CreateTaskData {
        title: title.to_string(),
        description: None,
        project_id: None,
        due_at_utc: Some(at.to_string()),
    };
    manager.create_task_at(due("middle", "2024-05-03T00:00:00Z"), ts(2024, 5, 1, 2, 0, 0), 1).unwrap();
    manager.create_task_at(due("late", "2024-05-09T00:00:00Z"), ts(2024, 5, 1, 3, 0, 0), 2).unwrap();
    manager.create_task_at(due("early", "2024-05-02T00:00:00Z"), ts(2024, 5, 1, 1, 0, 0), 3).unwrap();
    let by_due: Vec<u128> = manager.load_due_before(ts(2024, 6, 1, 0, 0, 0)).iter().map(|t| t.id).collect();
    assert_eq!(by_due, vec![3, 1, 2]);
    let inbox: Vec<u128> = manager.load_inbox().iter().map(|t| t.id).collect();
    assert_eq!(inbox, vec![2, 1, 3]);
    manager.complete_task_at(3, ts(2024, 5, 4, 0, 0, 0), 90).unwrap();
    manager.complete_task_at(1, ts(2024, 5, 5, 0, 0, 0), 91).unwrap();
    let completed: Vec<u128> = manager.load_completed_tasks().iter().map(|t| t.id).collect();
    assert_eq!(completed, vec![1, 3]);
    let all: Vec<u128> = manager.load_tasks(true).iter().map(|t| t.id).collect();
    assert_eq!(all, vec![1, 3, 2]);
}

#[test]
fn saving_keeps_the_creation_time() {
    let mut manager = setup();
    let created = ts(2024, 1, 1, 8, 0, 0);
    let task = manager.create_task_at(data("Keep"), created, 5).unwrap();
    let mut edited = task.duplicate();
    edited.title = "Kept".to_string();
    edited.created_at_utc = ts(2030, 1, 1, 0, 0, 0);
    let later = ts(2024, 2, 1, 8, 0, 0);
    manager.repository_provider.task_repository.save(&mut edited, later);
    assert_eq!(edited.created_at_utc, created);
    let stored = manager.load_by_id(5).unwrap();
    assert_eq!(stored.title, "Kept");
    assert_eq!(stored.created_at_utc, created);
    assert_eq!(stored.updated_at_utc, later);
}

#[test]
fn setup_of_a_recurring_task_reschedules_in_place_whatever_id_is_drawn() {
    let mut manager = setup();
    let task = manager.create_task_at(data("Read"), ts(2024, 1, 1, 0, 0, 0), 8).unwrap();
    let first = setup_series(&mut manager, task.id, Frequency::Daily, 1, None);
    assert_eq!(first.next_due_at_utc.year >= 2024, true);
    let again = setup_series(&mut manager, task.id, Frequency::Monthly, 3, Some(ts(2024, 5, 5, 5, 0, 0)));
    assert_eq!(again.id, first.id);
    assert_eq!(again.created_at_utc, first.created_at_utc);
    assert_eq!(again.next_due_at_utc, ts(2024, 5, 5, 5, 0, 0));
}

#[test]
fn completing_five_times_leaves_the_task_completed() {
    let mut manager = setup();
    let task = manager.create_task_at(data("Flip"), ts(2024, 1, 1, 0, 0, 0), 1).unwrap();
    for k in 0..5u32 {
        manager.complete_task_at(task.id, ts(2024, 1, 2, k, 0, 0), 100 + k as u128).unwrap();
        let done = manager.load_by_id(task.id).unwrap().completed_at_utc.is_some();
        assert_eq!(done, (k + 1) % 2 == 1);
    }
}
