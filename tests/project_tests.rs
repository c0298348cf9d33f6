use chrono::Datelike;
use chrono::Timelike;
use my_tasks::calendar::Timestamp;
use my_tasks::task::Task;
use my_tasks::task_repository::TaskRepository;
use my_tasks::error::ErrorResponse;
use my_tasks::error::TaskError;
use my_tasks::project::ProjectRepository;
use my_tasks::project::ProjectsManager;

fn utc_now() -> Timestamp {
    let t = chrono::Utc::now();
    Timestamp {
        year: t.year(),
        month: t.month(),
        day: t.day(),
        hour: t.hour(),
        minute: t.minute(),
        second: t.second(),
        nanosecond: t.nanosecond(),
    }
}

#[test]
fn it_creates_a_project() {
    let title = String::from("Test Project");
    let mut project_repository = ProjectRepository::new();
    let project = ProjectsManager::create_project(&mut project_repository, title, None, None, None).unwrap();
    assert_eq!(project.title, "Test Project");
    assert!(project.description.is_none());
    assert!(project.emoji.is_none());
    assert!(project.color.is_none());
    assert!(uuid::Uuid::from_u128(project.id).to_string().len() > 0);
    assert!(project.created_at_utc.rank_value() <= utc_now().rank_value());
    assert!(project.updated_at_utc.rank_value() <= utc_now().rank_value());
    assert!(project.archived_at_utc.is_none());
}

#[test]
fn it_updates_a_project() {
    let mut project_repository = ProjectRepository::new();
    let project =
        ProjectsManager::create_project(&mut project_repository, "Test Project".to_string(), None, None, None)
            .unwrap();
    let updated_project = ProjectsManager::update_project(
        &mut project_repository,
        project.id,
        "A new Title".to_string(),
        Some("🧪".to_string()),
        None,
        None,
    )
    .unwrap();
    assert_eq!(updated_project.title, "A new Title");
    assert_eq!(updated_project.emoji, Some("🧪".to_string()));
    assert!(updated_project.color.is_none());
    assert!(updated_project.description.is_none());
    assert_ne!(updated_project.updated_at_utc, updated_project.created_at_utc);
    assert_ne!(updated_project.updated_at_utc, project.updated_at_utc);
}

#[test]
fn it_archives_a_project() {
    let mut project_repository = ProjectRepository::new();
    let project =
        ProjectsManager::create_project(&mut project_repository, "Test Project".to_string(), None, None, None)
            .unwrap();
    let archived_project = ProjectsManager::archive_project(&mut project_repository, project.id).unwrap();
    assert!(archived_project.archived_at_utc.is_some());
}

#[test]
fn it_favorites_and_unfavorites_a_project() {
    let mut project_repository = ProjectRepository::new();
    let project =
        ProjectsManager::create_project(&mut project_repository, "Test Project".to_string(), None, None, None)
            .unwrap();
    assert!(!project.is_favorite);
    let favorite_project = ProjectsManager::add_favorite(&mut project_repository, project.id).unwrap();
    assert_eq!(project.id, favorite_project.id);
    assert!(favorite_project.is_favorite);
    let unfavorited_project =
        ProjectsManager::remove_favorite(&mut project_repository, favorite_project.id).unwrap();
    assert_eq!(favorite_project.id, unfavorited_project.id);
    assert!(!unfavorited_project.is_favorite);
}

#[test]
fn project_queries_and_missing_projects() {
    let mut repository = ProjectRepository::new();
    let a = ProjectsManager::create_project(&mut repository, "A".to_string(), None, None, None).unwrap();
    let b = ProjectsManager::create_project(&mut repository, "B".to_string(), None, None, None).unwrap();
    ProjectsManager::archive_project(&mut repository, a.id).unwrap();
    ProjectsManager::add_favorite(&mut repository, b.id).unwrap();
    assert_eq!(ProjectsManager::load_all(&repository, true).len(), 2);
    let active = ProjectsManager::load_all(&repository, false);
    assert_eq!(active.len(), 1);
    assert_eq!(active[0].id, b.id);
    assert_eq!(ProjectsManager::load_favorites(&repository).len(), 1);
    let missing = ProjectsManager::archive_project(&mut repository, 12345);
    assert!(matches!(missing, Err(TaskError::ProjectNotFound)));
}

#[test]
fn error_response_keeps_its_parts() {
    let r = ErrorResponse::new("complete_task".to_string(), "Task not found".to_string(), "Oops".to_string());
    assert_eq!(r.command, "complete_task");
    assert_eq!(r.message, "Task not found");
    assert_eq!(r.display_message, "Oops");
}

#[test]
fn tasks_are_joined_with_their_projects() {
    let mut repository = ProjectRepository::new();
    let p = ProjectsManager::create_project(&mut repository, "Garden".to_string(), None, None, None).unwrap();
    let at = Timestamp { year: 2024, month: 1, day: 1, hour: 0, minute: 0, second: 0, nanosecond: 0 };
    let tasks = vec![
        Task::new_with_id(1, at, "in garden".to_string(), None, Some(p.id), None, None),
        Task::new_with_id(2, at, "inbox".to_string(), None, None, None, None),
        Task::new_with_id(3, at, "gone".to_string(), None, Some(p.id + 1), None, None),
    ];
    let projects = repository.load_projects_for_tasks(&tasks);
    assert_eq!(projects.len(), 3);
    assert_eq!(projects[0].as_ref().map(|x| x.id), Some(p.id));
    assert!(projects[1].is_none());
    assert!(projects[2].is_none());
    let detail = ProjectsManager::load_project_detail(&repository, &TaskRepository::new(), p.id).unwrap();
    assert_eq!(detail.project.title, "Garden");
    assert!(detail.tasks.is_empty());
}
