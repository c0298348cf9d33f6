use my_tasks::calendar::Frequency;
use my_tasks::calendar::Timestamp;
use my_tasks::configuration::ConfigurationMode;
use my_tasks::configuration::Environment;
use my_tasks::error::TaskError;
use my_tasks::recurring_task::CreateRecurringTaskData;
use my_tasks::recurring_task::UpdateRecurringTaskData;
use my_tasks::statistics::activity_level_of;
use my_tasks::statistics::PeriodTaskStatistic;
use my_tasks::task::CreateTaskData;
use my_tasks::task::Task;
use my_tasks::task_manager::RepositoryProvider;
use my_tasks::task_manager::TaskManager;

fn ts(year: i32, month: u32, day: u32, hour: u32) -> Timestamp {
    Timestamp { year, month, day, hour, minute: 0, second: 0, nanosecond: 0 }
}

fn done_at(id: u128, at: Option<Timestamp>) -> Task {
    let mut t = Task::new_with_id(id, ts(2024, 1, 1, 0), "t".to_string(), None, None, None, None);
    t.completed_at_utc = at;
    t
}

#[test]
fn statistics_count_completions_per_day() {
    let mut tasks = Vec::new();
    for i in 0..5u128 {
        tasks.push(done_at(i, Some(ts(2024, 3, 1, i as u32))));
    }
    tasks.push(done_at(10, Some(ts(2024, 3, 2, 23))));
    tasks.push(done_at(11, None));
    let stats = PeriodTaskStatistic::from_tasks(&tasks);
    assert_eq!(stats.len(), 2);
    let first = stats.iter().find(|s| s.day == 1).unwrap();
    assert_eq!(first.statistic.data.completed_tasks, 5);
    assert_eq!(first.statistic.level, 2);
    let second = stats.iter().find(|s| s.day == 2).unwrap();
    assert_eq!(second.statistic.data.completed_tasks, 1);
    assert_eq!(second.statistic.level, 1);
    assert!(PeriodTaskStatistic::from_tasks(&Vec::new()).is_empty());
}

#[test]
fn activity_levels() {
    assert_eq!(activity_level_of(0), 0);
    assert_eq!(activity_level_of(3), 1);
    assert_eq!(activity_level_of(4), 2);
    assert_eq!(activity_level_of(9), 3);
    assert_eq!(activity_level_of(10), 4);
}

#[test]
fn manager_statistics_cover_the_store() {
    let mut manager = TaskManager::new(RepositoryProvider::new());
    let data = |title: &str| CreateTaskData {
        title: title.to_string(),
        description: None,
        project_id: None,
        due_at_utc: None,
    };
    let a = manager.create_task_at(data("a"), ts(2024, 2, 1, 0), 1).unwrap();
    let b = manager.create_task_at(data("b"), ts(2024, 2, 1, 0), 2).unwrap();
    manager.create_task_at(data("c"), ts(2024, 2, 1, 0), 3).unwrap();
    manager.complete_task_at(a.id, ts(2024, 2, 5, 10), 90).unwrap();
    manager.complete_task_at(b.id, ts(2024, 2, 5, 11), 91).unwrap();
    let stats = manager.load_statistics();
    assert_eq!(stats.len(), 1);
    assert_eq!((stats[0].year, stats[0].month, stats[0].day), (2024, 2, 5));
    assert_eq!(stats[0].statistic.data.completed_tasks, 2);
}

#[test]
fn recurrence_requests_are_read_and_checked() {
    let ok = CreateRecurringTaskData {
        task_id: "550e8400-e29b-41d4-a716-446655440000".to_string(),
        frequency: "Weekly".to_string(),
        interval: 2,
    };
    assert_eq!(ok.parse(), Ok((0x550e8400_e29b_41d4_a716_446655440000, Frequency::Weekly, 2)));
    let bad_frequency = UpdateRecurringTaskData {
        task_id: "550e8400-e29b-41d4-a716-446655440000".to_string(),
        frequency: "fortnightly".to_string(),
        interval: 1,
    };
    assert_eq!(bad_frequency.parse(), Err(TaskError::InvalidInput));
    let bad_interval = CreateRecurringTaskData {
        task_id: "550e8400-e29b-41d4-a716-446655440000".to_string(),
        frequency: "daily".to_string(),
        interval: -1,
    };
    assert_eq!(bad_interval.parse(), Err(TaskError::InvalidInput));
    let bad_id = CreateRecurringTaskData { task_id: "x".to_string(), frequency: "daily".to_string(), interval: 1 };
    assert_eq!(bad_id.parse(), Err(TaskError::InvalidInput));
}

#[test]
fn environments_of_modes() {
    assert_eq!(Environment::try_from(ConfigurationMode::Development), Ok(Environment::Development));
    assert_eq!(Environment::try_from(ConfigurationMode::Desktop), Ok(Environment::Production));
    assert_eq!(Environment::try_from(ConfigurationMode::Test), Ok(Environment::Testing));
    assert_eq!(Environment::Production.to_string(), "Production");
}

#[test]
fn storage_locations_of_modes() {
    let test = my_tasks::configuration::storage_location(ConfigurationMode::Test).unwrap();
    assert_eq!(test.configuration_file, ".test-config.toml");
    assert_eq!(test.database_file, "test-file.db");
    assert!(!test.in_home_directory);
    let desktop = my_tasks::configuration::storage_location(ConfigurationMode::Desktop).unwrap();
    assert_eq!(desktop.configuration_file, ".config/.my-tasks/config.toml");
    assert!(desktop.in_home_directory);
    assert!(my_tasks::configuration::storage_location(ConfigurationMode::_IOs).is_none());
}
