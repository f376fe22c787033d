//! The project history: records, tags and launch messages.

use autolaunch::models::{Project, TechStack, TrustLevel};
use autolaunch::project_manager::{
    browser_outcome, clone_dir_name, filter_projects_by_tags, get_all_tags, get_project_tags, launch_message,
    new_project, project_missing, project_not_found, project_not_running, snapshot_launch_message, start_command,
    update_project_last_run, update_project_tags,
};
use autolaunch::url_parser::GitHubUrlParser;

fn make_project(owner: &str, repo: &str, tags: &str) -> Project {
    Project {
        id: format!("{}-{}", owner, repo),
        github_url: format!("https://github.com/{}/{}", owner, repo),
        owner: owner.to_string(),
        repo_name: repo.to_string(),
        local_path: format!("/tmp/{}/{}", owner, repo),
        detected_stack: "NodeJs(18)".to_string(),
        trust_level: TrustLevel::Unknown.to_string(),
        created_at: "2024-01-01T00:00:00+00:00".to_string(),
        last_run_at: None,
        tags: tags.to_string(),
    }
}

#[test]
fn new_project_record_from_repository() {
    let info = GitHubUrlParser::parse("facebook/react").unwrap();
    let p = new_project(&info, "/tmp/autolaunch/facebook_react".to_string(), &TechStack::NodeJs { version: None });
    assert_eq!(p.github_url, "https://github.com/facebook/react");
    assert_eq!(p.owner, "facebook");
    assert_eq!(p.repo_name, "react");
    assert_eq!(p.detected_stack, "NodeJs(unknown)");
    assert_eq!(p.trust_level, "Unknown");
    assert_eq!(p.tags, "[]");
    assert!(p.last_run_at.is_none());
    assert!(!p.id.is_empty());
    assert!(!p.created_at.is_empty());
}

#[test]
fn tags_are_saved_and_read_back() {
    let p = make_project("a", "b", "[]");
    assert!(get_project_tags(&p).is_empty());
    let tagged = update_project_tags(p, &vec!["web".to_string(), "rust".to_string()]);
    assert_eq!(tagged.tags, "[\"web\",\"rust\"]");
    assert_eq!(get_project_tags(&tagged), vec!["web".to_string(), "rust".to_string()]);
    assert_eq!(tagged.owner, "a");
    let broken = make_project("a", "b", "not json");
    assert!(get_project_tags(&broken).is_empty());
}

#[test]
fn filter_keeps_projects_with_any_tag() {
    let projects = vec![
        make_project("a", "one", "[\"web\"]"),
        make_project("b", "two", "[\"cli\", \"rust\"]"),
        make_project("c", "three", "[]"),
        make_project("d", "four", "oops"),
    ];
    let found = filter_projects_by_tags(&projects, &vec!["rust".to_string(), "web".to_string()]);
    let names: Vec<&str> = found.iter().map(|p| p.repo_name.as_str()).collect();
    assert_eq!(names, vec!["one", "two"]);
    assert!(filter_projects_by_tags(&projects, &vec![]).is_empty());
}

#[test]
fn all_tags_are_unique_and_sorted() {
    let projects = vec![
        make_project("a", "one", "[\"web\", \"b\"]"),
        make_project("b", "two", "[\"a\", \"web\", \"B\"]"),
        make_project("c", "three", "[\"ab\", \"\"]"),
    ];
    assert_eq!(
        get_all_tags(&projects),
        vec!["".to_string(), "B".to_string(), "a".to_string(), "ab".to_string(), "b".to_string(), "web".to_string()]
    );
    assert!(get_all_tags(&vec![]).is_empty());
}

#[test]
fn last_run_is_set() {
    let p = update_project_last_run(make_project("a", "b", "[]"));
    assert!(p.last_run_at.is_some());
    assert_eq!(p.repo_name, "b");
}

#[test]
fn launch_messages() {
    assert_eq!(
        launch_message("p1", Some(3000), true),
        "Проект успешно запущен! ID процесса: p1. Приложение доступно на http://localhost:3000"
    );
    assert_eq!(
        launch_message("p1", Some(8080), false),
        "Проект успешно запущен! ID процесса: p1. Ожидается запуск на порту 8080"
    );
    assert_eq!(launch_message("p1", None, false), "Проект успешно запущен! ID процесса: p1.");
    assert_eq!(snapshot_launch_message("p2"), "Проект запущен из снимка! ID процесса: p2");
}

#[test]
fn start_command_falls_back_to_a_notice() {
    assert_eq!(start_command(&Some("npm start".to_string())), "npm start");
    assert_eq!(start_command(&None), "echo 'Команда запуска не определена'");
    assert_eq!(clone_dir_name("facebook", "react"), "facebook_react");
}

#[test]
fn browser_outcomes() {
    let ok = browser_outcome(Some(3000), true);
    assert!(ok.success);
    assert_eq!(ok.url.as_deref(), Some("http://localhost:3000"));
    assert_eq!(ok.message, "Браузер открыт на http://localhost:3000");
    let late = browser_outcome(Some(3000), false);
    assert!(!late.success);
    assert!(late.message.starts_with("Приложение не запустилось на ожидаемом порту 3000."));
    let none = browser_outcome(None, false);
    assert!(!none.success);
    assert!(none.port.is_none());
}

#[test]
fn project_errors() {
    assert_eq!(project_not_found().to_string(), "Ошибка анализа проекта: Проект не найден");
    assert_eq!(project_missing("x").to_string(), "Не найдено: Проект x не найден");
    assert_eq!(project_not_running().to_string(), "Ошибка процесса: Проект не запущен");
}
