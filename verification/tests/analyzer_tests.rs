//! Stack detection, entry commands and dependencies of a project.

use autolaunch::models::{ConfigFileType, Dependency, TechStack};
use autolaunch::project_analyzer::{append_members, ProjectAnalyzer, ProjectFile};
use std::path::PathBuf;

fn file(name: &str, content: Option<&str>) -> ProjectFile {
    ProjectFile { path: PathBuf::from(name), name: name.to_string(), content: content.map(|c| c.to_string()) }
}

fn stack_of(names: &[&str]) -> TechStack {
    let files: Vec<ProjectFile> = names.iter().map(|n| file(n, None)).collect();
    ProjectAnalyzer::new().detect_stack(&files)
}

#[test]
fn detect_stack_by_marker_files() {
    assert!(matches!(stack_of(&["index.js", "package.json"]), TechStack::NodeJs { version: None }));
    assert!(matches!(stack_of(&["requirements.txt", "main.py"]), TechStack::Python { .. }));
    assert!(matches!(stack_of(&["setup.py"]), TechStack::Python { .. }));
    assert!(matches!(stack_of(&["Cargo.toml", "main.rs"]), TechStack::Rust { .. }));
    assert!(matches!(stack_of(&["go.mod"]), TechStack::Go { .. }));
    assert!(matches!(stack_of(&["build.gradle"]), TechStack::Java { .. }));
    assert!(matches!(stack_of(&["Dockerfile"]), TechStack::Docker { compose: false }));
    assert!(matches!(stack_of(&["docker-compose.yaml"]), TechStack::Docker { compose: true }));
    assert!(matches!(stack_of(&["README.md"]), TechStack::Unknown));
}

#[test]
fn first_marker_wins() {
    assert!(matches!(stack_of(&["go.mod", "package.json"]), TechStack::Go { .. }));
    assert!(matches!(stack_of(&["package.json", "go.mod"]), TechStack::NodeJs { .. }));
}

#[test]
fn static_sites() {
    assert!(matches!(stack_of(&["index.html"]), TechStack::Static { framework: None }));
    assert!(matches!(stack_of(&["style.css", "app.js"]), TechStack::Static { .. }));
    assert!(matches!(stack_of(&["style.css"]), TechStack::Unknown));
    assert!(matches!(stack_of(&[".html"]), TechStack::Unknown));
}

#[test]
fn config_files_in_order() {
    let files = vec![file("package.json", None), file("README.md", None), file("docker-compose.yml", None)];
    let configs = ProjectAnalyzer::new().find_config_files(&files);
    let kinds: Vec<ConfigFileType> = configs.iter().map(|c| c.file_type).collect();
    assert_eq!(kinds, vec![ConfigFileType::PackageJson, ConfigFileType::DockerCompose]);
    assert_eq!(configs[0].path, PathBuf::from("package.json"));
    assert_eq!(configs[1].path, PathBuf::from("docker-compose.yml"));
}

#[test]
fn nodejs_entry_point_from_start_script() {
    let a = ProjectAnalyzer::new();
    let files = vec![file("package.json", Some(r#"{"name": "test", "scripts": {"start": "npm run dev"}}"#))];
    let stack = TechStack::NodeJs { version: None };
    assert_eq!(a.find_entry_point(&stack, &files, true, false, false).unwrap(), Some("npm run dev".to_string()));
    let no_script = vec![file("package.json", Some(r#"{"name": "test"}"#))];
    assert_eq!(a.find_entry_point(&stack, &no_script, true, false, false).unwrap(), Some("node index.js".to_string()));
    assert_eq!(a.find_entry_point(&stack, &no_script, false, false, false).unwrap(), None);
}

#[test]
fn entry_points_of_other_stacks() {
    let a = ProjectAnalyzer::new();
    let none: Vec<ProjectFile> = vec![];
    let py = TechStack::Python { version: None };
    assert_eq!(a.find_entry_point(&py, &none, false, true, true).unwrap(), Some("python main.py".to_string()));
    assert_eq!(a.find_entry_point(&py, &none, false, false, true).unwrap(), Some("python app.py".to_string()));
    assert_eq!(a.find_entry_point(&py, &none, false, false, false).unwrap(), None);
    assert_eq!(
        a.find_entry_point(&TechStack::Rust { edition: None }, &none, false, false, false).unwrap(),
        Some("cargo run".to_string())
    );
    assert_eq!(
        a.find_entry_point(&TechStack::Go { version: None }, &none, false, false, false).unwrap(),
        Some("go run .".to_string())
    );
    assert_eq!(
        a.find_entry_point(&TechStack::Docker { compose: true }, &none, false, false, false).unwrap(),
        Some("docker-compose up".to_string())
    );
    assert_eq!(a.find_entry_point(&TechStack::Unknown, &none, true, true, true).unwrap(), None);
}

#[test]
fn requirements_lines() {
    let deps = ProjectAnalyzer::parse_requirements("flask==2.0.0\nrequests>=2.25.0\n# comment\nnumpy\n\n  a==1==2  \r\n");
    let view: Vec<(String, Option<String>)> = deps.iter().map(|d| (d.name.clone(), d.version.clone())).collect();
    assert_eq!(
        view,
        vec![
            ("flask".to_string(), Some("2.0.0".to_string())),
            ("requests>=2.25.0".to_string(), None),
            ("numpy".to_string(), None),
            ("a".to_string(), Some("1".to_string())),
        ]
    );
    assert!(deps.iter().all(|d| !d.dev));
}

#[test]
fn package_json_dependencies() {
    let a = ProjectAnalyzer::new();
    let files = vec![file(
        "package.json",
        Some(r#"{"dependencies": {"react": "^18.0.0", "lodash": "4.17.21"}, "devDependencies": {"typescript": "^5.0.0"}}"#),
    )];
    let deps = a.parse_dependencies(&files).unwrap();
    assert_eq!(deps.len(), 3);
    let react = deps.iter().find(|d| d.name == "react").unwrap();
    assert_eq!(react.version, Some("^18.0.0".to_string()));
    assert!(!react.dev);
    assert!(deps.iter().find(|d| d.name == "typescript").unwrap().dev);
}

#[test]
fn analyze_project_full() {
    let a = ProjectAnalyzer::new();
    let files = vec![
        file(
            "package.json",
            Some(r#"{"name": "test-app", "scripts": {"start": "node server.js"}, "dependencies": {"express": "^4.18.0"}}"#),
        ),
        file("server.js", None),
    ];
    let info = a.analyze_project(&files, false, false, false).unwrap();
    assert!(matches!(info.stack, TechStack::NodeJs { .. }));
    assert_eq!(info.entry_command, Some("node server.js".to_string()));
    assert_eq!(info.dependencies.len(), 1);
    assert_eq!(info.config_files.len(), 1);
    assert!(info.security_warnings.is_empty());
}

#[test]
fn skipped_directories() {
    for name in ["node_modules", ".git", "target", "__pycache__", ".venv", "venv"] {
        assert!(ProjectAnalyzer::should_skip_directory(name));
    }
    assert!(!ProjectAnalyzer::should_skip_directory("src"));
    assert!(!ProjectAnalyzer::should_skip_directory("dist"));
}

#[test]
fn dependency_table_members_become_dependencies() {
    let mut deps: Vec<Dependency> = vec![];
    append_members(&mut deps, Some(vec![("react".to_string(), Some("^18".to_string())), ("x".to_string(), None)]), false);
    append_members(&mut deps, None, true);
    append_members(&mut deps, Some(vec![("jest".to_string(), Some("29".to_string()))]), true);
    assert_eq!(deps.len(), 3);
    assert_eq!(deps[0].name, "react");
    assert_eq!(deps[0].version.as_deref(), Some("^18"));
    assert!(!deps[0].dev);
    assert_eq!(deps[1].version, None);
    assert_eq!(deps[2].name, "jest");
    assert!(deps[2].dev);
}
