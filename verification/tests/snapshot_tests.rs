//! Snapshots: exclusions, metadata and expiry.

use autolaunch::error::AutoLaunchError;
use autolaunch::models::{Dependency, EnvironmentType, ProjectInfo, TechStack, TrustLevel};
use autolaunch::snapshot_manager::SnapshotManager;
use std::path::PathBuf;

#[test]
fn dependency_and_build_directories_are_excluded() {
    for name in [".git", "node_modules", "target", "__pycache__", ".venv", "venv", "dist", "build", ".cache"] {
        assert!(SnapshotManager::is_excluded(name), "{}", name);
    }
    // Only whole names are left out.
    assert!(!SnapshotManager::is_excluded("builder.js"));
    assert!(!SnapshotManager::is_excluded(".gitignore"));
    assert!(!SnapshotManager::is_excluded("distance.py"));
    assert!(!SnapshotManager::is_excluded("my_build_notes.txt"));
    assert!(!SnapshotManager::is_excluded("src"));
    assert!(!SnapshotManager::is_excluded("package.json"));
}

#[test]
fn metadata_records_the_project() {
    let info = ProjectInfo {
        stack: TechStack::NodeJs { version: Some("18".to_string()) },
        entry_command: Some("npm start".to_string()),
        dependencies: vec![Dependency { name: "react".to_string(), version: Some("^18".to_string()), dev: false }],
        config_files: vec![],
        security_warnings: vec![],
        trust_level: TrustLevel::Unknown,
    };
    let m = SnapshotManager::snapshot_metadata(&info, vec![3000], vec![("A".to_string(), "1".to_string())]);
    assert_eq!(m.entry_command.as_deref(), Some("npm start"));
    assert_eq!(m.ports, vec![3000]);
    assert_eq!(m.environment_variables, vec![("A".to_string(), "1".to_string())]);
    assert_eq!(m.dependencies.len(), 1);
    assert_eq!(m.dependencies[0].name, "react");
    assert_eq!(m.tech_stack, "NodeJs(18)");
}

#[test]
fn environment_type_names() {
    assert_eq!(SnapshotManager::environment_type_name(EnvironmentType::Docker), "docker");
    assert_eq!(SnapshotManager::environment_type_name(EnvironmentType::Direct), "direct");
}

#[test]
fn expiry_is_strictly_after_the_limit() {
    let day = 86_400;
    assert!(!SnapshotManager::is_snapshot_expired(30 * day, 0, 30));
    assert!(SnapshotManager::is_snapshot_expired(30 * day, 1, 30));
    assert!(SnapshotManager::is_snapshot_expired(30 * day + 1, 0, 30));
    assert!(!SnapshotManager::is_snapshot_expired(-5, 0, 0));
    assert!(SnapshotManager::is_snapshot_expired(0, 1, 0));
}

#[test]
fn missing_snapshot_error() {
    let e = SnapshotManager::snapshot_not_found("abc");
    assert_eq!(e.to_string(), "Ошибка ввода-вывода: Снимок не найден: abc");
}

#[test]
fn snapshot_dirs_live_under_the_store() {
    let m = SnapshotManager::with_dir(PathBuf::from("/store"));
    assert_eq!(m.snapshot_dir("s1"), PathBuf::from("/store/s1"));
    assert_eq!(m.snapshots_dir(), &PathBuf::from("/store"));
}

#[test]
fn different_ids_have_different_directories() {
    let m = SnapshotManager::with_dir(PathBuf::from("/store"));
    let a = m.snapshot_dir("0b6f1c2e-aaaa-4bbb-8ccc-000000000001");
    let b = m.snapshot_dir("0b6f1c2e-aaaa-4bbb-8ccc-000000000002");
    assert_ne!(a, b);
    assert!(a.starts_with("/store"));
}

#[test]
fn snapshots_live_in_the_data_directory() {
    let m = SnapshotManager::with_data_dir(Some(PathBuf::from("/data"))).unwrap();
    assert_eq!(m.snapshots_dir(), &PathBuf::from("/data/autolaunch/snapshots"));
    match SnapshotManager::with_data_dir(None) {
        Err(AutoLaunchError::Io(detail)) => assert_eq!(detail, "Не удалось найти директорию данных"),
        _ => panic!("expected the missing data directory"),
    }
}

#[test]
fn snapshot_record_names_its_directory() {
    let m = SnapshotManager::with_dir(PathBuf::from("/store"));
    let s = m.snapshot_record("s1".to_string(), "p1", EnvironmentType::Docker, "{}".to_string(), "now".to_string(), 42);
    assert_eq!(s.id, "s1");
    assert_eq!(s.project_id, "p1");
    assert_eq!(s.snapshot_path, "/store/s1");
    assert_eq!(s.environment_type, "docker");
    assert_eq!(s.metadata, "{}");
    assert_eq!(s.created_at, "now");
    assert_eq!(s.size_bytes, 42);
}
