//! Docker configuration, Dockerfiles and environments.

use autolaunch::environment_manager::{
    DockerConfig, Environment, EnvironmentManager, IsolationMode, SetupStep, VirtualEnvConfig,
};
use autolaunch::models::{EnvironmentType, ProjectInfo, TechStack, TrustLevel};
use std::path::PathBuf;

fn create_test_project_info(stack: TechStack) -> ProjectInfo {
    ProjectInfo {
        stack,
        entry_command: Some("npm start".to_string()),
        dependencies: vec![],
        config_files: vec![],
        security_warnings: vec![],
        trust_level: TrustLevel::Unknown,
    }
}

#[test]
fn test_docker_config_has_security_restrictions() {
    let manager = EnvironmentManager::new();
    let project = create_test_project_info(TechStack::NodeJs { version: Some("18".to_string()) });
    
    let config = manager.generate_docker_config(&project).unwrap();
    
    // Требование 4.2: Проверяем что включены ограничения безопасности
    assert!(config.no_root, "Docker контейнер должен работать без root прав");
    assert!(config.read_only, "Docker контейнер должен иметь read-only файловую систему");
}

#[test]
fn test_docker_config_for_nodejs() {
    let manager = EnvironmentManager::new();
    let project = create_test_project_info(TechStack::NodeJs { version: Some("18".to_string()) });
    
    let config = manager.generate_docker_config(&project).unwrap();
    
    assert!(config.image.contains("node:18"));
    assert_eq!(config.working_dir, "/app");
    assert!(config.ports.contains(&3000));
}

#[test]
fn test_docker_config_for_python() {
    let manager = EnvironmentManager::new();
    let project = create_test_project_info(TechStack::Python { version: Some("3.11".to_string()) });
    
    let config = manager.generate_docker_config(&project).unwrap();
    
    assert!(config.image.contains("python:3.11"));
    assert_eq!(config.working_dir, "/app");
    assert!(config.ports.contains(&5000));
}

#[test]
fn test_docker_config_for_rust() {
    let manager = EnvironmentManager::new();
    let project = create_test_project_info(TechStack::Rust { edition: Some("2021".to_string()) });
    
    let config = manager.generate_docker_config(&project).unwrap();
    
    assert!(config.image.contains("rust"));
    assert_eq!(config.working_dir, "/app");
}

#[test]
fn test_generate_dockerfile_nodejs() {
    let manager = EnvironmentManager::new();
    let project = create_test_project_info(TechStack::NodeJs { version: Some("18".to_string()) });
    
    let dockerfile = manager.generate_dockerfile(&project).unwrap();
    
    assert!(dockerfile.contains("FROM node:18-alpine"));
    assert!(dockerfile.contains("WORKDIR /app"));
    assert!(dockerfile.contains("npm install"));
    assert!(dockerfile.contains("EXPOSE"));
}

#[test]
fn test_generate_dockerfile_python() {
    let manager = EnvironmentManager::new();
    let project = create_test_project_info(TechStack::Python { version: Some("3.11".to_string()) });
    
    let dockerfile = manager.generate_dockerfile(&project).unwrap();
    
    assert!(dockerfile.contains("FROM python:3.11-alpine"));
    assert!(dockerfile.contains("WORKDIR /app"));
    assert!(dockerfile.contains("pip install"));
    assert!(dockerfile.contains("requirements.txt"));
}

#[test]
fn test_isolation_mode_variants() {
    let docker_config = DockerConfig {
        image: "test:latest".to_string(),
        working_dir: "/app".to_string(),
        ports: vec![8080],
        volumes: vec![],
        environment: vec![],
        read_only: true,
        no_root: true,
    };

    let sandbox_mode = IsolationMode::Sandbox(docker_config);
    
    match sandbox_mode {
        IsolationMode::Sandbox(config) => {
            assert!(config.read_only);
            assert!(config.no_root);
        }
        _ => panic!("Ожидался режим Sandbox"),
    }
}

#[test]
fn test_virtual_env_config() {
    let config = VirtualEnvConfig {
        working_dir: PathBuf::from("/test/path"),
        env_vars: vec![
            ("PATH".to_string(), "/usr/bin".to_string()),
        ],
    };

    assert_eq!(config.working_dir, PathBuf::from("/test/path"));
    assert_eq!(config.env_vars.len(), 1);
}

#[test]
fn test_environment_structure() {
    let env = Environment {
        id: "test-123".to_string(),
        mode: IsolationMode::Direct(VirtualEnvConfig {
            working_dir: PathBuf::from("/test"),
            env_vars: vec![],
        }),
        working_dir: PathBuf::from("/test"),
        container_id: None,
    };

    assert_eq!(env.id, "test-123");
    assert!(env.container_id.is_none());
}

#[test]
fn docker_config_defaults_and_versions() {
    let manager = EnvironmentManager::new();
    let node = manager.generate_docker_config(&create_test_project_info(TechStack::NodeJs { version: None })).unwrap();
    assert_eq!(node.image, "node:18-alpine");
    assert_eq!(node.ports, vec![3000, 8000, 8080]);
    assert_eq!(node.volumes, vec![("./".to_string(), "/app".to_string())]);
    assert_eq!(node.environment, vec![("NODE_ENV".to_string(), "development".to_string())]);

    let python = manager.generate_docker_config(&create_test_project_info(TechStack::Python { version: None })).unwrap();
    assert_eq!(python.image, "python:3.11-alpine");
    assert_eq!(python.ports, vec![5000, 8000, 8080]);

    let go = manager.generate_docker_config(&create_test_project_info(TechStack::Go { version: None })).unwrap();
    assert_eq!(go.image, "golang:alpine");
    assert_eq!(go.ports, vec![8000, 8080]);

    let other = manager.generate_docker_config(&create_test_project_info(TechStack::Unknown)).unwrap();
    assert_eq!(other.image, "alpine:latest");
}

#[test]
fn dockerfile_texts_are_exact() {
    let manager = EnvironmentManager::new();
    let rust = manager.generate_dockerfile(&create_test_project_info(TechStack::Rust { edition: None })).unwrap();
    assert_eq!(
        rust,
        "FROM rust:alpine\nWORKDIR /app\nCOPY Cargo.toml Cargo.lock ./\nCOPY src ./src\nRUN cargo build --release\nEXPOSE 8000 8080\nCMD [\"./target/release/app\"]\n"
    );
    let go = manager.generate_dockerfile(&create_test_project_info(TechStack::Go { version: None })).unwrap();
    assert_eq!(go, "FROM golang:alpine\nWORKDIR /app\nCOPY . .\nEXPOSE 8000 8080\nCMD [\"sh\"]\n");
    let node = manager
        .generate_dockerfile(&create_test_project_info(TechStack::NodeJs { version: Some("20".to_string()) }))
        .unwrap();
    assert!(node.starts_with("FROM node:20-alpine\n"));
    assert!(node.ends_with("CMD [\"npm\", \"start\"]\n"));
}

#[test]
fn docker_create_args_carry_every_restriction() {
    let manager = EnvironmentManager::new();
    let config = manager.generate_docker_config(&create_test_project_info(TechStack::NodeJs { version: None })).unwrap();
    let tag = EnvironmentManager::image_tag("e1");
    assert_eq!(tag, "autolaunch-e1");
    let args = EnvironmentManager::docker_create_args("e1", &config, &tag);
    let expected: Vec<&str> = vec![
        "create", "--name", "autolaunch-container-e1", "--rm", "--security-opt", "no-new-privileges",
        "--cap-drop", "ALL", "--user", "1000:1000", "--read-only", "--tmpfs",
        "/tmp:rw,noexec,nosuid,size=100m", "-p", "3000:3000", "-p", "8000:8000", "-p", "8080:8080", "-v",
        "./:/app:ro", "-e", "NODE_ENV=development", "autolaunch-e1",
    ];
    assert_eq!(args, expected);
}

#[test]
fn docker_create_args_without_restrictions() {
    let config = DockerConfig {
        image: "x".to_string(),
        working_dir: "/w".to_string(),
        ports: vec![1],
        volumes: vec![("a".to_string(), "b".to_string())],
        environment: vec![],
        read_only: false,
        no_root: false,
    };
    let args = EnvironmentManager::docker_create_args("id", &config, "img");
    let expected: Vec<&str> = vec![
        "create", "--name", "autolaunch-container-id", "--rm", "--security-opt", "no-new-privileges",
        "--cap-drop", "ALL", "-p", "1:1", "-v", "a:b", "img",
    ];
    assert_eq!(args, expected);
}

#[test]
fn docker_build_args_are_exact() {
    let args = EnvironmentManager::docker_build_args("autolaunch-e1");
    assert_eq!(args, vec!["build", "-t", "autolaunch-e1", "-f", "Dockerfile.autolaunch", "."]);
}

#[test]
fn sandbox_is_chosen_whenever_docker_is_available() {
    for trust in [TrustLevel::Unknown, TrustLevel::Untrusted, TrustLevel::Trusted] {
        assert_eq!(EnvironmentManager::select_environment_type(true, trust), EnvironmentType::Docker);
        assert_eq!(EnvironmentManager::select_environment_type(false, trust), EnvironmentType::Direct);
    }
    assert!(EnvironmentManager::sandbox_required(TrustLevel::Unknown));
    assert!(EnvironmentManager::sandbox_required(TrustLevel::Untrusted));
    assert!(!EnvironmentManager::sandbox_required(TrustLevel::Trusted));
}

#[test]
fn sandbox_environment_trims_container_id() {
    let config = EnvironmentManager::new()
        .generate_docker_config(&create_test_project_info(TechStack::Unknown))
        .unwrap();
    let env = EnvironmentManager::sandbox_environment("e".to_string(), config, PathBuf::from("/p"), "abc123\n");
    assert_eq!(env.container_id.as_deref(), Some("abc123"));
    assert!(matches!(env.mode, IsolationMode::Sandbox(_)));
    let direct = EnvironmentManager::direct_environment("d".to_string(), PathBuf::from("/p"));
    assert!(direct.container_id.is_none());
    match direct.mode {
        IsolationMode::Direct(c) => {
            assert_eq!(c.working_dir, PathBuf::from("/p"));
            assert!(c.env_vars.is_empty());
        }
        _ => panic!("direct environment expected"),
    }
}

#[test]
fn setup_steps_follow_the_stack() {
    let python = TechStack::Python { version: None };
    assert_eq!(
        EnvironmentManager::direct_setup_steps(&python, false),
        vec![SetupStep::CreatePythonVenv, SetupStep::InstallPythonDependencies]
    );
    assert_eq!(EnvironmentManager::direct_setup_steps(&python, true), vec![SetupStep::InstallPythonDependencies]);
    assert_eq!(
        EnvironmentManager::direct_setup_steps(&TechStack::NodeJs { version: None }, false),
        vec![SetupStep::InstallNodeDependencies]
    );
    assert!(EnvironmentManager::direct_setup_steps(&TechStack::Unknown, false).is_empty());
}

#[test]
fn dependency_steps_only_for_direct_runs() {
    let direct = EnvironmentManager::direct_environment("d".to_string(), PathBuf::from("/p"));
    assert_eq!(
        EnvironmentManager::dependency_install_steps(&direct, 2, true, true),
        vec![SetupStep::InstallPythonDependencies, SetupStep::InstallNodeDependencies]
    );
    assert!(EnvironmentManager::dependency_install_steps(&direct, 0, true, true).is_empty());
    let config = EnvironmentManager::new()
        .generate_docker_config(&create_test_project_info(TechStack::Unknown))
        .unwrap();
    let sandbox = EnvironmentManager::sandbox_environment("s".to_string(), config, PathBuf::from("/p"), "c");
    assert!(EnvironmentManager::dependency_install_steps(&sandbox, 2, true, true).is_empty());
}
