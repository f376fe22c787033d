//! Error messages and the context the user interface receives.

use autolaunch::error::{AutoLaunchError, ErrorContext};

#[test]
fn test_error_context_for_all_error_types() {
    let test_cases: Vec<(&str, AutoLaunchError)> = vec![
        ("InvalidUrl", AutoLaunchError::InvalidUrl("bad url".to_string())),
        ("InvalidInput", AutoLaunchError::InvalidInput("bad input".to_string())),
        ("NotFound", AutoLaunchError::NotFound("not found".to_string())),
        ("ProjectAnalysis", AutoLaunchError::ProjectAnalysis("analysis failed".to_string())),
        ("Environment", AutoLaunchError::Environment("env error".to_string())),
        ("Process", AutoLaunchError::Process("process error".to_string())),
        ("Security", AutoLaunchError::Security("security error".to_string())),
    ];

    for (name, error) in test_cases {
        let ctx = ErrorContext::from(error);

        assert!(!ctx.user_friendly_message.is_empty(), "user_friendly_message не должен быть пустым для {}", name);
        assert!(!ctx.error.is_empty(), "error не должен быть пустым для {}", name);

        // Должен сериализоваться (its fields, as the interface receives them)
        let json = serde_json::to_string(&(&ctx.error, &ctx.suggestion, &ctx.user_friendly_message));
        assert!(json.is_ok(), "ErrorContext для {} должен сериализоваться", name);
    }
}

#[test]
fn error_messages_have_their_prefixes() {
    assert_eq!(AutoLaunchError::Git("x".to_string()).to_string(), "Ошибка Git: x");
    assert_eq!(AutoLaunchError::Json("x".to_string()).to_string(), "Ошибка сериализации JSON: x");
    assert_eq!(AutoLaunchError::Database("x".to_string()).to_string(), "Ошибка базы данных: x");
}

#[test]
fn context_of_url_network_and_git_errors() {
    let c = ErrorContext::from_error(AutoLaunchError::InvalidUrl("u".to_string()));
    assert_eq!(c.error, "Невалидный URL: u");
    assert_eq!(c.suggestion.as_deref(), Some("Проверьте правильность URL репозитория"));
    assert_eq!(c.user_friendly_message, "Неверный формат URL репозитория");

    let c = ErrorContext::from_error(AutoLaunchError::Network("n".to_string()));
    assert_eq!(c.suggestion.as_deref(), Some("Проверьте подключение к интернету"));
    assert_eq!(c.user_friendly_message, "Ошибка сетевого подключения");

    let c = ErrorContext::from_error(AutoLaunchError::Git("g".to_string()));
    assert_eq!(c.suggestion.as_deref(), Some("Убедитесь, что репозиторий существует и доступен"));
    assert_eq!(c.user_friendly_message, "Не удалось клонировать репозиторий");

    let c = ErrorContext::from_error(AutoLaunchError::Process("p".to_string()));
    assert!(c.suggestion.is_none());
    assert_eq!(c.user_friendly_message, "Ошибка процесса: p");
}

#[test]
fn conversion_gives_the_full_context() {
    let c = ErrorContext::from(AutoLaunchError::InvalidUrl("u".to_string()));
    assert_eq!(c.suggestion.as_deref(), Some("Проверьте правильность URL репозитория"));
    assert_eq!(c.user_friendly_message, "Неверный формат URL репозитория");
    let e = AutoLaunchError::Process("p".to_string());
    let text = e.to_string();
    let c = ErrorContext::from(e);
    assert_eq!(c.error, text);
    assert_eq!(c.suggestion, None);
    assert_eq!(c.user_friendly_message, text);
}
