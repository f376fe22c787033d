//! Domain errors and their user-facing context.

use vstd::prelude::*;

verus! {

/// The errors of AutoLaunch. Errors that come from storage, the file system,
/// the network, git or JSON carry the message of the underlying error.
#[derive(Debug, Clone)]
pub enum AutoLaunchError {
    ProjectAnalysis(String),
    Environment(String),
    Process(String),
    Security(String),
    Database(String),
    Io(String),
    Network(String),
    Git(String),
    InvalidUrl(String),
    InvalidInput(String),
    NotFound(String),
    Json(String),
}

impl AutoLaunchError {
    /// The detail text that the error carries.
    pub open spec fn detail(self) -> Seq<char> {
        match self {
            AutoLaunchError::ProjectAnalysis(s) => s@,
            AutoLaunchError::Environment(s) => s@,
            AutoLaunchError::Process(s) => s@,
            AutoLaunchError::Security(s) => s@,
            AutoLaunchError::Database(s) => s@,
            AutoLaunchError::Io(s) => s@,
            AutoLaunchError::Network(s) => s@,
            AutoLaunchError::Git(s) => s@,
            AutoLaunchError::InvalidUrl(s) => s@,
            AutoLaunchError::InvalidInput(s) => s@,
            AutoLaunchError::NotFound(s) => s@,
            AutoLaunchError::Json(s) => s@,
        }
    }

    /// The prefix that the displayed message puts before the detail.
    pub open spec fn prefix(self) -> Seq<char> {
        match self {
            AutoLaunchError::ProjectAnalysis(_) => "Ошибка анализа проекта: "@,
            AutoLaunchError::Environment(_) => "Ошибка окружения: "@,
            AutoLaunchError::Process(_) => "Ошибка процесса: "@,
            AutoLaunchError::Security(_) => "Ошибка безопасности: "@,
            AutoLaunchError::Database(_) => "Ошибка базы данных: "@,
            AutoLaunchError::Io(_) => "Ошибка ввода-вывода: "@,
            AutoLaunchError::Network(_) => "Ошибка сети: "@,
            AutoLaunchError::Git(_) => "Ошибка Git: "@,
            AutoLaunchError::InvalidUrl(_) => "Невалидный URL: "@,
            AutoLaunchError::InvalidInput(_) => "Невалидные входные данные: "@,
            AutoLaunchError::NotFound(_) => "Не найдено: "@,
            AutoLaunchError::Json(_) => "Ошибка сериализации JSON: "@,
        }
    }

    /// The displayed message: the prefix of the variant, then the detail.
    pub open spec fn message(self) -> Seq<char> {
        self.prefix() + self.detail()
    }

    /// The displayed message of the error.
    pub fn to_string(&self) -> (s: String)
        ensures
            s@ == self.message(),
    {
        match self {
            AutoLaunchError::ProjectAnalysis(d) => String::from_str("Ошибка анализа проекта: ").concat(d.as_str()),
            AutoLaunchError::Environment(d) => String::from_str("Ошибка окружения: ").concat(d.as_str()),
            AutoLaunchError::Process(d) => String::from_str("Ошибка процесса: ").concat(d.as_str()),
            AutoLaunchError::Security(d) => String::from_str("Ошибка безопасности: ").concat(d.as_str()),
            AutoLaunchError::Database(d) => String::from_str("Ошибка базы данных: ").concat(d.as_str()),
            AutoLaunchError::Io(d) => String::from_str("Ошибка ввода-вывода: ").concat(d.as_str()),
            AutoLaunchError::Network(d) => String::from_str("Ошибка сети: ").concat(d.as_str()),
            AutoLaunchError::Git(d) => String::from_str("Ошибка Git: ").concat(d.as_str()),
            AutoLaunchError::InvalidUrl(d) => String::from_str("Невалидный URL: ").concat(d.as_str()),
            AutoLaunchError::InvalidInput(d) => String::from_str("Невалидные входные данные: ").concat(d.as_str()),
            AutoLaunchError::NotFound(d) => String::from_str("Не найдено: ").concat(d.as_str()),
            AutoLaunchError::Json(d) => String::from_str("Ошибка сериализации JSON: ").concat(d.as_str()),
        }
    }
}

/// What the user interface shows of an error.
#[derive(Debug, Clone)]
pub struct ErrorContext {
    pub error: String,
    pub suggestion: Option<String>,
    pub user_friendly_message: String,
}

/// The suggestion that accompanies an error, if any.
pub open spec fn suggestion_for(e: AutoLaunchError) -> Option<Seq<char>> {
    match e {
        AutoLaunchError::InvalidUrl(_) => Some("Проверьте правильность URL репозитория"@),
        AutoLaunchError::Network(_) => Some("Проверьте подключение к интернету"@),
        AutoLaunchError::Git(_) => Some("Убедитесь, что репозиторий существует и доступен"@),
        _ => None,
    }
}

/// The short message shown to the user for an error.
pub open spec fn friendly_message_for(e: AutoLaunchError) -> Seq<char> {
    match e {
        AutoLaunchError::InvalidUrl(_) => "Неверный формат URL репозитория"@,
        AutoLaunchError::Network(_) => "Ошибка сетевого подключения"@,
        AutoLaunchError::Git(_) => "Не удалось клонировать репозиторий"@,
        _ => e.message(),
    }
}

pub open spec fn opt_view(o: Option<String>) -> Option<Seq<char>> {
    match o {
        Some(s) => Some(s@),
        None => None,
    }
}

/// The context of an error, as the user interface receives it.
pub open spec fn context_of(e: AutoLaunchError, c: ErrorContext) -> bool {
    &&& c.error@ == e.message()
    &&& opt_view(c.suggestion) == suggestion_for(e)
    &&& c.user_friendly_message@ == friendly_message_for(e)
}

impl ErrorContext {
    /// Builds the context that the user interface shows for an error.
    pub fn from_error(error: AutoLaunchError) -> (c: ErrorContext)
        ensures
            context_of(error, c),
    {
        let (suggestion, user_friendly_message) = match &error {
            AutoLaunchError::InvalidUrl(_) => (
                Some(String::from_str("Проверьте правильность URL репозитория")),
                String::from_str("Неверный формат URL репозитория"),
            ),
            AutoLaunchError::Network(_) => (
                Some(String::from_str("Проверьте подключение к интернету")),
                String::from_str("Ошибка сетевого подключения"),
            ),
            AutoLaunchError::Git(_) => (
                Some(String::from_str("Убедитесь, что репозиторий существует и доступен")),
                String::from_str("Не удалось клонировать репозиторий"),
            ),
            _ => (None, error.to_string()),
        };
        ErrorContext { error: error.to_string(), suggestion, user_friendly_message }
    }
}

/// The context of an error, as `ErrorContext::from_error` builds it.
impl From<AutoLaunchError> for ErrorContext {
    fn from(error: AutoLaunchError) -> (c: ErrorContext)
        ensures
            context_of(error, c),
    {
        ErrorContext::from_error(error)
    }
}

/// The strings of a context cannot be built in a specification, so no
/// specification function stands for the conversion: what a call gives is
/// stated by the `ensures` of `from` above.
impl vstd::std_specs::convert::FromSpecImpl<AutoLaunchError> for ErrorContext {
    open spec fn obeys_from_spec() -> bool {
        false
    }

    open spec fn from_spec(error: AutoLaunchError) -> ErrorContext {
        arbitrary()
    }
}

/// Every error reads as more than a word: its message is longer than five
/// characters; its context carries a non-empty message and a non-empty
/// user-facing message; an invalid URL always comes with a suggestion.
pub proof fn law_error_messages_are_informative(e: AutoLaunchError, c: ErrorContext)
    requires
        context_of(e, c),
    ensures
        e.message().len() > 5,
        c.error@.len() > 5,
        c.user_friendly_message@.len() > 5,
        e is InvalidUrl ==> c.suggestion is Some && c.suggestion->Some_0@.len() > 0,
{
    reveal_strlit("Ошибка анализа проекта: ");
    reveal_strlit("Ошибка окружения: ");
    reveal_strlit("Ошибка процесса: ");
    reveal_strlit("Ошибка безопасности: ");
    reveal_strlit("Ошибка базы данных: ");
    reveal_strlit("Ошибка ввода-вывода: ");
    reveal_strlit("Ошибка сети: ");
    reveal_strlit("Ошибка Git: ");
    reveal_strlit("Невалидный URL: ");
    reveal_strlit("Невалидные входные данные: ");
    reveal_strlit("Не найдено: ");
    reveal_strlit("Ошибка сериализации JSON: ");
    reveal_strlit("Неверный формат URL репозитория");
    reveal_strlit("Ошибка сетевого подключения");
    reveal_strlit("Не удалось клонировать репозиторий");
    reveal_strlit("Проверьте правильность URL репозитория");
}

} // verus!
