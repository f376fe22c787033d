//! Detection of dangerous commands and the list of trusted repositories.
//!
//! A command is checked against a fixed table of rules, each a regular
//! expression with a description and a threat level; every rule whose
//! expression matches gives one warning, in table order. Repositories are
//! trusted by their normalised URL: trimmed, without trailing `/` and
//! `.git`, lower-cased.

use vstd::prelude::*;
use std::path::PathBuf;
use crate::error::{AutoLaunchError, opt_view};
use crate::json::{json_string_array, json_of_strings_pretty, strings_view, parse_string_array, print_strings_pretty};
use crate::matching::{regex_is_match, is_match};
use crate::models::{ProjectInfo, SecurityLevel, SecurityWarning};
use crate::paths::{config_dir, join_path, joined};
use crate::text::{chars_of, is_space, lowercase, substring, to_lowercase, trim, trim_end, trim_start, trim_str};

verus! {

/// The rules, in the order they are checked: the regular expression, what
/// it detects, and the threat level.
pub open spec fn command_rules() -> Seq<(Seq<char>, Seq<char>, SecurityLevel)> {
    seq![
        ("rm\\s+-rf\\s+/"@, "Удаление корневой директории"@, SecurityLevel::Critical),
        (":\\(\\)\\{\\s*:\\|:&\\s*\\};:"@, "Fork bomb"@, SecurityLevel::Critical),
        ("dd\\s+if=/dev/zero"@, "Перезапись устройства"@, SecurityLevel::Critical),
        ("rm\\s+-rf"@, "Рекурсивное удаление файлов"@, SecurityLevel::High),
        ("sudo\\s+"@, "Выполнение с правами суперпользователя"@, SecurityLevel::High),
        ("curl.*\\|.*bash"@, "Выполнение скрипта из интернета"@, SecurityLevel::High),
        ("wget.*\\|.*bash"@, "Выполнение скрипта из интернета"@, SecurityLevel::High),
        ("curl.*\\|.*sh"@, "Выполнение скрипта из интернета"@, SecurityLevel::High),
        ("wget.*\\|.*sh"@, "Выполнение скрипта из интернета"@, SecurityLevel::High),
        ("eval\\s*\\$?\\("@, "Динамическое выполнение кода"@, SecurityLevel::High),
        ("exec\\s*\\("@, "Выполнение произвольного кода"@, SecurityLevel::High),
        ("chmod\\s+777"@, "Установка небезопасных прав доступа"@, SecurityLevel::High),
        (">/dev/null\\s+2>&1"@, "Подавление вывода ошибок"@, SecurityLevel::Medium),
        ("nohup\\s+"@, "Фоновое выполнение процесса"@, SecurityLevel::Medium),
        ("&\\s*$"@, "Фоновое выполнение"@, SecurityLevel::Medium),
    ]
}

/// The text put before the description in a warning of the given level.
pub open spec fn warning_prefix(level: SecurityLevel) -> Seq<char> {
    match level {
        SecurityLevel::Critical => "КРИТИЧЕСКАЯ УГРОЗА: "@,
        SecurityLevel::High => "Обнаружена потенциально опасная операция: "@,
        _ => "Обнаружена подозрительная операция: "@,
    }
}

/// The advice that a warning of the given level carries.
pub open spec fn warning_advice(level: SecurityLevel) -> Seq<char> {
    match level {
        SecurityLevel::Critical => "Не выполняйте эту команду! Она может повредить вашу систему."@,
        SecurityLevel::High => "Внимательно проверьте команду перед выполнением"@,
        _ => "Убедитесь, что понимаете, что делает эта команда"@,
    }
}

/// A warning as level, message and suggestion.
pub open spec fn warning_view(w: SecurityWarning) -> (SecurityLevel, Seq<char>, Option<Seq<char>>) {
    (w.level, w.message@, opt_view(w.suggestion))
}

pub open spec fn warnings_view(ws: Seq<SecurityWarning>) -> Seq<(SecurityLevel, Seq<char>, Option<Seq<char>>)> {
    ws.map_values(|w: SecurityWarning| warning_view(w))
}

/// The warning that a matching rule gives.
pub open spec fn rule_warning(rule: (Seq<char>, Seq<char>, SecurityLevel)) -> (SecurityLevel, Seq<char>, Option<Seq<char>>) {
    (rule.2, warning_prefix(rule.2) + rule.1, Some(warning_advice(rule.2)))
}

/// Whether a rule's expression matches the command.
pub open spec fn rule_matches(rule: (Seq<char>, Seq<char>, SecurityLevel), command: Seq<char>) -> bool {
    regex_is_match(rule.0, command) == Some(true)
}

/// The warnings that the rules give for a command, in rule order.
pub open spec fn scan_spec(rules: Seq<(Seq<char>, Seq<char>, SecurityLevel)>, command: Seq<char>) -> Seq<(SecurityLevel, Seq<char>, Option<Seq<char>>)>
    decreases rules.len(),
{
    if rules.len() == 0 {
        Seq::empty()
    } else {
        let earlier = scan_spec(rules.drop_last(), command);
        if rule_matches(rules.last(), command) {
            earlier.push(rule_warning(rules.last()))
        } else {
            earlier
        }
    }
}

/// The warnings that the rules give, in rule order, where `matches` holds
/// what each rule's expression reported for the command (`Some(true)` for a
/// match); a rule with no report gives none.
pub open spec fn warnings_from_matches(
    rules: Seq<(Seq<char>, Seq<char>, SecurityLevel)>,
    matches: Seq<Option<bool>>,
) -> Seq<(SecurityLevel, Seq<char>, Option<Seq<char>>)>
    decreases rules.len(),
{
    if rules.len() == 0 {
        Seq::empty()
    } else {
        let earlier = warnings_from_matches(rules.drop_last(), matches);
        if rules.len() - 1 < matches.len() && matches[rules.len() - 1] == Some(true) {
            earlier.push(rule_warning(rules.last()))
        } else {
            earlier
        }
    }
}

/// Where the trusted repositories are kept under a configuration
/// directory: `autolaunch/trusted_repos.json`.
pub open spec fn trusted_repos_file_under(config: PathBuf) -> PathBuf {
    joined(joined(config, "autolaunch"@), "trusted_repos.json"@)
}

/// The URL without its trailing `c` characters.
pub open spec fn strip_trailing(s: Seq<char>, c: char) -> Seq<char>
    decreases s.len(),
{
    if s.len() > 0 && s.last() == c {
        strip_trailing(s.drop_last(), c)
    } else {
        s
    }
}

/// Whether the text ends with `.git`.
pub open spec fn ends_with_git(s: Seq<char>) -> bool {
    s.len() >= 4 && s.subrange(s.len() - 4, s.len() as int) == ".git"@
}

/// The text without its trailing `.git` suffixes.
pub open spec fn strip_git_suffixes(s: Seq<char>) -> Seq<char>
    decreases s.len(),
{
    if ends_with_git(s) {
        strip_git_suffixes(s.subrange(0, s.len() - 4))
    } else {
        s
    }
}

/// The form under which a repository is trusted: trimmed, without trailing
/// `/` and `.git`, lower-cased.
pub open spec fn normalized_repo_url(url: Seq<char>) -> Seq<char> {
    lowercase(strip_git_suffixes(strip_trailing(trim(url), '/')))
}

/// Scans commands and projects, and keeps the trusted repositories.
pub struct SecurityScanner {
    trusted_repos: Vec<String>,
    trusted_repos_file: PathBuf,
}

impl SecurityScanner {
    /// No repository is listed twice.
    #[verifier::type_invariant]
    closed spec fn inv(self) -> bool {
        strings_view(self.trusted_repos@).no_duplicates()
    }

    /// The trusted repositories in the order they are kept, as normalised URLs.
    pub closed spec fn repos(self) -> Seq<Seq<char>> {
        strings_view(self.trusted_repos@)
    }

    /// The file in which the trusted repositories are kept.
    pub closed spec fn file(self) -> PathBuf {
        self.trusted_repos_file
    }

    /// The trusted repositories, as normalised URLs.
    pub closed spec fn trusted(self) -> Set<Seq<char>> {
        strings_view(self.trusted_repos@).to_set()
    }

    /// A scanner with no trusted repository, whose list is kept in
    /// `autolaunch/trusted_repos.json` under the user's configuration
    /// directory. Fails where that directory cannot be determined.
    pub fn new() -> (r: Result<SecurityScanner, AutoLaunchError>)
        ensures
            match r {
                Ok(s) => s.trusted() == Set::<Seq<char>>::empty()
                    && exists|d: PathBuf| s.file() == #[trigger] trusted_repos_file_under(d),
                Err(e) => e is Security && e.detail() == "Не удалось найти директорию конфигурации"@,
            },
    {
        let r = Self::with_config_dir(config_dir());
        proof {
            if r is Ok {
                let s = r->Ok_0;
                assert(s.file() == trusted_repos_file_under(choose|d: PathBuf| s.file() == trusted_repos_file_under(d)));
            }
        }
        r
    }

    /// A scanner with no trusted repository, whose list is kept in
    /// `autolaunch/trusted_repos.json` under the given configuration
    /// directory, or the error for a machine that has none.
    pub fn with_config_dir(config: Option<PathBuf>) -> (r: Result<SecurityScanner, AutoLaunchError>)
        ensures
            match config {
                None => r is Err && r->Err_0 is Security && r->Err_0.detail() == "Не удалось найти директорию конфигурации"@,
                Some(d) => r is Ok && r->Ok_0.trusted() == Set::<Seq<char>>::empty()
                    && r->Ok_0.file() == trusted_repos_file_under(d),
            },
    {
        match config {
            None => Err(AutoLaunchError::Security(String::from_str("Не удалось найти директорию конфигурации"))),
            Some(dir) => {
                let app_dir = join_path(&dir, "autolaunch");
                let file = join_path(&app_dir, "trusted_repos.json");
                let s = SecurityScanner { trusted_repos: Vec::new(), trusted_repos_file: file };
                assert(strings_view(s.trusted_repos@) =~= Seq::<Seq<char>>::empty());
                Ok(s)
            },
        }
    }

    /// The file in which the trusted repositories are kept.
    pub fn trusted_repos_file(&self) -> (r: &PathBuf)
        ensures
            *r == self.file(),
    {
        &self.trusted_repos_file
    }

    /// Replaces the trusted repositories by those that a saved list holds:
    /// the strings of a JSON array, or none where the text is no such array.
    pub fn load_trusted_repos(&mut self, content: &str)
        ensures
            final(self).trusted() == match json_string_array(content@) {
                Some(items) => items.to_set(),
                None => Set::<Seq<char>>::empty(),
            },
            final(self).file() == old(self).file(),
    {
        self.set_saved_repos(parse_string_array(content));
    }

    /// Replaces the trusted repositories by those of a saved list, each
    /// once; by none where no list could be read.
    pub fn set_saved_repos(&mut self, saved: Option<Vec<String>>)
        ensures
            final(self).trusted() == match saved {
                Some(items) => strings_view(items@).to_set(),
                None => Set::<Seq<char>>::empty(),
            },
            final(self).file() == old(self).file(),
    {
        let mut repos: Vec<String> = Vec::new();
        if let Some(items) = saved {
            let mut i: usize = 0;
            while i < items.len()
                invariant
                    i <= items@.len(),
                    strings_view(repos@).no_duplicates(),
                    strings_view(repos@).to_set() == strings_view(items@.take(i as int)).to_set(),
                decreases items@.len() - i,
            {
                let item = &items[i];
                proof {
                    assert(strings_view(items@.take(i + 1)) =~= strings_view(items@.take(i as int)).push(item@));
                    strings_view(items@.take(i as int)).lemma_push_to_set_commute(item@);
                }
                if !contains_string(&repos, item) {
                    let copy = item.clone();
                    proof {
                        assert(strings_view(repos@.push(copy)) =~= strings_view(repos@).push(item@));
                        strings_view(repos@).lemma_push_to_set_commute(item@);
                    }
                    repos.push(copy);
                } else {
                    proof {
                        assert(strings_view(repos@).to_set().insert(item@) =~= strings_view(repos@).to_set());
                    }
                }
                i = i + 1;
            }
            assert(items@.take(items@.len() as int) =~= items@);
        } else {
            assert(strings_view(repos@) =~= Seq::<Seq<char>>::empty());
        }
        self.trusted_repos = repos;
    }

    /// The JSON text under which the trusted repositories are saved; reading
    /// it back gives the same repositories.
    pub fn trusted_repos_json(&self) -> (r: String)
        ensures
            r@ == json_of_strings_pretty(self.repos()),
            json_string_array(r@) is Some,
            json_string_array(r@)->Some_0.to_set() == self.trusted(),
    {
        print_strings_pretty(&self.trusted_repos)
    }

    /// The warnings for a project: those of its entry command, then those
    /// that its analysis found.
    pub fn scan_project(&self, project: &ProjectInfo) -> (r: Vec<SecurityWarning>)
        ensures
            warnings_view(r@) == match project.entry_command {
                Some(c) => scan_spec(command_rules(), c@),
                None => Seq::empty(),
            } + warnings_view(project.security_warnings@),
    {
        let mut warnings = match &project.entry_command {
            Some(command) => self.scan_command(command.as_str()),
            None => Vec::new(),
        };
        let ghost first = warnings_view(warnings@);
        let mut i: usize = 0;
        while i < project.security_warnings.len()
            invariant
                i <= project.security_warnings@.len(),
                warnings_view(warnings@) == first + warnings_view(project.security_warnings@.take(i as int)),
            decreases project.security_warnings@.len() - i,
        {
            let w = copy_warning(&project.security_warnings[i]);
            proof {
                assert(warnings_view(project.security_warnings@.take(i + 1))
                    =~= warnings_view(project.security_warnings@.take(i as int)).push(warning_view(w)));
                assert(warnings_view(warnings@.push(w)) =~= warnings_view(warnings@).push(warning_view(w)));
            }
            warnings.push(w);
            i = i + 1;
        }
        assert(project.security_warnings@.take(i as int) =~= project.security_warnings@);
        warnings
    }

    /// The warnings for a command: one for each rule whose expression
    /// matches it, in rule order.
    pub fn scan_command(&self, command: &str) -> (r: Vec<SecurityWarning>)
        ensures
            warnings_view(r@) == scan_spec(command_rules(), command@),
    {
        let rules = rule_table();
        let mut matches: Vec<Option<bool>> = Vec::new();
        let mut i: usize = 0;
        while i < rules.len()
            invariant
                i <= rules@.len(),
                rules@.len() == command_rules().len(),
                forall|k: int| 0 <= k < rules@.len() ==> #[trigger] rule_view(rules@[k]) == command_rules()[k],
                matches@.len() == i,
                forall|k: int| 0 <= k < i ==> #[trigger] matches@[k] == regex_is_match(command_rules()[k].0, command@),
            decreases rules@.len() - i,
        {
            let (pattern, _, _) = rules[i];
            assert(rule_view(rules@[i as int]) == command_rules()[i as int]);
            matches.push(is_match(pattern, command));
            i = i + 1;
        }
        proof {
            lemma_scan_from_matches(command_rules(), command@, matches@, command_rules().len() as int);
            assert(command_rules().take(command_rules().len() as int) =~= command_rules());
        }
        Self::warnings_for_matches(&matches)
    }

    /// The warnings that the rules give, in rule order, given what each
    /// rule's expression reported for the command: one for each report
    /// `Some(true)`.
    pub fn warnings_for_matches(matches: &Vec<Option<bool>>) -> (r: Vec<SecurityWarning>)
        ensures
            warnings_view(r@) == warnings_from_matches(command_rules(), matches@),
    {
        let rules = rule_table();
        let mut warnings: Vec<SecurityWarning> = Vec::new();
        let mut i: usize = 0;
        while i < rules.len()
            invariant
                i <= rules@.len(),
                rules@.len() == command_rules().len(),
                forall|k: int| 0 <= k < rules@.len() ==> #[trigger] rule_view(rules@[k]) == command_rules()[k],
                warnings_view(warnings@) == warnings_from_matches(command_rules().take(i as int), matches@),
            decreases rules@.len() - i,
        {
            let (_, description, level) = rules[i];
            proof {
                assert(rule_view(rules@[i as int]) == command_rules()[i as int]);
                assert(command_rules().take(i + 1).drop_last() =~= command_rules().take(i as int));
                assert(command_rules().take(i + 1).last() == command_rules()[i as int]);
            }
            if i < matches.len() {
                if let Some(true) = matches[i] {
                    let w = rule_warning_exec(description, level);
                    assert(warning_view(w) == rule_warning(command_rules()[i as int]));
                    proof {
                        assert(warnings_view(warnings@.push(w)) =~= warnings_view(warnings@).push(warning_view(w)));
                    }
                    warnings.push(w);
                }
            }
            i = i + 1;
        }
        assert(command_rules().take(rules@.len() as int) =~= command_rules());
        warnings
    }

    /// Whether the repository is trusted, under its normalised URL.
    pub fn is_trusted_repository(&self, repo_url: &str) -> (b: bool)
        ensures
            b == self.trusted().contains(normalized_repo_url(repo_url@)),
    {
        let normalized = Self::normalize_repo_url(repo_url);
        contains_string(&self.trusted_repos, &normalized)
    }

    /// Trusts the repository under its normalised URL. Always succeeds; the
    /// caller saves the list (`trusted_repos_json`).
    pub fn add_trusted_repository(&mut self, repo_url: &str) -> (r: Result<(), AutoLaunchError>)
        ensures
            r is Ok,
            final(self).trusted() == old(self).trusted().insert(normalized_repo_url(repo_url@)),
            final(self).repos().no_duplicates(),
            old(self).trusted().contains(normalized_repo_url(repo_url@)) ==> final(self).repos() == old(self).repos(),
            final(self).file() == old(self).file(),
    {
        proof {
            use_type_invariant(&*self);
        }
        let normalized = Self::normalize_repo_url(repo_url);
        if !contains_string(&self.trusted_repos, &normalized) {
            let mut repos: Vec<String> = Vec::new();
            std::mem::swap(&mut repos, &mut self.trusted_repos);
            proof {
                assert(strings_view(repos@.push(normalized)) =~= strings_view(repos@).push(normalized@));
                strings_view(repos@).lemma_push_to_set_commute(normalized@);
            }
            repos.push(normalized);
            self.trusted_repos = repos;
        } else {
            assert(old(self).trusted().insert(normalized@) =~= old(self).trusted());
        }
        Ok(())
    }

    /// Stops trusting the repository (under its normalised URL). Always
    /// succeeds; the caller saves the list (`trusted_repos_json`).
    pub fn remove_trusted_repository(&mut self, repo_url: &str) -> (r: Result<(), AutoLaunchError>)
        ensures
            r is Ok,
            final(self).trusted() == old(self).trusted().remove(normalized_repo_url(repo_url@)),
            final(self).file() == old(self).file(),
    {
        proof {
            use_type_invariant(&*self);
        }
        let normalized = Self::normalize_repo_url(repo_url);
        let mut old_repos: Vec<String> = Vec::new();
        std::mem::swap(&mut old_repos, &mut self.trusted_repos);
        let ghost olds = strings_view(old_repos@);
        let mut kept: Vec<String> = Vec::new();
        let mut i: usize = 0;
        while i < old_repos.len()
            invariant
                i <= old_repos@.len(),
                olds == strings_view(old_repos@),
                olds.no_duplicates(),
                strings_view(kept@).no_duplicates(),
                strings_view(kept@).to_set() == olds.take(i as int).to_set().remove(normalized@),
            decreases old_repos@.len() - i,
        {
            let item = &old_repos[i];
            proof {
                assert(olds.take(i + 1) =~= olds.take(i as int).push(item@));
                olds.take(i as int).lemma_push_to_set_commute(item@);
                assert(olds.take(i as int).to_set().insert(item@).remove(normalized@)
                    =~= olds.take(i + 1).to_set().remove(normalized@));
            }
            let same: bool = *item == normalized;
            if !same {
                let copy = item.clone();
                proof {
                    assert(!strings_view(kept@).contains(item@)) by {
                        if strings_view(kept@).contains(item@) {
                            assert(strings_view(kept@).to_set().contains(item@));
                            assert(olds.take(i as int).contains(item@));
                            let j = choose|j: int| 0 <= j < i && olds.take(i as int)[j] == item@;
                            assert(olds[j] == olds[i as int]);
                        }
                    }
                    assert(strings_view(kept@.push(copy)) =~= strings_view(kept@).push(item@));
                    strings_view(kept@).lemma_push_to_set_commute(item@);
                    assert(olds.take(i as int).to_set().remove(normalized@).insert(item@)
                        =~= olds.take(i as int).to_set().insert(item@).remove(normalized@));
                }
                kept.push(copy);
            } else {
                assert(olds.take(i as int).to_set().remove(normalized@)
                    =~= olds.take(i as int).to_set().insert(item@).remove(normalized@));
            }
            i = i + 1;
        }
        assert(olds.take(i as int) =~= olds);
        self.trusted_repos = kept;
        Ok(())
    }

    /// The normalised form of a repository URL: trimmed, without trailing
    /// `/`, then without trailing `.git`, lower-cased.
    pub fn normalize_repo_url(url: &str) -> (r: String)
        ensures
            r@ == normalized_repo_url(url@),
    {
        let t = trim_str(url);
        let v = chars_of(t.as_str());
        let j = strip_trailing_slashes(&v);
        let k = strip_git_suffix_len(&v, j);
        let stripped = substring(t.as_str(), 0, k);
        to_lowercase(stripped.as_str())
    }

    /// The trusted repositories, each once.
    pub fn get_trusted_repositories(&self) -> (r: Vec<String>)
        ensures
            strings_view(r@).to_set() == self.trusted(),
            strings_view(r@).no_duplicates(),
    {
        proof {
            use_type_invariant(self);
        }
        clone_strings(&self.trusted_repos)
    }
}

/// The length of the characters without their trailing `/`.
fn strip_trailing_slashes(v: &Vec<char>) -> (j: usize)
    ensures
        j <= v@.len(),
        strip_trailing(v@, '/') == v@.subrange(0, j as int),
{
    let mut j: usize = v.len();
    assert(v@.subrange(0, j as int) =~= v@);
    while j > 0 && v[j - 1] == '/'
        invariant
            j <= v@.len(),
            strip_trailing(v@, '/') == strip_trailing(v@.subrange(0, j as int), '/'),
        decreases j,
    {
        assert(v@.subrange(0, j as int).drop_last() =~= v@.subrange(0, j - 1));
        j = j - 1;
    }
    j
}

/// The length of the first `j` characters without their trailing `.git`.
fn strip_git_suffix_len(v: &Vec<char>, j: usize) -> (k: usize)
    requires
        j <= v@.len(),
    ensures
        k <= j,
        strip_git_suffixes(v@.subrange(0, j as int)) == v@.subrange(0, k as int),
{
    let mut k: usize = j;
    while k >= 4 && v[k - 4] == '.' && v[k - 3] == 'g' && v[k - 2] == 'i' && v[k - 1] == 't'
        invariant
            k <= j <= v@.len(),
            strip_git_suffixes(v@.subrange(0, j as int)) == strip_git_suffixes(v@.subrange(0, k as int)),
        decreases k,
    {
        proof {
            reveal_strlit(".git");
            let s = v@.subrange(0, k as int);
            assert(s.subrange(s.len() - 4, s.len() as int) =~= ".git"@);
            assert(s.subrange(0, s.len() - 4) =~= v@.subrange(0, k - 4));
        }
        k = k - 4;
    }
    proof {
        reveal_strlit(".git");
        let s = v@.subrange(0, k as int);
        if s.len() >= 4 {
            let g = s.subrange(s.len() - 4, s.len() as int);
            if g == ".git"@ {
                assert(g[0] == '.' && g[1] == 'g' && g[2] == 'i' && g[3] == 't');
                assert(false);
            }
        }
    }
    k
}

/// A rule of the table as the specification writes it.
pub open spec fn rule_view(rule: (&str, &str, SecurityLevel)) -> (Seq<char>, Seq<char>, SecurityLevel) {
    (rule.0@, rule.1@, rule.2)
}

fn rule_table() -> (t: Vec<(&'static str, &'static str, SecurityLevel)>)
    ensures
        t@.len() == command_rules().len(),
        forall|k: int| 0 <= k < t@.len() ==> #[trigger] rule_view(t@[k]) == command_rules()[k],
{
    let mut t: Vec<(&'static str, &'static str, SecurityLevel)> = Vec::new();
    t.push(("rm\\s+-rf\\s+/", "Удаление корневой директории", SecurityLevel::Critical));
    t.push((":\\(\\)\\{\\s*:\\|:&\\s*\\};:", "Fork bomb", SecurityLevel::Critical));
    t.push(("dd\\s+if=/dev/zero", "Перезапись устройства", SecurityLevel::Critical));
    t.push(("rm\\s+-rf", "Рекурсивное удаление файлов", SecurityLevel::High));
    t.push(("sudo\\s+", "Выполнение с правами суперпользователя", SecurityLevel::High));
    t.push(("curl.*\\|.*bash", "Выполнение скрипта из интернета", SecurityLevel::High));
    t.push(("wget.*\\|.*bash", "Выполнение скрипта из интернета", SecurityLevel::High));
    t.push(("curl.*\\|.*sh", "Выполнение скрипта из интернета", SecurityLevel::High));
    t.push(("wget.*\\|.*sh", "Выполнение скрипта из интернета", SecurityLevel::High));
    t.push(("eval\\s*\\$?\\(", "Динамическое выполнение кода", SecurityLevel::High));
    t.push(("exec\\s*\\(", "Выполнение произвольного кода", SecurityLevel::High));
    t.push(("chmod\\s+777", "Установка небезопасных прав доступа", SecurityLevel::High));
    t.push((">/dev/null\\s+2>&1", "Подавление вывода ошибок", SecurityLevel::Medium));
    t.push(("nohup\\s+", "Фоновое выполнение процесса", SecurityLevel::Medium));
    t.push(("&\\s*$", "Фоновое выполнение", SecurityLevel::Medium));
    assert(t@.len() == 15);
    t
}

fn rule_warning_exec(description: &str, level: SecurityLevel) -> (w: SecurityWarning)
    ensures
        warning_view(w) == (level, warning_prefix(level) + description@, Some(warning_advice(level))),
{
    let (prefix, advice) = match level {
        SecurityLevel::Critical => (
            "КРИТИЧЕСКАЯ УГРОЗА: ",
            "Не выполняйте эту команду! Она может повредить вашу систему.",
        ),
        SecurityLevel::High => (
            "Обнаружена потенциально опасная операция: ",
            "Внимательно проверьте команду перед выполнением",
        ),
        _ => ("Обнаружена подозрительная операция: ", "Убедитесь, что понимаете, что делает эта команда"),
    };
    SecurityWarning {
        level,
        message: String::from_str(prefix).concat(description),
        suggestion: Some(String::from_str(advice)),
    }
}

/// A copy of a warning.
pub fn copy_warning(w: &SecurityWarning) -> (c: SecurityWarning)
    ensures
        warning_view(c) == warning_view(*w),
{
    SecurityWarning {
        level: w.level,
        message: w.message.clone(),
        suggestion: match &w.suggestion {
            Some(s) => Some(s.clone()),
            None => None,
        },
    }
}

/// Whether the list holds the string.
pub fn contains_string(v: &Vec<String>, s: &String) -> (b: bool)
    ensures
        b == strings_view(v@).contains(s@),
{
    let mut i: usize = 0;
    while i < v.len()
        invariant
            i <= v@.len(),
            forall|j: int| 0 <= j < i ==> (#[trigger] v@[j])@ != s@,
        decreases v@.len() - i,
    {
        if v[i] == *s {
            assert(strings_view(v@)[i as int] == s@);
            return true;
        }
        i = i + 1;
    }
    assert forall|j: int| 0 <= j < strings_view(v@).len() implies #[trigger] strings_view(v@)[j] != s@ by {
        assert(v@[j]@ != s@);
    }
    false
}

/// A copy of a list of strings.
pub fn clone_strings(v: &Vec<String>) -> (r: Vec<String>)
    ensures
        strings_view(r@) == strings_view(v@),
{
    let mut r: Vec<String> = Vec::new();
    let mut i: usize = 0;
    while i < v.len()
        invariant
            i <= v@.len(),
            strings_view(r@) == strings_view(v@.take(i as int)),
        decreases v@.len() - i,
    {
        let copy = v[i].clone();
        proof {
            assert(strings_view(v@.take(i + 1)) =~= strings_view(v@.take(i as int)).push(v@[i as int]@));
            assert(strings_view(r@.push(copy)) =~= strings_view(r@).push(v@[i as int]@));
        }
        r.push(copy);
        i = i + 1;
    }
    assert(v@.take(i as int) =~= v@);
    r
}

} // verus!

verus! {

/// Every rule whose expression matches the command gives its warning, and
/// every warning comes from a rule whose expression matches.
pub proof fn law_scan_reports_exactly_matching_rules(
    rules: Seq<(Seq<char>, Seq<char>, SecurityLevel)>,
    command: Seq<char>,
)
    ensures
        forall|i: int|
            0 <= i < rules.len() && rule_matches(#[trigger] rules[i], command) ==> scan_spec(rules, command).contains(
                rule_warning(rules[i]),
            ),
        forall|j: int|
            0 <= j < scan_spec(rules, command).len() ==> exists|i: int|
                0 <= i < rules.len() && rule_matches(rules[i], command) && #[trigger] scan_spec(rules, command)[j]
                    == rule_warning(#[trigger] rules[i]),
    decreases rules.len(),
{
    if rules.len() > 0 {
        let earlier = rules.drop_last();
        law_scan_reports_exactly_matching_rules(earlier, command);
        let s = scan_spec(rules, command);
        let e = scan_spec(earlier, command);
        assert forall|i: int| 0 <= i < rules.len() && rule_matches(#[trigger] rules[i], command) implies s.contains(
            rule_warning(rules[i]),
        ) by {
            if i < rules.len() - 1 {
                assert(earlier[i] == rules[i]);
                let k = choose|k: int| 0 <= k < e.len() && e[k] == rule_warning(earlier[i]);
                assert(s[k] == e[k]);
            } else {
                assert(s[s.len() - 1] == rule_warning(rules[i]));
            }
        }
        assert forall|j: int| 0 <= j < s.len() implies exists|i: int|
            0 <= i < rules.len() && rule_matches(rules[i], command) && #[trigger] s[j] == rule_warning(
                #[trigger] rules[i],
            ) by {
            if j < e.len() {
                assert(s[j] == e[j]);
                let i = choose|i: int|
                    0 <= i < earlier.len() && rule_matches(earlier[i], command) && e[j] == rule_warning(earlier[i]);
                assert(rules[i] == earlier[i]);
            } else {
                assert(rules[rules.len() - 1] == rules.last());
            }
        }
    }
}

/// A command gets no warning exactly when no rule's expression matches it.
pub proof fn law_no_warning_iff_no_rule_matches(command: Seq<char>)
    ensures
        scan_spec(command_rules(), command).len() == 0 <==> forall|i: int|
            0 <= i < command_rules().len() ==> !rule_matches(#[trigger] command_rules()[i], command),
{
    law_scan_reports_exactly_matching_rules(command_rules(), command);
    let s = scan_spec(command_rules(), command);
    if s.len() > 0 {
        assert(s[0] == s[0]);
    }
}

/// Where a critical rule's expression matches a command, the command gets
/// a warning of level `Critical`.
pub proof fn law_critical_match_gives_critical_warning(command: Seq<char>, i: int)
    requires
        0 <= i < command_rules().len(),
        command_rules()[i].2 == SecurityLevel::Critical,
        rule_matches(command_rules()[i], command),
    ensures
        exists|j: int|
            0 <= j < scan_spec(command_rules(), command).len() && (#[trigger] scan_spec(command_rules(), command)[j]).0
                == SecurityLevel::Critical,
{
    law_scan_reports_exactly_matching_rules(command_rules(), command);
    let s = scan_spec(command_rules(), command);
    assert(s.contains(rule_warning(command_rules()[i])));
    let j = choose|j: int| 0 <= j < s.len() && s[j] == rule_warning(command_rules()[i]);
    assert(s[j].0 == SecurityLevel::Critical);
}

/// Every warning of a command scan has a non-empty message and a non-empty
/// suggestion, and its level is `Critical`, `High` or `Medium`.
pub proof fn law_warnings_are_meaningful(command: Seq<char>)
    ensures
        forall|j: int|
            0 <= j < scan_spec(command_rules(), command).len() ==> {
                let w = #[trigger] scan_spec(command_rules(), command)[j];
                &&& w.1.len() > 0
                &&& w.2 is Some
                &&& w.2->Some_0.len() > 0
                &&& w.0 != SecurityLevel::Low
            },
{
    law_scan_reports_exactly_matching_rules(command_rules(), command);
    reveal_strlit("КРИТИЧЕСКАЯ УГРОЗА: ");
    reveal_strlit("Обнаружена потенциально опасная операция: ");
    reveal_strlit("Обнаружена подозрительная операция: ");
    reveal_strlit("Не выполняйте эту команду! Она может повредить вашу систему.");
    reveal_strlit("Внимательно проверьте команду перед выполнением");
    reveal_strlit("Убедитесь, что понимаете, что делает эта команда");
    let s = scan_spec(command_rules(), command);
    assert forall|j: int| 0 <= j < s.len() implies {
        let w = #[trigger] s[j];
        &&& w.1.len() > 0
        &&& w.2 is Some
        &&& w.2->Some_0.len() > 0
        &&& w.0 != SecurityLevel::Low
    } by {
        let i = choose|i: int|
            0 <= i < command_rules().len() && rule_matches(command_rules()[i], command) && s[j] == rule_warning(
                command_rules()[i],
            );
        assert(command_rules()[i].2 != SecurityLevel::Low);
    }
}

/// A command that contains arbitrary-code execution, as the expression
/// `exec\s*\(` (`exec`, any spaces, then `(`) finds it, gets the High
/// warning "Выполнение произвольного кода", and only such a command gets it.
pub proof fn law_code_execution_is_reported(command: Seq<char>)
    ensures
        scan_spec(command_rules(), command).contains(
            (
                SecurityLevel::High,
                "Обнаружена потенциально опасная операция: Выполнение произвольного кода"@,
                Some("Внимательно проверьте команду перед выполнением"@),
            ),
        ) <==> regex_is_match("exec\\s*\\("@, command) == Some(true),
{
    law_scan_reports_exactly_matching_rules(command_rules(), command);
    reveal_strlit("Обнаружена потенциально опасная операция: ");
    reveal_strlit("Обнаружена потенциально опасная операция: Выполнение произвольного кода");
    reveal_strlit("Выполнение произвольного кода");
    reveal_strlit("Внимательно проверьте команду перед выполнением");
    reveal_strlit("exec\\s*\\(");
    let rules = command_rules();
    let w = (
        SecurityLevel::High,
        "Обнаружена потенциально опасная операция: Выполнение произвольного кода"@,
        Some("Внимательно проверьте команду перед выполнением"@),
    );
    assert(rule_warning(rules[10]) == w);
    assert(rules[10].0 == "exec\\s*\\("@);
    let s = scan_spec(rules, command);
    if s.contains(w) {
        let j = choose|j: int| 0 <= j < s.len() && s[j] == w;
        let i = choose|i: int| 0 <= i < rules.len() && rule_matches(rules[i], command) && s[j] == rule_warning(rules[i]);
        lemma_only_rule_for_code_execution(i);
    }
    if regex_is_match("exec\\s*\\("@, command) == Some(true) {
        assert(rule_matches(rules[10], command));
    }
}

/// Only the arbitrary-code rule gives the arbitrary-code warning.
proof fn lemma_only_rule_for_code_execution(i: int)
    requires
        0 <= i < command_rules().len(),
        rule_warning(command_rules()[i]).1 == "Обнаружена потенциально опасная операция: Выполнение произвольного кода"@,
    ensures
        i == 10,
{
    reveal_strlit("КРИТИЧЕСКАЯ УГРОЗА: ");
    reveal_strlit("Обнаружена потенциально опасная операция: ");
    reveal_strlit("Обнаружена подозрительная операция: ");
    reveal_strlit("Обнаружена потенциально опасная операция: Выполнение произвольного кода");
    reveal_strlit("Удаление корневой директории");
    reveal_strlit("Fork bomb");
    reveal_strlit("Перезапись устройства");
    reveal_strlit("Рекурсивное удаление файлов");
    reveal_strlit("Выполнение с правами суперпользователя");
    reveal_strlit("Выполнение скрипта из интернета");
    reveal_strlit("Динамическое выполнение кода");
    reveal_strlit("Выполнение произвольного кода");
    reveal_strlit("Установка небезопасных прав доступа");
    reveal_strlit("Подавление вывода ошибок");
    reveal_strlit("Фоновое выполнение процесса");
    reveal_strlit("Фоновое выполнение");
    let m = "Обнаружена потенциально опасная операция: Выполнение произвольного кода"@;
    let r = command_rules()[i];
    let got = warning_prefix(r.2) + r.1;
    if i != 10 {
        if got.len() == m.len() {
            let k: int = 42;
            assert(got[k] != m[k] || got[k + 1] != m[k + 1] || got[k + 2] != m[k + 2] || got[k + 11] != m[k + 11]
                || got[k + 14] != m[k + 14] || got[0] != m[0] || got[10] != m[10] || got[12] != m[12]);
        }
    }
}

/// Once a repository is trusted, every URL with the same normalised form
/// is trusted.
pub proof fn law_added_repository_is_trusted(trusted: Set<Seq<char>>, url: Seq<char>, variant: Seq<char>)
    requires
        normalized_repo_url(variant) == normalized_repo_url(url),
    ensures
        trusted.insert(normalized_repo_url(url)).contains(normalized_repo_url(variant)),
{
}

/// Once a repository is removed, no URL with the same normalised form is
/// trusted.
pub proof fn law_removed_repository_is_not_trusted(trusted: Set<Seq<char>>, url: Seq<char>, variant: Seq<char>)
    requires
        normalized_repo_url(variant) == normalized_repo_url(url),
    ensures
        !trusted.remove(normalized_repo_url(url)).contains(normalized_repo_url(variant)),
{
}

/// The trusted set after the same repository is added `k` times.
pub open spec fn trusted_after_adding(trusted: Set<Seq<char>>, url: Seq<char>, k: nat) -> Set<Seq<char>>
    decreases k,
{
    if k == 0 {
        trusted
    } else {
        trusted_after_adding(trusted, url, (k - 1) as nat).insert(normalized_repo_url(url))
    }
}

/// Trusting a repository any number of times is trusting it once.
pub proof fn law_adding_trust_is_idempotent(trusted: Set<Seq<char>>, url: Seq<char>, k: nat)
    requires
        k >= 1,
    ensures
        trusted_after_adding(trusted, url, k) == trusted.insert(normalized_repo_url(url)),
    decreases k,
{
    if k == 1 {
        assert(trusted_after_adding(trusted, url, 0) == trusted);
    } else {
        law_adding_trust_is_idempotent(trusted, url, (k - 1) as nat);
        assert(trusted.insert(normalized_repo_url(url)).insert(normalized_repo_url(url)) =~= trusted.insert(
            normalized_repo_url(url),
        ));
    }
}

proof fn lemma_scan_from_matches(
    rules: Seq<(Seq<char>, Seq<char>, SecurityLevel)>,
    command: Seq<char>,
    matches: Seq<Option<bool>>,
    n: int,
)
    requires
        0 <= n <= rules.len(),
        matches.len() == rules.len(),
        forall|k: int| 0 <= k < rules.len() ==> #[trigger] matches[k] == regex_is_match(rules[k].0, command),
    ensures
        scan_spec(rules.take(n), command) == warnings_from_matches(rules.take(n), matches),
    decreases n,
{
    if n > 0 {
        lemma_scan_from_matches(rules, command, matches, n - 1);
        assert(rules.take(n).drop_last() =~= rules.take(n - 1));
        assert(rules.take(n).last() == rules[n - 1]);
        assert(matches[n - 1] == regex_is_match(rules[n - 1].0, command));
    }
}

proof fn lemma_trim_start_append(s: Seq<char>, t: Seq<char>)
    requires
        s.len() > 0,
        !is_space(s.last()),
    ensures
        trim_start(s + t) == trim_start(s) + t,
        trim_start(s).len() > 0,
        trim_start(s).last() == s.last(),
    decreases s.len(),
{
    if is_space(s[0]) {
        assert((s + t).drop_first() =~= s.drop_first() + t);
        assert(s.len() > 1);
        assert(s.drop_first().last() == s.last());
        lemma_trim_start_append(s.drop_first(), t);
    } else {
        assert((s + t)[0] == s[0]);
    }
}

proof fn lemma_trim_end_nonspace_last(s: Seq<char>)
    requires
        s.len() > 0,
        !is_space(s.last()),
    ensures
        trim_end(s) == s,
{
}

/// `trim(u + x)` is `trim(u) + x` where both end in a non-space and `x`
/// starts with one.
proof fn lemma_trim_append(u: Seq<char>, x: Seq<char>)
    requires
        u.len() == 0 || !is_space(u.last()),
        x.len() > 0,
        !is_space(x[0]),
        !is_space(x.last()),
    ensures
        trim(u + x) == trim(u) + x,
{
    if u.len() == 0 {
        assert(u + x =~= x);
        assert(trim_start(x) == x);
        lemma_trim_end_nonspace_last(x);
        assert(trim(u) =~= Seq::<char>::empty());
        assert(trim_start(u) == u);
        assert(trim_end(u) == u);
        assert(trim(u) + x =~= x);
    } else {
        lemma_trim_start_append(u, x);
        lemma_trim_end_nonspace_last(trim_start(u));
        assert((trim_start(u) + x).last() == x.last());
        lemma_trim_end_nonspace_last(trim_start(u) + x);
    }
}

/// A trailing `/` does not change the normalised URL of a repository
/// (the URL itself not ending in white space).
pub proof fn law_trailing_slash_ignored(url: Seq<char>)
    requires
        url.len() == 0 || !is_space(url.last()),
    ensures
        normalized_repo_url(url + "/"@) == normalized_repo_url(url),
{
    reveal_strlit("/");
    lemma_trim_append(url, "/"@);
    let t = trim(url);
    assert((t + "/"@).drop_last() =~= t);
}

/// A trailing `.git` does not change the normalised URL of a repository
/// (the URL itself ending neither in white space nor in `/`).
pub proof fn law_git_suffix_ignored(url: Seq<char>)
    requires
        url.len() == 0 || (!is_space(url.last()) && url.last() != '/'),
    ensures
        normalized_repo_url(url + ".git"@) == normalized_repo_url(url),
{
    reveal_strlit(".git");
    lemma_trim_append(url, ".git"@);
    let t = trim(url);
    let tg = t + ".git"@;
    assert(tg.last() == 't');
    assert(strip_trailing(tg, '/') == tg);
    assert(tg.subrange(tg.len() - 4, tg.len() as int) =~= ".git"@);
    assert(tg.subrange(0, tg.len() - 4) =~= t);
    if t.len() > 0 {
        lemma_trim_start_append(url, Seq::<char>::empty());
        assert(url + Seq::<char>::empty() =~= url);
        assert(trim_start(url) + Seq::<char>::empty() =~= trim_start(url));
        lemma_trim_end_nonspace_last(trim_start(url));
        assert(t.last() == url.last());
    }
    assert(strip_trailing(t, '/') == t);
}

} // verus!
