//! Parsing, validation and normalisation of GitHub repository references.
//!
//! Accepted forms: `owner/repo`, `https://github.com/owner/repo`,
//! `https://github.com/owner/repo.git`, `https://www.github.com/owner/repo`
//! (and `http://` variants). Every reference normalises to
//! `https://github.com/owner/repo`.

use vstd::prelude::*;
use crate::error::AutoLaunchError;
use crate::text::{
    chars_of, find_char, first_index, is_space, lemma_first_index, lemma_first_index_at, substring, trim, trim_end,
    trim_start, trim_str,
};

verus! {

/// Owner, repository name and normalised URL of a GitHub repository.
#[derive(Debug, Clone, PartialEq, Eq)]
pub struct GitHubRepoInfo {
    pub owner: String,
    pub repo_name: String,
    pub normalized_url: String,
}

/// Parser and validator of GitHub repository references.
pub struct GitHubUrlParser;

/// A letter, a digit, `_` or `-`: the characters an owner name may hold.
pub open spec fn is_owner_char(c: char) -> bool {
    ||| ('a' <= c && c <= 'z')
    ||| ('A' <= c && c <= 'Z')
    ||| ('0' <= c && c <= '9')
    ||| c == '_'
    ||| c == '-'
}

/// An owner character or `.`: the characters a repository name may hold.
pub open spec fn is_repo_char(c: char) -> bool {
    is_owner_char(c) || c == '.'
}

pub open spec fn all_owner_chars(s: Seq<char>) -> bool {
    forall|i: int| 0 <= i < s.len() ==> is_owner_char(#[trigger] s[i])
}

pub open spec fn all_repo_chars(s: Seq<char>) -> bool {
    forall|i: int| 0 <= i < s.len() ==> is_repo_char(#[trigger] s[i])
}

/// Why an owner name is refused, or `None` where it is valid: 1 to 39
/// characters, letters, digits, `_` and `-` only, no `-` at either end.
pub open spec fn owner_problem(o: Seq<char>) -> Option<Seq<char>> {
    if o.len() == 0 {
        Some("Имя владельца репозитория не может быть пустым"@)
    } else if o.len() > 39 {
        Some("Имя владельца слишком длинное (максимум 39 символов): "@ + o)
    } else if !all_owner_chars(o) {
        Some(
            "Имя владельца содержит недопустимые символы: '"@ + o
                + "'. Разрешены только буквы, цифры, дефисы и подчеркивания"@,
        )
    } else if o[0] == '-' || o.last() == '-' {
        Some("Имя владельца не может начинаться или заканчиваться дефисом: "@ + o)
    } else {
        None
    }
}

/// Why a repository name is refused, or `None` where it is valid: 1 to 100
/// characters, letters, digits, `_`, `-` and `.` only.
pub open spec fn repo_problem(r: Seq<char>) -> Option<Seq<char>> {
    if r.len() == 0 {
        Some("Имя репозитория не может быть пустым"@)
    } else if r.len() > 100 {
        Some("Имя репозитория слишком длинное (максимум 100 символов): "@ + r)
    } else if !all_repo_chars(r) {
        Some(
            "Имя репозитория содержит недопустимые символы: '"@ + r
                + "'. Разрешены только буквы, цифры, дефисы, подчеркивания и точки"@,
        )
    } else {
        None
    }
}

/// The normalised URL of a repository.
pub open spec fn github_url(owner: Seq<char>, repo: Seq<char>) -> Seq<char> {
    "https://github.com/"@ + owner + "/"@ + repo
}

/// The outcome of validating an owner and a repository name: the
/// (owner, repository, normalised URL) triple, or the message of the error.
pub open spec fn validated(owner: Seq<char>, repo: Seq<char>) -> Result<
    (Seq<char>, Seq<char>, Seq<char>),
    Seq<char>,
> {
    match owner_problem(owner) {
        Some(m) => Err(m),
        None => match repo_problem(repo) {
            Some(m) => Err(m),
            None => Ok((owner, repo, github_url(owner, repo))),
        },
    }
}

/// The short `owner/repo` form: exactly one `/` and no `:`.
pub open spec fn is_short_form(t: Seq<char>) -> bool {
    let p = first_index(t, '/');
    &&& p >= 0
    &&& first_index(t.subrange(p + 1, t.len() as int), '/') < 0
    &&& first_index(t, ':') < 0
}

/// The sequence without one trailing `.git`, where it has one.
pub open spec fn strip_git_suffix(r: Seq<char>) -> Seq<char> {
    if r.len() >= 4 && r.subrange(r.len() - 4, r.len() as int) == seq!['.', 'g', 'i', 't'] {
        r.subrange(0, r.len() - 4)
    } else {
        r
    }
}

/// The result of `url::Url::parse` on `input`: the host and the path of the
/// URL, or the message of the parse error.
pub uninterp spec fn url_parse_parts(input: Seq<char>) -> Result<
    (Option<Seq<char>>, Seq<char>),
    Seq<char>,
>;

pub open spec fn parts_view(r: Result<(Option<String>, String), String>) -> Result<
    (Option<Seq<char>>, Seq<char>),
    Seq<char>,
> {
    match r {
        Ok((h, p)) => Ok(
            (
                match h {
                    Some(h) => Some(h@),
                    None => None,
                },
                p@,
            ),
        ),
        Err(e) => Err(e@),
    }
}

/// Parses `input` with `url::Url::parse` and returns the host (`host_str`)
/// and the path (`path`) of the URL, or the display text of the parse error.
/// The contract claims only that the result is the named function
/// `url_parse_parts` of the input: what the WHATWG parser does is not stated.
#[verifier::external_body]
fn parse_url_parts(input: &str) -> (r: Result<(Option<String>, String), String>)
    ensures
        parts_view(r) == url_parse_parts(input@),
{
    match url::Url::parse(input) {
        Ok(u) => {
            let host = match u.host_str() {
                Some(h) => Some(h.to_string()),
                None => None,
            };
            Ok((host, u.path().to_string()))
        },
        Err(e) => Err(e.to_string()),
    }
}

/// The result of parsing a full URL, given what `url::Url::parse` returned.
/// The path segments are those of `Url::path_segments`: the path without
/// its leading `/`, split at each `/`.
pub open spec fn full_url_spec(
    input: Seq<char>,
    parts: Result<(Option<Seq<char>>, Seq<char>), Seq<char>>,
) -> Result<(Seq<char>, Seq<char>, Seq<char>), Seq<char>> {
    match parts {
        Err(e) => Err("Невалидный URL '"@ + input + "': "@ + e),
        Ok((None, _)) => Err("URL должен содержать хост"@),
        Ok((Some(host), path)) => if host != "github.com"@ && host != "www.github.com"@ {
            Err("URL должен быть GitHub репозиторием (github.com), получен: "@ + host)
        } else if path.len() == 0 || path[0] != '/' {
            Err("Невалидный путь в URL"@)
        } else {
            let rest = path.drop_first();
            let p = first_index(rest, '/');
            if p < 0 {
                Err(
                    "URL должен содержать владельца и имя репозитория (формат: github.com/owner/repo), получен путь: "@
                        + path,
                )
            } else {
                let owner = rest.subrange(0, p);
                let after = rest.subrange(p + 1, rest.len() as int);
                let q = first_index(after, '/');
                let segment = if q < 0 {
                    after
                } else {
                    after.subrange(0, q)
                };
                validated(owner, strip_git_suffix(segment))
            }
        },
    }
}

/// The result of `GitHubUrlParser::parse`: the (owner, repository,
/// normalised URL) triple, or the message of the `InvalidUrl` error.
pub open spec fn parse_spec(input: Seq<char>) -> Result<
    (Seq<char>, Seq<char>, Seq<char>),
    Seq<char>,
> {
    let t = trim(input);
    if t.len() == 0 {
        Err("URL не может быть пустым"@)
    } else if is_short_form(t) {
        let p = first_index(t, '/');
        validated(t.subrange(0, p), t.subrange(p + 1, t.len() as int))
    } else {
        full_url_spec(t, url_parse_parts(t))
    }
}

pub open spec fn info_view(info: GitHubRepoInfo) -> (Seq<char>, Seq<char>, Seq<char>) {
    (info.owner@, info.repo_name@, info.normalized_url@)
}

/// The parse outcome of a `Result` from `GitHubUrlParser::parse`.
pub open spec fn parse_outcome(r: Result<GitHubRepoInfo, AutoLaunchError>) -> Result<
    (Seq<char>, Seq<char>, Seq<char>),
    Seq<char>,
> {
    match r {
        Ok(info) => Ok(info_view(info)),
        Err(e) => Err(e.detail()),
    }
}

fn all_chars_owner(v: &Vec<char>) -> (b: bool)
    ensures
        b == all_owner_chars(v@),
{
    let mut i: usize = 0;
    while i < v.len()
        invariant
            i <= v@.len(),
            forall|j: int| 0 <= j < i ==> is_owner_char(#[trigger] v@[j]),
        decreases v.len() - i,
    {
        let c = v[i];
        if !(('a' <= c && c <= 'z') || ('A' <= c && c <= 'Z') || ('0' <= c && c <= '9') || c == '_'
            || c == '-') {
            return false;
        }
        i = i + 1;
    }
    true
}

fn all_chars_repo(v: &Vec<char>) -> (b: bool)
    ensures
        b == all_repo_chars(v@),
{
    let mut i: usize = 0;
    while i < v.len()
        invariant
            i <= v@.len(),
            forall|j: int| 0 <= j < i ==> is_repo_char(#[trigger] v@[j]),
        decreases v.len() - i,
    {
        let c = v[i];
        if !(('a' <= c && c <= 'z') || ('A' <= c && c <= 'Z') || ('0' <= c && c <= '9') || c == '_'
            || c == '-' || c == '.') {
            return false;
        }
        i = i + 1;
    }
    true
}

fn invalid_url(detail: String) -> (e: AutoLaunchError)
    ensures
        e == AutoLaunchError::InvalidUrl(detail),
{
    AutoLaunchError::InvalidUrl(detail)
}

impl GitHubUrlParser {
    /// Checks an owner name.
    fn validate_owner(owner: &str) -> (r: Result<(), AutoLaunchError>)
        ensures
            match r {
                Ok(()) => owner_problem(owner@) is None,
                Err(e) => e is InvalidUrl && owner_problem(owner@) == Some(e.detail()),
            },
    {
        let v = chars_of(owner);
        let n = v.len();
        if n == 0 {
            return Err(invalid_url(String::from_str("Имя владельца репозитория не может быть пустым")));
        }
        if n > 39 {
            return Err(invalid_url(String::from_str("Имя владельца слишком длинное (максимум 39 символов): ").concat(owner)));
        }
        if !all_chars_owner(&v) {
            let m = String::from_str("Имя владельца содержит недопустимые символы: '").concat(owner).concat(
                "'. Разрешены только буквы, цифры, дефисы и подчеркивания",
            );
            return Err(invalid_url(m));
        }
        if v[0] == '-' || v[n - 1] == '-' {
            return Err(invalid_url(String::from_str("Имя владельца не может начинаться или заканчиваться дефисом: ").concat(owner)));
        }
        Ok(())
    }

    /// Checks a repository name.
    fn validate_repo_name(repo: &str) -> (r: Result<(), AutoLaunchError>)
        ensures
            match r {
                Ok(()) => repo_problem(repo@) is None,
                Err(e) => e is InvalidUrl && repo_problem(repo@) == Some(e.detail()),
            },
    {
        let v = chars_of(repo);
        let n = v.len();
        if n == 0 {
            return Err(invalid_url(String::from_str("Имя репозитория не может быть пустым")));
        }
        if n > 100 {
            return Err(invalid_url(String::from_str("Имя репозитория слишком длинное (максимум 100 символов): ").concat(repo)));
        }
        if !all_chars_repo(&v) {
            let m = String::from_str("Имя репозитория содержит недопустимые символы: '").concat(repo).concat(
                "'. Разрешены только буквы, цифры, дефисы, подчеркивания и точки",
            );
            return Err(invalid_url(m));
        }
        Ok(())
    }

    /// Validates both names and builds the repository information.
    fn build_info(owner: String, repo: String) -> (r: Result<GitHubRepoInfo, AutoLaunchError>)
        ensures
            parse_outcome(r) == validated(owner@, repo@),
            r is Err ==> r->Err_0 is InvalidUrl,
    {
        Self::validate_owner(owner.as_str())?;
        Self::validate_repo_name(repo.as_str())?;
        let normalized_url = String::from_str("https://github.com/").concat(owner.as_str()).concat("/").concat(
            repo.as_str(),
        );
        Ok(GitHubRepoInfo { owner, repo_name: repo, normalized_url })
    }

    /// Parses the short `owner/repo` form; `None` where the input is not in it.
    fn parse_owner_repo_format(input: &str) -> (r: Option<Result<GitHubRepoInfo, AutoLaunchError>>)
        ensures
            match r {
                None => !is_short_form(input@),
                Some(res) => is_short_form(input@) && parse_outcome(res) == validated(
                    input@.subrange(0, first_index(input@, '/')),
                    input@.subrange(first_index(input@, '/') + 1, input@.len() as int),
                ) && (res is Err ==> res->Err_0 is InvalidUrl),
            },
    {
        let v = chars_of(input);
        let n = v.len();
        match find_char(&v, '/') {
            None => None,
            Some(p) => {
                let rest = substring(input, p + 1, n);
                let rest_chars = chars_of(rest.as_str());
                if find_char(&rest_chars, '/').is_some() || find_char(&v, ':').is_some() {
                    return None;
                }
                let owner = substring(input, 0, p);
                Some(Self::build_info(owner, rest))
            },
        }
    }

    /// Parses a full URL.
    fn parse_full_url(input: &str) -> (r: Result<GitHubRepoInfo, AutoLaunchError>)
        ensures
            parse_outcome(r) == full_url_spec(input@, url_parse_parts(input@)),
            r is Err ==> r->Err_0 is InvalidUrl,
    {
        Self::from_url_parts(input, parse_url_parts(input))
    }

    /// The repository of a full URL, given what the URL parser made of it:
    /// its host and path, or the text of its error. The host must be
    /// `github.com` or `www.github.com`; the first two path segments are
    /// the owner and the repository, without a trailing `.git`.
    pub fn from_url_parts(input: &str, parts: Result<(Option<String>, String), String>) -> (r: Result<
        GitHubRepoInfo,
        AutoLaunchError,
    >)
        ensures
            parse_outcome(r) == full_url_spec(input@, parts_view(parts)),
            r is Err ==> r->Err_0 is InvalidUrl,
    {
        match parts {
            Err(e) => {
                let m = String::from_str("Невалидный URL '").concat(input).concat("': ").concat(e.as_str());
                Err(invalid_url(m))
            },
            Ok((None, _)) => Err(invalid_url(String::from_str("URL должен содержать хост"))),
            Ok((Some(host), path)) => {
                if host != String::from_str("github.com") && host != String::from_str("www.github.com") {
                    let m = String::from_str("URL должен быть GitHub репозиторием (github.com), получен: ").concat(
                        host.as_str(),
                    );
                    return Err(invalid_url(m));
                }
                let pv = chars_of(path.as_str());
                if pv.len() == 0 || pv[0] != '/' {
                    return Err(invalid_url(String::from_str("Невалидный путь в URL")));
                }
                let rest = substring(path.as_str(), 1, pv.len());
                assert(rest@ == path@.drop_first());
                let rv = chars_of(rest.as_str());
                match find_char(&rv, '/') {
                    None => {
                        let m = String::from_str(
                            "URL должен содержать владельца и имя репозитория (формат: github.com/owner/repo), получен путь: ",
                        ).concat(path.as_str());
                        Err(invalid_url(m))
                    },
                    Some(p) => {
                        let owner = substring(rest.as_str(), 0, p);
                        let after = substring(rest.as_str(), p + 1, rv.len());
                        let av = chars_of(after.as_str());
                        let segment = match find_char(&av, '/') {
                            None => after,
                            Some(q) => substring(after.as_str(), 0, q),
                        };
                        let sv = chars_of(segment.as_str());
                        let sn = sv.len();
                        let repo = if sn >= 4 && sv[sn - 4] == '.' && sv[sn - 3] == 'g' && sv[sn - 2] == 'i'
                            && sv[sn - 1] == 't' {
                            assert(segment@.subrange(sn - 4, sn as int) == seq!['.', 'g', 'i', 't']);
                            substring(segment.as_str(), 0, sn - 4)
                        } else {
                            assert(sn >= 4 ==> segment@.subrange(sn - 4, sn as int)[0] == sv@[sn - 4]);
                            assert(sn >= 4 ==> segment@.subrange(sn - 4, sn as int)[1] == sv@[sn - 3]);
                            assert(sn >= 4 ==> segment@.subrange(sn - 4, sn as int)[2] == sv@[sn - 2]);
                            assert(sn >= 4 ==> segment@.subrange(sn - 4, sn as int)[3] == sv@[sn - 1]);
                            segment
                        };
                        Self::build_info(owner, repo)
                    },
                }
            },
        }
    }

    /// Parses and normalises a GitHub repository reference.
    ///
    /// The input is trimmed first. An empty input is refused. An input with
    /// exactly one `/` and no `:` is the short `owner/repo` form; any other is
    /// parsed as a URL, whose host must be `github.com` or `www.github.com`
    /// and whose first two path segments are the owner and the repository
    /// (a trailing `.git` is removed). Every error is `InvalidUrl`.
    pub fn parse(input: &str) -> (r: Result<GitHubRepoInfo, AutoLaunchError>)
        ensures
            parse_outcome(r) == parse_spec(input@),
            r is Err ==> r->Err_0 is InvalidUrl,
            r is Ok ==> r->Ok_0.normalized_url@ == github_url(r->Ok_0.owner@, r->Ok_0.repo_name@),
            r is Ok ==> owner_problem(r->Ok_0.owner@) is None && repo_problem(r->Ok_0.repo_name@) is None,
    {
        let trimmed = trim_str(input);
        let tv = chars_of(trimmed.as_str());
        if tv.len() == 0 {
            return Err(invalid_url(String::from_str("URL не может быть пустым")));
        }
        if let Some(res) = Self::parse_owner_repo_format(trimmed.as_str()) {
            return res;
        }
        Self::parse_full_url(trimmed.as_str())
    }

    /// The normalised URL of a repository reference (`parse`, then its URL).
    pub fn normalize(input: &str) -> (r: Result<String, AutoLaunchError>)
        ensures
            match r {
                Ok(u) => parse_spec(input@) is Ok && u@ == parse_spec(input@)->Ok_0.2,
                Err(e) => e is InvalidUrl && parse_spec(input@) == Err::<(Seq<char>, Seq<char>, Seq<char>), Seq<char>>(e.detail()),
            },
    {
        let info = Self::parse(input)?;
        Ok(info.normalized_url)
    }
}

/// A text that starts and ends with non-space characters is its own trim.
proof fn lemma_trim_identity(s: Seq<char>)
    requires
        s.len() > 0,
        !is_space(s[0]),
        !is_space(s.last()),
    ensures
        trim(s) == s,
{
    assert(trim_start(s) == s);
    assert(trim_end(s) == s);
}

proof fn lemma_valid_chars_not_special(owner: Seq<char>, repo: Seq<char>)
    requires
        owner_problem(owner) is None,
        repo_problem(repo) is None,
    ensures
        owner.len() > 0 && repo.len() > 0,
        forall|i: int| 0 <= i < owner.len() ==> owner[i] != '/' && owner[i] != ':' && !is_space(#[trigger] owner[i]),
        forall|i: int| 0 <= i < repo.len() ==> repo[i] != '/' && repo[i] != ':' && !is_space(#[trigger] repo[i]),
{
    assert forall|i: int| 0 <= i < owner.len() implies owner[i] != '/' && owner[i] != ':' && !is_space(
        #[trigger] owner[i],
    ) by {
        assert(is_owner_char(owner[i]));
    }
    assert forall|i: int| 0 <= i < repo.len() implies repo[i] != '/' && repo[i] != ':' && !is_space(#[trigger] repo[i]) by {
        assert(is_repo_char(repo[i]));
    }
}

/// Every `owner/repo` reference whose owner is 1 to 39 ASCII letters (of
/// either case), digits, `_` or `-`, not starting or ending with `-`, and
/// whose repository is 1 to 100 such characters or `.`, parses to that
/// owner, that repository and `https://github.com/owner/repo`.
pub proof fn law_ascii_references_parse(owner: Seq<char>, repo: Seq<char>)
    requires
        1 <= owner.len() <= 39,
        1 <= repo.len() <= 100,
        forall|i: int|
            0 <= i < owner.len() ==> {
                let c = #[trigger] owner[i];
                ('a' <= c && c <= 'z') || ('A' <= c && c <= 'Z') || ('0' <= c && c <= '9') || c == '_' || c == '-'
            },
        forall|i: int|
            0 <= i < repo.len() ==> {
                let c = #[trigger] repo[i];
                ('a' <= c && c <= 'z') || ('A' <= c && c <= 'Z') || ('0' <= c && c <= '9') || c == '_' || c == '-'
                    || c == '.'
            },
        owner[0] != '-',
        owner.last() != '-',
    ensures
        parse_spec(owner + "/"@ + repo) == Ok::<(Seq<char>, Seq<char>, Seq<char>), Seq<char>>(
            (owner, repo, "https://github.com/"@ + owner + "/"@ + repo),
        ),
{
    assert(all_owner_chars(owner));
    assert(all_repo_chars(repo));
    assert(owner_problem(owner) is None);
    assert(repo_problem(repo) is None);
    law_short_form_parses(owner, repo);
}

/// Every valid `owner/repo` reference parses to its owner, its repository
/// and `https://github.com/owner/repo`.
pub proof fn law_short_form_parses(owner: Seq<char>, repo: Seq<char>)
    requires
        owner_problem(owner) is None,
        repo_problem(repo) is None,
    ensures
        parse_spec(owner + "/"@ + repo) == Ok::<(Seq<char>, Seq<char>, Seq<char>), Seq<char>>(
            (owner, repo, github_url(owner, repo)),
        ),
{
    reveal_strlit("/");
    lemma_valid_chars_not_special(owner, repo);
    let t = owner + "/"@ + repo;
    assert(t[0] == owner[0]);
    assert(t.last() == repo.last());
    lemma_trim_identity(t);
    let k = owner.len() as int;
    assert(t[k] == '/');
    assert forall|j: int| 0 <= j < k implies t[j] != '/' by {
        assert(t[j] == owner[j]);
    }
    lemma_first_index_at(t, '/', k);
    let rest = t.subrange(k + 1, t.len() as int);
    assert(rest =~= repo);
    lemma_first_index_at(rest, '/', rest.len() as int);
    assert forall|j: int| 0 <= j < t.len() implies t[j] != ':' by {
        if j < k {
            assert(t[j] == owner[j]);
        } else if j > k {
            assert(t[j] == repo[j - k - 1]);
        }
    }
    lemma_first_index_at(t, ':', t.len() as int);
    assert(t.subrange(0, k) =~= owner);
}

/// A GitHub address whose path is `/owner/repo`, or `/owner/repo.git`,
/// names that repository, whichever of `github.com` and `www.github.com`
/// is its host.
pub proof fn law_github_paths_name_the_repository(
    input: Seq<char>,
    host: Seq<char>,
    owner: Seq<char>,
    repo: Seq<char>,
    with_git_suffix: bool,
)
    requires
        host == "github.com"@ || host == "www.github.com"@,
        owner_problem(owner) is None,
        repo_problem(repo) is None,
        !with_git_suffix ==> strip_git_suffix(repo) == repo,
    ensures
        full_url_spec(
            input,
            Ok((Some(host), "/"@ + owner + "/"@ + repo + if with_git_suffix {
                ".git"@
            } else {
                Seq::empty()
            })),
        ) == Ok::<(Seq<char>, Seq<char>, Seq<char>), Seq<char>>((owner, repo, github_url(owner, repo))),
{
    reveal_strlit("/");
    reveal_strlit(".git");
    lemma_valid_chars_not_special(owner, repo);
    let suffix: Seq<char> = if with_git_suffix {
        ".git"@
    } else {
        Seq::empty()
    };
    let path = "/"@ + owner + "/"@ + repo + suffix;
    assert(path[0] == '/');
    let rest = path.drop_first();
    assert(rest =~= owner + "/"@ + repo + suffix);
    let k = owner.len() as int;
    assert(rest[k] == '/');
    assert forall|j: int| 0 <= j < k implies rest[j] != '/' by {
        assert(rest[j] == owner[j]);
    }
    lemma_first_index_at(rest, '/', k);
    let after = rest.subrange(k + 1, rest.len() as int);
    assert(after =~= repo + suffix);
    assert forall|j: int| 0 <= j < after.len() implies after[j] != '/' by {
        if j < repo.len() {
            assert(after[j] == repo[j]);
        } else {
            assert(after[j] == suffix[j - repo.len()]);
        }
    }
    lemma_first_index_at(after, '/', after.len() as int);
    assert(rest.subrange(0, k) =~= owner);
    if with_git_suffix {
        let a = repo + ".git"@;
        assert(a.subrange(a.len() - 4, a.len() as int) =~= seq!['.', 'g', 'i', 't']);
        assert(a.subrange(0, a.len() - 4) =~= repo);
    } else {
        assert(repo + Seq::<char>::empty() =~= repo);
    }
}

/// Every refused reference is refused with a message that says something.
pub proof fn law_refusals_have_messages(input: Seq<char>)
    ensures
        parse_spec(input) is Err ==> parse_spec(input)->Err_0.len() > 0,
{
    reveal_strlit("URL не может быть пустым");
    reveal_strlit("Имя владельца репозитория не может быть пустым");
    reveal_strlit("Имя владельца слишком длинное (максимум 39 символов): ");
    reveal_strlit("Имя владельца содержит недопустимые символы: '");
    reveal_strlit("Имя владельца не может начинаться или заканчиваться дефисом: ");
    reveal_strlit("Имя репозитория не может быть пустым");
    reveal_strlit("Имя репозитория слишком длинное (максимум 100 символов): ");
    reveal_strlit("Имя репозитория содержит недопустимые символы: '");
    reveal_strlit("Невалидный URL '");
    reveal_strlit("URL должен содержать хост");
    reveal_strlit("URL должен быть GitHub репозиторием (github.com), получен: ");
    reveal_strlit("Невалидный путь в URL");
    reveal_strlit(
        "URL должен содержать владельца и имя репозитория (формат: github.com/owner/repo), получен путь: ",
    );
}

/// Normalising is idempotent: the normalised URL of a repository parses
/// back to the same repository and URL, given that the URL parser reads it
/// as host `github.com` and path `/owner/repo`.
pub proof fn law_normalized_url_parses_back(owner: Seq<char>, repo: Seq<char>)
    requires
        owner_problem(owner) is None,
        repo_problem(repo) is None,
        strip_git_suffix(repo) == repo,
        url_parse_parts(github_url(owner, repo)) == Ok::<(Option<Seq<char>>, Seq<char>), Seq<char>>(
            (Some("github.com"@), "/"@ + owner + "/"@ + repo),
        ),
    ensures
        parse_spec(github_url(owner, repo)) == Ok::<(Seq<char>, Seq<char>, Seq<char>), Seq<char>>(
            (owner, repo, github_url(owner, repo)),
        ),
{
    reveal_strlit("https://github.com/");
    reveal_strlit("/");
    lemma_valid_chars_not_special(owner, repo);
    let u = github_url(owner, repo);
    assert(u[0] == 'h');
    assert(u.last() == repo.last());
    lemma_trim_identity(u);
    assert(u[5] == ':');
    assert forall|j: int| 0 <= j < 5 implies u[j] != ':' by {}
    lemma_first_index_at(u, ':', 5);
    law_github_paths_name_the_repository(u, "github.com"@, owner, repo, false);
    assert("/"@ + owner + "/"@ + repo + Seq::<char>::empty() =~= "/"@ + owner + "/"@ + repo);
}

/// A full GitHub address parses to its repository whenever the URL parser
/// reads it as a GitHub host and the path `/owner/repo` or
/// `/owner/repo.git`: together with `law_short_form_parses`, every form of
/// a repository reference normalises to the same URL.
pub proof fn law_full_url_parses(
    input: Seq<char>,
    host: Seq<char>,
    owner: Seq<char>,
    repo: Seq<char>,
    with_git_suffix: bool,
)
    requires
        trim(input) == input,
        first_index(input, ':') >= 0,
        host == "github.com"@ || host == "www.github.com"@,
        owner_problem(owner) is None,
        repo_problem(repo) is None,
        !with_git_suffix ==> strip_git_suffix(repo) == repo,
        url_parse_parts(input) == Ok::<(Option<Seq<char>>, Seq<char>), Seq<char>>(
            (
                Some(host),
                "/"@ + owner + "/"@ + repo + if with_git_suffix {
                    ".git"@
                } else {
                    Seq::empty()
                },
            ),
        ),
    ensures
        parse_spec(input) == Ok::<(Seq<char>, Seq<char>, Seq<char>), Seq<char>>(
            (owner, repo, github_url(owner, repo)),
        ),
{
    lemma_first_index(input, ':');
    law_github_paths_name_the_repository(input, host, owner, repo, with_git_suffix);
}

} // verus!
