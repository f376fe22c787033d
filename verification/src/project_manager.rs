//! The project history: new records, tags, filtering by tag, the list of
//! all tags, and the messages the user interface shows about launches.
//!
//! A project's tags are kept as the JSON text of a list of strings; a text
//! that is no such list counts as no tags.

use vstd::prelude::*;
use crate::environment_manager::{Environment, IsolationMode};
use crate::error::{AutoLaunchError, opt_view};
use crate::ids::{new_id, now_rfc3339};
use crate::json::{json_of_strings, json_string_array, parse_string_array, print_strings, strings_view};
use crate::models::{EnvironmentType, Project, ProcessHandle, TechStack, TrustLevel, stack_text, trust_text};
use crate::text::{chars_of, decimal, decimal_string};
use crate::url_parser::GitHubRepoInfo;

verus! {

/// The tags of a project: its JSON list, or none where the text is no list.
pub open spec fn tags_of(p: Project) -> Seq<Seq<char>> {
    match json_string_array(p.tags@) {
        Some(v) => v,
        None => Seq::empty(),
    }
}

/// Whether a project carries one of the tags.
pub open spec fn has_any_tag(p: Project, tags: Seq<Seq<char>>) -> bool {
    exists|i: int| 0 <= i < tags.len() && tags_of(p).contains(#[trigger] tags[i])
}

/// The projects, in order, that carry one of the tags.
pub open spec fn projects_with_tags(projects: Seq<Project>, tags: Seq<Seq<char>>) -> Seq<Project>
    decreases projects.len(),
{
    if projects.len() == 0 {
        Seq::empty()
    } else {
        let earlier = projects_with_tags(projects.drop_last(), tags);
        if has_any_tag(projects.last(), tags) {
            earlier.push(projects.last())
        } else {
            earlier
        }
    }
}

/// The tags that some project carries.
pub open spec fn tag_set(projects: Seq<Project>) -> Set<Seq<char>> {
    Set::new(|t: Seq<char>| exists|i: int| 0 <= i < projects.len() && tags_of(#[trigger] projects[i]).contains(t))
}

/// Whether `a` comes before `b` in the order of `String`: character by
/// character, by code point, a prefix first.
pub open spec fn text_less(a: Seq<char>, b: Seq<char>) -> bool
    decreases a.len(),
{
    if b.len() == 0 {
        false
    } else if a.len() == 0 {
        true
    } else if a[0] != b[0] {
        a[0] < b[0]
    } else {
        text_less(a.drop_first(), b.drop_first())
    }
}

/// Whether the texts are in strictly increasing order (so each occurs once).
pub open spec fn strictly_sorted(s: Seq<Seq<char>>) -> bool {
    forall|i: int, j: int| 0 <= i < j < s.len() ==> text_less(#[trigger] s[i], #[trigger] s[j])
}

proof fn lemma_text_less_transitive(a: Seq<char>, b: Seq<char>, c: Seq<char>)
    requires
        text_less(a, b),
        text_less(b, c),
    ensures
        text_less(a, c),
    decreases a.len(),
{
    if a.len() > 0 && b.len() > 0 && c.len() > 0 && a[0] == b[0] && b[0] == c[0] {
        lemma_text_less_transitive(a.drop_first(), b.drop_first(), c.drop_first());
    }
}

proof fn lemma_text_less_total(a: Seq<char>, b: Seq<char>)
    requires
        a != b,
    ensures
        text_less(a, b) || text_less(b, a),
    decreases a.len(),
{
    if a.len() > 0 && b.len() > 0 && a[0] == b[0] {
        if a.drop_first() == b.drop_first() {
            assert(a =~= seq![a[0]] + a.drop_first());
            assert(b =~= seq![b[0]] + b.drop_first());
        }
        lemma_text_less_total(a.drop_first(), b.drop_first());
    } else if a.len() > 0 && b.len() > 0 {
    } else if a.len() == 0 && b.len() == 0 {
        assert(a =~= b);
    }
}

/// Decides `text_less`.
fn less_than(a: &Vec<char>, b: &Vec<char>) -> (r: bool)
    ensures
        r == text_less(a@, b@),
{
    let mut i: usize = 0;
    assert(a@.skip(0) =~= a@);
    assert(b@.skip(0) =~= b@);
    while i < a.len() && i < b.len() && a[i] == b[i]
        invariant
            i <= a@.len(),
            i <= b@.len(),
            text_less(a@, b@) == text_less(a@.skip(i as int), b@.skip(i as int)),
        decreases a@.len() - i,
    {
        assert(a@.skip(i as int).drop_first() =~= a@.skip(i + 1));
        assert(b@.skip(i as int).drop_first() =~= b@.skip(i + 1));
        i = i + 1;
    }
    if i == b.len() {
        false
    } else if i == a.len() {
        true
    } else {
        assert(a@.skip(i as int)[0] == a@[i as int]);
        assert(b@.skip(i as int)[0] == b@[i as int]);
        a[i] < b[i]
    }
}

/// A copy of a project record.
pub fn copy_project(p: &Project) -> (c: Project)
    ensures
        c == *p,
{
    Project {
        id: p.id.clone(),
        github_url: p.github_url.clone(),
        owner: p.owner.clone(),
        repo_name: p.repo_name.clone(),
        local_path: p.local_path.clone(),
        detected_stack: p.detected_stack.clone(),
        trust_level: p.trust_level.clone(),
        created_at: p.created_at.clone(),
        last_run_at: match &p.last_run_at {
            Some(t) => Some(t.clone()),
            None => None,
        },
        tags: p.tags.clone(),
    }
}

/// The tags of a project; none where its tag text is no JSON list.
pub fn get_project_tags(project: &Project) -> (r: Vec<String>)
    ensures
        strings_view(r@) == tags_of(*project),
{
    match parse_string_array(project.tags.as_str()) {
        Some(v) => v,
        None => {
            let v: Vec<String> = Vec::new();
            assert(strings_view(v@) =~= Seq::<Seq<char>>::empty());
            v
        },
    }
}

/// The project with new tags, kept as their JSON list; reading them back
/// gives the same tags.
pub fn update_project_tags(project: Project, tags: &Vec<String>) -> (r: Project)
    ensures
        r == (Project { tags: r.tags, ..project }),
        r.tags@ == json_of_strings(strings_view(tags@)),
        tags_of(r) == strings_view(tags@),
{
    let text = print_strings(tags);
    Project { tags: text, ..project }
}

/// The project with its last run set to now.
pub fn update_project_last_run(project: Project) -> (r: Project)
    ensures
        r == (Project { last_run_at: r.last_run_at, ..project }),
        r.last_run_at is Some,
{
    Project { last_run_at: Some(now_rfc3339()), ..project }
}

/// Whether the project carries one of the tags.
fn carries_any(project: &Project, tags: &Vec<String>) -> (b: bool)
    ensures
        b == has_any_tag(*project, strings_view(tags@)),
{
    let own = get_project_tags(project);
    let mut i: usize = 0;
    while i < tags.len()
        invariant
            i <= tags@.len(),
            strings_view(own@) == tags_of(*project),
            forall|k: int| 0 <= k < i ==> !tags_of(*project).contains(#[trigger] strings_view(tags@)[k]),
        decreases tags@.len() - i,
    {
        if crate::security_scanner::contains_string(&own, &tags[i]) {
            assert(strings_view(tags@)[i as int] == tags@[i as int]@);
            return true;
        }
        i = i + 1;
    }
    false
}

/// The projects, in order, that carry one of the tags.
pub fn filter_projects_by_tags(projects: &Vec<Project>, tags: &Vec<String>) -> (r: Vec<Project>)
    ensures
        r@ == projects_with_tags(projects@, strings_view(tags@)),
{
    let mut r: Vec<Project> = Vec::new();
    let mut i: usize = 0;
    while i < projects.len()
        invariant
            i <= projects@.len(),
            r@ == projects_with_tags(projects@.take(i as int), strings_view(tags@)),
        decreases projects@.len() - i,
    {
        assert(projects@.take(i + 1).drop_last() =~= projects@.take(i as int));
        assert(projects@.take(i + 1).last() == projects@[i as int]);
        if carries_any(&projects[i], tags) {
            r.push(copy_project(&projects[i]));
        }
        i = i + 1;
    }
    assert(projects@.take(i as int) =~= projects@);
    r
}

/// Adds a tag to a strictly sorted list, where it is not there yet.
fn insert_sorted(list: &mut Vec<String>, tag: &String)
    requires
        strictly_sorted(strings_view(old(list)@)),
    ensures
        strictly_sorted(strings_view(final(list)@)),
        strings_view(final(list)@).to_set() == strings_view(old(list)@).to_set().insert(tag@),
{
    let ghost before = strings_view(list@);
    let t = chars_of(tag.as_str());
    let mut p: usize = 0;
    while p < list.len()
        invariant
            p <= list@.len(),
            before == strings_view(list@),
            t@ == tag@,
            forall|k: int| 0 <= k < p ==> text_less(#[trigger] before[k], tag@),
        ensures
            p <= list@.len(),
            before == strings_view(list@),
            forall|k: int| 0 <= k < p ==> text_less(#[trigger] before[k], tag@),
            p < list@.len() ==> !text_less(before[p as int], tag@),
        decreases list@.len() - p,
    {
        let item = chars_of(list[p].as_str());
        assert(item@ == before[p as int]);
        if !less_than(&item, &t) {
            break;
        }
        p = p + 1;
    }
    if p < list.len() && list[p] == *tag {
        assert(before[p as int] == tag@);
        assert(before.to_set().insert(tag@) =~= before.to_set());
        return;
    }
    proof {
        if p < before.len() {
            assert(!text_less(before[p as int], tag@));
            assert(before[p as int] != tag@);
            lemma_text_less_total(before[p as int], tag@);
            assert(text_less(tag@, before[p as int]));
            assert forall|k: int| p < k < before.len() implies text_less(tag@, #[trigger] before[k]) by {
                lemma_text_less_transitive(tag@, before[p as int], before[k]);
            }
        }
    }
    let copy = tag.clone();
    list.insert(p, copy);
    proof {
        let after = strings_view(list@);
        assert(after =~= before.insert(p as int, tag@));
        assert forall|i: int, j: int| 0 <= i < j < after.len() implies text_less(#[trigger] after[i], #[trigger] after[j]) by {
            if j < p {
                assert(after[i] == before[i] && after[j] == before[j]);
            } else if j == p {
                assert(after[i] == before[i]);
            } else if i == p {
                assert(after[j] == before[j - 1]);
            } else if i < p {
                assert(after[i] == before[i] && after[j] == before[j - 1]);
                lemma_text_less_transitive(before[i], tag@, before[j - 1]);
            } else {
                assert(after[i] == before[i - 1] && after[j] == before[j - 1]);
            }
        }
        assert forall|x: Seq<char>| after.to_set().contains(x) <==> before.to_set().insert(tag@).contains(x) by {
            if after.contains(x) {
                let k = choose|k: int| 0 <= k < after.len() && after[k] == x;
                if k < p {
                    assert(before[k] == x);
                } else if k > p {
                    assert(before[k - 1] == x);
                }
            }
            if before.contains(x) {
                let k = choose|k: int| 0 <= k < before.len() && before[k] == x;
                if k < p {
                    assert(after[k] == x);
                } else {
                    assert(after[k + 1] == x);
                }
            }
            if x == tag@ {
                assert(after[p as int] == x);
            }
        }
        assert(after.to_set() =~= before.to_set().insert(tag@));
    }
}

/// Every tag that some project carries, each once, in the order of
/// `String`.
pub fn get_all_tags(projects: &Vec<Project>) -> (r: Vec<String>)
    ensures
        strictly_sorted(strings_view(r@)),
        strings_view(r@).to_set() == tag_set(projects@),
{
    let mut all: Vec<String> = Vec::new();
    let mut i: usize = 0;
    assert(strings_view(all@) =~= Seq::<Seq<char>>::empty());
    assert(strings_view(all@).to_set() =~= tag_set(projects@.take(0)));
    while i < projects.len()
        invariant
            i <= projects@.len(),
            strictly_sorted(strings_view(all@)),
            strings_view(all@).to_set() == tag_set(projects@.take(i as int)),
        decreases projects@.len() - i,
    {
        let own = get_project_tags(&projects[i]);
        let ghost start = strings_view(all@).to_set();
        let mut k: usize = 0;
        while k < own.len()
            invariant
                k <= own@.len(),
                strictly_sorted(strings_view(all@)),
                strings_view(all@).to_set() == start.union(strings_view(own@).take(k as int).to_set()),
            decreases own@.len() - k,
        {
            insert_sorted(&mut all, &own[k]);
            proof {
                assert(strings_view(own@).take(k + 1) =~= strings_view(own@).take(k as int).push(own@[k as int]@));
                strings_view(own@).take(k as int).lemma_push_to_set_commute(own@[k as int]@);
                assert(start.union(strings_view(own@).take(k as int).to_set()).insert(own@[k as int]@) =~= start.union(
                    strings_view(own@).take(k + 1).to_set(),
                ));
            }
            k = k + 1;
        }
        proof {
            assert(strings_view(own@).take(k as int) =~= tags_of(projects@[i as int]));
            let next = projects@.take(i + 1);
            assert forall|t: Seq<char>| tag_set(next).contains(t) <==> start.union(tags_of(projects@[i as int]).to_set()).contains(t) by {
                if tag_set(next).contains(t) {
                    let j = choose|j: int| 0 <= j < next.len() && tags_of(#[trigger] next[j]).contains(t);
                    if j < i {
                        assert(projects@.take(i as int)[j] == next[j]);
                        assert(tag_set(projects@.take(i as int)).contains(t));
                    }
                }
                if start.contains(t) {
                    let j = choose|j: int| 0 <= j < i && tags_of(#[trigger] projects@.take(i as int)[j]).contains(t);
                    assert(next[j] == projects@.take(i as int)[j]);
                }
                if tags_of(projects@[i as int]).contains(t) {
                    assert(next[i as int] == projects@[i as int]);
                }
            }
            assert(tag_set(next) =~= start.union(tags_of(projects@[i as int]).to_set()));
        }
        i = i + 1;
    }
    assert(projects@.take(i as int) =~= projects@);
    all
}

/// A new history record for a cloned repository: a fresh id, its
/// normalised URL, owner and name, where it was cloned, its stack, an
/// unknown trust level, created now, never run, without tags.
pub fn new_project(repo: &GitHubRepoInfo, local_path: String, stack: &TechStack) -> (p: Project)
    ensures
        p.github_url@ == repo.normalized_url@,
        p.owner@ == repo.owner@,
        p.repo_name@ == repo.repo_name@,
        p.local_path@ == local_path@,
        p.detected_stack@ == stack_text(*stack),
        p.trust_level@ == trust_text(TrustLevel::Unknown),
        p.last_run_at is None,
        p.tags@ == "[]"@,
{
    Project {
        id: new_id(),
        github_url: repo.normalized_url.clone(),
        owner: repo.owner.clone(),
        repo_name: repo.repo_name.clone(),
        local_path,
        detected_stack: stack.to_string(),
        trust_level: TrustLevel::Unknown.to_string(),
        created_at: now_rfc3339(),
        last_run_at: None,
        tags: String::from_str("[]"),
    }
}

/// The name of the directory a repository is cloned into: owner, `_`,
/// repository.
pub fn clone_dir_name(owner: &str, repo_name: &str) -> (r: String)
    ensures
        r@ == owner@ + "_"@ + repo_name@,
{
    String::from_str(owner).concat("_").concat(repo_name)
}

/// The command a project is started with: its entry command, or one that
/// says there is none.
pub fn start_command(entry_command: &Option<String>) -> (r: String)
    ensures
        r@ == match *entry_command {
            Some(c) => c@,
            None => "echo 'Команда запуска не определена'"@,
        },
{
    match entry_command {
        Some(c) => c.clone(),
        None => String::from_str("echo 'Команда запуска не определена'"),
    }
}

/// What the user is told after a launch: the process id, and the address
/// where the application answers, or the port it is expected on.
pub fn launch_message(process_id: &str, port: Option<u16>, port_open: bool) -> (r: String)
    ensures
        r@ == "Проект успешно запущен! ID процесса: "@ + process_id@ + "."@ + match port {
            Some(p) => if port_open {
                " Приложение доступно на http://localhost:"@ + decimal(p as nat)
            } else {
                " Ожидается запуск на порту "@ + decimal(p as nat)
            },
            None => Seq::empty(),
        },
{
    let head = String::from_str("Проект успешно запущен! ID процесса: ").concat(process_id).concat(".");
    match port {
        Some(p) => {
            let digits = decimal_string(p as u64);
            if port_open {
                head.concat(" Приложение доступно на http://localhost:").concat(digits.as_str())
            } else {
                head.concat(" Ожидается запуск на порту ").concat(digits.as_str())
            }
        },
        None => {
            assert(head@ + Seq::<char>::empty() =~= head@);
            head
        },
    }
}

/// What the user is told after a launch from a snapshot.
pub fn snapshot_launch_message(process_id: &str) -> (r: String)
    ensures
        r@ == "Проект запущен из снимка! ID процесса: "@ + process_id@,
{
    String::from_str("Проект запущен из снимка! ID процесса: ").concat(process_id)
}

/// Where a snapshot says its project ran, and on which ports: those of the
/// running process, or a direct run without ports where it is not running.
pub fn snapshot_environment(running: Option<(&Environment, &ProcessHandle)>) -> (r: (
    EnvironmentType,
    Vec<u16>,
    Vec<(String, String)>,
))
    ensures
        r.2@.len() == 0,
        match running {
            Some((env, handle)) => r.0 == (if env.mode is Sandbox {
                EnvironmentType::Docker
            } else {
                EnvironmentType::Direct
            }) && r.1@ == handle.ports@,
            None => r.0 == EnvironmentType::Direct && r.1@.len() == 0,
        },
{
    match running {
        Some((env, handle)) => {
            let t = match &env.mode {
                IsolationMode::Sandbox(_) => EnvironmentType::Docker,
                IsolationMode::Direct(_) => EnvironmentType::Direct,
            };
            let copy = crate::process_controller::copy_handle(handle);
            (t, copy.ports, Vec::new())
        },
        None => (EnvironmentType::Direct, Vec::new(), Vec::new()),
    }
}

/// What opening the browser on an application's port came to.
#[derive(Debug, Clone)]
pub struct BrowserOutcome {
    pub success: bool,
    pub port: Option<u16>,
    pub url: Option<String>,
    pub message: String,
}

/// The outcome of opening the browser: the address where the application
/// answers; a hint where it does not answer on its port; a hint where no
/// port is known.
pub fn browser_outcome(port: Option<u16>, available: bool) -> (r: BrowserOutcome)
    ensures
        r.port == port,
        r.success == (port is Some && available),
        match port {
            Some(p) => if available {
                &&& r.url is Some
                &&& r.url->Some_0@ == "http://localhost:"@ + decimal(p as nat)
                &&& r.message@ == "Браузер открыт на http://localhost:"@ + decimal(p as nat)
            } else {
                &&& r.url is None
                &&& r.message@ == "Приложение не запустилось на ожидаемом порту "@ + decimal(p as nat)
                    + ". Проверьте логи приложения для диагностики проблемы. Возможно, порт занят другим приложением или требуется дополнительная настройка."@
            },
            None => r.url is None && r.message@
                == "Не удалось определить порт приложения. Проверьте логи для получения дополнительной информации."@,
        },
{
    match port {
        Some(p) => {
            let digits = decimal_string(p as u64);
            if available {
                let url = String::from_str("http://localhost:").concat(digits.as_str());
                let message = String::from_str("Браузер открыт на http://localhost:").concat(digits.as_str());
                BrowserOutcome { success: true, port, url: Some(url), message }
            } else {
                let message = String::from_str("Приложение не запустилось на ожидаемом порту ").concat(
                    digits.as_str(),
                ).concat(
                    ". Проверьте логи приложения для диагностики проблемы. Возможно, порт занят другим приложением или требуется дополнительная настройка.",
                );
                BrowserOutcome { success: false, port, url: None, message }
            }
        },
        None => BrowserOutcome {
            success: false,
            port: None,
            url: None,
            message: String::from_str(
                "Не удалось определить порт приложения. Проверьте логи для получения дополнительной информации.",
            ),
        },
    }
}

/// The pattern that a search matches names, owners and tags against: the
/// query anywhere in the text.
pub fn search_pattern(query: &str) -> (r: String)
    ensures
        r@ == "%"@ + query@ + "%"@,
{
    String::from_str("%").concat(query).concat("%")
}

/// The error for a project that the history does not hold.
pub fn project_not_found() -> (e: AutoLaunchError)
    ensures
        e is ProjectAnalysis && e.detail() == "Проект не найден"@,
{
    AutoLaunchError::ProjectAnalysis(String::from_str("Проект не найден"))
}

/// The error for a project, named by id, that the history does not hold.
pub fn project_missing(project_id: &str) -> (e: AutoLaunchError)
    ensures
        e is NotFound && e.detail() == "Проект "@ + project_id@ + " не найден"@,
{
    AutoLaunchError::NotFound(String::from_str("Проект ").concat(project_id).concat(" не найден"))
}

/// The error for a project that is not running.
pub fn project_not_running() -> (e: AutoLaunchError)
    ensures
        e is Process && e.detail() == "Проект не запущен"@,
{
    AutoLaunchError::Process(String::from_str("Проект не запущен"))
}

/// The error for a snapshot that the history does not hold.
pub fn snapshot_not_found() -> (e: AutoLaunchError)
    ensures
        e is ProjectAnalysis && e.detail() == "Снимок не найден"@,
{
    AutoLaunchError::ProjectAnalysis(String::from_str("Снимок не найден"))
}

/// Filtering keeps exactly the projects that carry one of the tags, in
/// their order.
pub proof fn law_filter_keeps_tagged_projects(projects: Seq<Project>, tags: Seq<Seq<char>>)
    ensures
        forall|k: int|
            0 <= k < projects_with_tags(projects, tags).len() ==> has_any_tag(
                #[trigger] projects_with_tags(projects, tags)[k],
                tags,
            ),
        forall|k: int|
            0 <= k < projects.len() && has_any_tag(#[trigger] projects[k], tags) ==> projects_with_tags(
                projects,
                tags,
            ).contains(projects[k]),
        projects_with_tags(projects, tags).len() <= projects.len(),
    decreases projects.len(),
{
    if projects.len() > 0 {
        let earlier = projects.drop_last();
        law_filter_keeps_tagged_projects(earlier, tags);
        let f = projects_with_tags(projects, tags);
        let e = projects_with_tags(earlier, tags);
        assert forall|k: int| 0 <= k < f.len() implies has_any_tag(#[trigger] f[k], tags) by {
            if k < e.len() {
                assert(f[k] == e[k]);
            }
        }
        assert forall|k: int| 0 <= k < projects.len() && has_any_tag(#[trigger] projects[k], tags) implies f.contains(
            projects[k],
        ) by {
            if k < projects.len() - 1 {
                assert(earlier[k] == projects[k]);
                let j = choose|j: int| 0 <= j < e.len() && e[j] == earlier[k];
                assert(f[j] == e[j]);
            } else {
                assert(f[f.len() - 1] == projects.last());
            }
        }
    }
}

} // verus!
