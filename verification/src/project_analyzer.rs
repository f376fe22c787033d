//! Analysis of a cloned project: its technology stack, configuration files,
//! entry command and dependencies.
//!
//! The application walks the directory (skipping `node_modules`, `.git`,
//! `target`, `__pycache__`, `.venv` and `venv`) and hands over each file's
//! name, with the text of each `package.json` and `requirements.txt` it
//! could read.

use vstd::prelude::*;
use std::path::PathBuf;
use crate::error::{AutoLaunchError, opt_view};
use crate::json::{json_nested_string, json_object_members, members_view, nested_string, object_members};
use crate::models::{ConfigFile, ConfigFileType, Dependency, ProjectInfo, TechStack, TrustLevel};
use crate::snapshot_manager::{dependencies_view, dependency_view};
use crate::text::{chars_of, find_char_from, str_eq, find_sub, first_index, index_of, lemma_first_index, substring, trim, trim_str};

verus! {

/// A file found in a project.
#[derive(Debug)]
pub struct ProjectFile {
    /// Where the file is.
    pub path: PathBuf,
    /// Its name, without the directories.
    pub name: String,
    /// Its text, for a `package.json` or `requirements.txt` that could be read.
    pub content: Option<String>,
}

/// Analyses the files of a project.
pub struct ProjectAnalyzer;

/// The stack that a file of this name marks, if any.
pub open spec fn stack_for_name(name: Seq<char>) -> Option<TechStack> {
    if name == "package.json"@ {
        Some(TechStack::NodeJs { version: None })
    } else if name == "requirements.txt"@ || name == "pyproject.toml"@ || name == "setup.py"@ {
        Some(TechStack::Python { version: None })
    } else if name == "Cargo.toml"@ {
        Some(TechStack::Rust { edition: None })
    } else if name == "go.mod"@ {
        Some(TechStack::Go { version: None })
    } else if name == "pom.xml"@ || name == "build.gradle"@ {
        Some(TechStack::Java { version: None })
    } else if name == "Dockerfile"@ {
        Some(TechStack::Docker { compose: false })
    } else if name == "docker-compose.yml"@ || name == "docker-compose.yaml"@ {
        Some(TechStack::Docker { compose: true })
    } else {
        None
    }
}

/// The stack marked by the first file, in order, that marks one.
pub open spec fn first_marked_stack(names: Seq<Seq<char>>) -> Option<TechStack>
    decreases names.len(),
{
    if names.len() == 0 {
        None
    } else {
        match stack_for_name(names[0]) {
            Some(s) => Some(s),
            None => first_marked_stack(names.drop_first()),
        }
    }
}

/// Whether a file name has the given extension (the text after its last
/// `.`, where something comes before that dot).
pub open spec fn has_extension(name: Seq<char>, ext: Seq<char>) -> bool {
    &&& name.len() >= ext.len() + 2
    &&& name[name.len() - ext.len() - 1] == '.'
    &&& name.subrange(name.len() - ext.len(), name.len() as int) == ext
}

/// Whether some file has the extension.
pub open spec fn any_extension(names: Seq<Seq<char>>, ext: Seq<char>) -> bool {
    exists|i: int| 0 <= i < names.len() && has_extension(#[trigger] names[i], ext)
}

/// The stack of a project: that of the first marking file; else a static
/// site where there is HTML, or CSS together with JavaScript; else unknown.
pub open spec fn stack_of(names: Seq<Seq<char>>) -> TechStack {
    match first_marked_stack(names) {
        Some(s) => s,
        None => if any_extension(names, "html"@) || (any_extension(names, "css"@) && any_extension(names, "js"@)) {
            TechStack::Static { framework: None }
        } else {
            TechStack::Unknown
        },
    }
}

/// The kind of configuration file that a file of this name is, if any.
pub open spec fn config_type_for_name(name: Seq<char>) -> Option<ConfigFileType> {
    if name == "package.json"@ {
        Some(ConfigFileType::PackageJson)
    } else if name == "requirements.txt"@ {
        Some(ConfigFileType::RequirementsTxt)
    } else if name == "pyproject.toml"@ {
        Some(ConfigFileType::PyprojectToml)
    } else if name == "Cargo.toml"@ {
        Some(ConfigFileType::CargoToml)
    } else if name == "Dockerfile"@ {
        Some(ConfigFileType::Dockerfile)
    } else if name == "docker-compose.yml"@ || name == "docker-compose.yaml"@ {
        Some(ConfigFileType::DockerCompose)
    } else if name == "go.mod"@ {
        Some(ConfigFileType::GoMod)
    } else if name == "pom.xml"@ {
        Some(ConfigFileType::PomXml)
    } else {
        None
    }
}

/// The kinds of the configuration files among the files, in order.
pub open spec fn config_types(names: Seq<Seq<char>>) -> Seq<ConfigFileType>
    decreases names.len(),
{
    if names.len() == 0 {
        Seq::empty()
    } else {
        let earlier = config_types(names.drop_last());
        match config_type_for_name(names.last()) {
            Some(t) => earlier.push(t),
            None => earlier,
        }
    }
}

/// The configuration files among the files, in order: where each is and
/// its kind.
pub open spec fn config_files_in(files: Seq<ProjectFile>) -> Seq<(PathBuf, ConfigFileType)>
    decreases files.len(),
{
    if files.len() == 0 {
        Seq::empty()
    } else {
        let earlier = config_files_in(files.drop_last());
        match config_type_for_name(files.last().name@) {
            Some(t) => earlier.push((files.last().path, t)),
            None => earlier,
        }
    }
}

/// The names of the files.
pub open spec fn file_names(files: Seq<ProjectFile>) -> Seq<Seq<char>> {
    files.map_values(|f: ProjectFile| f.name@)
}

/// The start script of the first `package.json`, in order, that declares
/// one (`scripts.start`).
pub open spec fn first_start_script(files: Seq<ProjectFile>) -> Option<Seq<char>>
    decreases files.len(),
{
    if files.len() == 0 {
        None
    } else {
        let here = if files[0].name@ == "package.json"@ && files[0].content is Some {
            json_nested_string(files[0].content->Some_0@, "scripts"@, "start"@)
        } else {
            None
        };
        match here {
            Some(c) => Some(c),
            None => first_start_script(files.drop_first()),
        }
    }
}

/// The command that starts a project: for Node.js its start script, else
/// `node index.js` where there is an `index.js`; for Python `python main.py`
/// or `python app.py`, whichever file exists first in that order; `cargo
/// run`, `go run .` and `docker-compose up` for Rust, Go and Docker; none
/// otherwise.
pub open spec fn entry_point_of(
    stack: TechStack,
    files: Seq<ProjectFile>,
    has_index_js: bool,
    has_main_py: bool,
    has_app_py: bool,
) -> Option<Seq<char>> {
    match stack {
        TechStack::NodeJs { .. } => match first_start_script(files) {
            Some(c) => Some(c),
            None => if has_index_js {
                Some("node index.js"@)
            } else {
                None
            },
        },
        TechStack::Python { .. } => if has_main_py {
            Some("python main.py"@)
        } else if has_app_py {
            Some("python app.py"@)
        } else {
            None
        },
        TechStack::Rust { .. } => Some("cargo run"@),
        TechStack::Go { .. } => Some("go run ."@),
        TechStack::Docker { .. } => Some("docker-compose up"@),
        _ => None,
    }
}

/// The dependency that a line of `requirements.txt` declares: none for a
/// blank line or a comment; else the text before the first `==` as name and
/// the text between the first and the second `==` as version, where there
/// is one.
pub open spec fn requirement_of(line: Seq<char>) -> Option<(Seq<char>, Option<Seq<char>>)> {
    let t = trim(line);
    if t.len() == 0 || t[0] == '#' {
        None
    } else {
        let k = index_of(t, "=="@);
        if k < 0 {
            Some((t, None))
        } else {
            let rest = t.subrange(k + 2, t.len() as int);
            let k2 = index_of(rest, "=="@);
            Some(
                (
                    t.subrange(0, k),
                    Some(
                        if k2 < 0 {
                            rest
                        } else {
                            rest.subrange(0, k2)
                        },
                    ),
                ),
            )
        }
    }
}

/// The dependencies that a `requirements.txt` declares, line by line.
pub open spec fn requirements_in(s: Seq<char>) -> Seq<(Seq<char>, Option<Seq<char>>, bool)>
    decreases s.len(),
{
    let i = first_index(s, '\n');
    let line = if i < 0 {
        s
    } else {
        s.subrange(0, i)
    };
    let here = match requirement_of(line) {
        Some(r) => seq![(r.0, r.1, false)],
        None => Seq::empty(),
    };
    if i < 0 || i >= s.len() {
        here
    } else {
        here + requirements_in(s.subrange(i + 1, s.len() as int))
    }
}

/// The members of a JSON object as dependencies.
pub open spec fn members_as_dependencies(m: Option<Seq<(Seq<char>, Option<Seq<char>>)>>, dev: bool) -> Seq<
    (Seq<char>, Option<Seq<char>>, bool),
> {
    match m {
        Some(members) => members.map_values(|e: (Seq<char>, Option<Seq<char>>)| (e.0, e.1, dev)),
        None => Seq::empty(),
    }
}

/// The dependencies that one file declares.
pub open spec fn dependencies_of_file(f: ProjectFile) -> Seq<(Seq<char>, Option<Seq<char>>, bool)> {
    match f.content {
        Some(c) => if f.name@ == "package.json"@ {
            members_as_dependencies(json_object_members(c@, "dependencies"@), false) + members_as_dependencies(
                json_object_members(c@, "devDependencies"@),
                true,
            )
        } else if f.name@ == "requirements.txt"@ {
            requirements_in(c@)
        } else {
            Seq::empty()
        },
        None => Seq::empty(),
    }
}

/// The dependencies that the files declare, file by file.
pub open spec fn dependencies_of(files: Seq<ProjectFile>) -> Seq<(Seq<char>, Option<Seq<char>>, bool)>
    decreases files.len(),
{
    if files.len() == 0 {
        Seq::empty()
    } else {
        dependencies_of(files.drop_last()) + dependencies_of_file(files.last())
    }
}

/// Whether a directory of this name is left out of the walk.
pub open spec fn is_skipped_dir(name: Seq<char>) -> bool {
    name == "node_modules"@ || name == ".git"@ || name == "target"@ || name == "__pycache__"@ || name == ".venv"@
        || name == "venv"@
}

fn name_has_extension(name: &str, ext: &str) -> (r: bool)
    ensures
        r == has_extension(name@, ext@),
{
    let n = chars_of(name);
    let e = chars_of(ext);
    if n.len() < 2 || n.len() - 2 < e.len() {
        return false;
    }
    let dot = n.len() - e.len() - 1;
    if n[dot] != '.' {
        return false;
    }
    let tail = substring(name, dot + 1, n.len());
    let same = tail == String::from_str(ext);
    same
}

fn push_dependency(deps: &mut Vec<Dependency>, name: String, version: Option<String>, dev: bool)
    ensures
        dependencies_view(final(deps)@) == dependencies_view(old(deps)@).push((name@, opt_view(version), dev)),
{
    let d = Dependency { name, version, dev };
    let ghost before = deps@;
    deps.push(d);
    assert(dependencies_view(deps@) =~= dependencies_view(before).push(dependency_view(d)));
}

impl ProjectAnalyzer {
    pub fn new() -> (a: ProjectAnalyzer) {
        ProjectAnalyzer
    }

    /// Whether the walk of a project leaves out a directory of this name.
    pub fn should_skip_directory(name: &str) -> (b: bool)
        ensures
            b == is_skipped_dir(name@),
    {
        str_eq(name, "node_modules") || str_eq(name, ".git") || str_eq(name, "target") || str_eq(name, "__pycache__")
            || str_eq(name, ".venv") || str_eq(name, "venv")
    }

    /// The stack that a file of this name marks, if any.
    pub fn stack_for_file(name: &str) -> (r: Option<TechStack>)
        ensures
            r == stack_for_name(name@),
    {
        if str_eq(name, "package.json") {
            Some(TechStack::NodeJs { version: None })
        } else if str_eq(name, "requirements.txt") || str_eq(name, "pyproject.toml") || str_eq(name, "setup.py") {
            Some(TechStack::Python { version: None })
        } else if str_eq(name, "Cargo.toml") {
            Some(TechStack::Rust { edition: None })
        } else if str_eq(name, "go.mod") {
            Some(TechStack::Go { version: None })
        } else if str_eq(name, "pom.xml") || str_eq(name, "build.gradle") {
            Some(TechStack::Java { version: None })
        } else if str_eq(name, "Dockerfile") {
            Some(TechStack::Docker { compose: false })
        } else if str_eq(name, "docker-compose.yml") || str_eq(name, "docker-compose.yaml") {
            Some(TechStack::Docker { compose: true })
        } else {
            None
        }
    }

    /// The stack of a project, from the names of its files.
    pub fn detect_stack(&self, files: &Vec<ProjectFile>) -> (s: TechStack)
        ensures
            s == stack_of(file_names(files@)),
    {
        let ghost names = file_names(files@);
        let mut i: usize = 0;
        assert(names.skip(0) =~= names);
        while i < files.len()
            invariant
                i <= files@.len(),
                names == file_names(files@),
                first_marked_stack(names) == first_marked_stack(names.skip(i as int)),
            decreases files@.len() - i,
        {
            let found = Self::stack_for_file(files[i].name.as_str());
            proof {
                let rest = names.skip(i as int);
                assert(rest[0] == files@[i as int].name@);
                assert(rest.drop_first() =~= names.skip(i + 1));
            }
            if let Some(s) = found {
                return s;
            }
            i = i + 1;
        }
        assert(names.skip(i as int) =~= Seq::<Seq<char>>::empty());
        let mut html = false;
        let mut css = false;
        let mut js = false;
        let mut k: usize = 0;
        while k < files.len()
            invariant
                k <= files@.len(),
                names == file_names(files@),
                html == exists|j: int| 0 <= j < k && has_extension(#[trigger] names[j], "html"@),
                css == exists|j: int| 0 <= j < k && has_extension(#[trigger] names[j], "css"@),
                js == exists|j: int| 0 <= j < k && has_extension(#[trigger] names[j], "js"@),
            decreases files@.len() - k,
        {
            let name = files[k].name.as_str();
            assert(names[k as int] == name@);
            if name_has_extension(name, "html") {
                html = true;
            }
            if name_has_extension(name, "css") {
                css = true;
            }
            if name_has_extension(name, "js") {
                js = true;
            }
            k = k + 1;
        }
        if html || (css && js) {
            TechStack::Static { framework: None }
        } else {
            TechStack::Unknown
        }
    }

    /// The kind of configuration file that a file of this name is, if any.
    pub fn config_type(name: &str) -> (r: Option<ConfigFileType>)
        ensures
            r == config_type_for_name(name@),
    {
        if str_eq(name, "package.json") {
            Some(ConfigFileType::PackageJson)
        } else if str_eq(name, "requirements.txt") {
            Some(ConfigFileType::RequirementsTxt)
        } else if str_eq(name, "pyproject.toml") {
            Some(ConfigFileType::PyprojectToml)
        } else if str_eq(name, "Cargo.toml") {
            Some(ConfigFileType::CargoToml)
        } else if str_eq(name, "Dockerfile") {
            Some(ConfigFileType::Dockerfile)
        } else if str_eq(name, "docker-compose.yml") || str_eq(name, "docker-compose.yaml") {
            Some(ConfigFileType::DockerCompose)
        } else if str_eq(name, "go.mod") {
            Some(ConfigFileType::GoMod)
        } else if str_eq(name, "pom.xml") {
            Some(ConfigFileType::PomXml)
        } else {
            None
        }
    }

    /// The configuration files among the files, in order.
    pub fn find_config_files(&self, files: &Vec<ProjectFile>) -> (r: Vec<ConfigFile>)
        ensures
            r@.map_values(|c: ConfigFile| c.file_type) == config_types(file_names(files@)),
            r@.map_values(|c: ConfigFile| (c.path, c.file_type)) == config_files_in(files@),
    {
        let ghost names = file_names(files@);
        let mut r: Vec<ConfigFile> = Vec::new();
        let mut i: usize = 0;
        while i < files.len()
            invariant
                i <= files@.len(),
                names == file_names(files@),
                r@.map_values(|c: ConfigFile| c.file_type) == config_types(names.take(i as int)),
                r@.map_values(|c: ConfigFile| (c.path, c.file_type)) == config_files_in(files@.take(i as int)),
            decreases files@.len() - i,
        {
            let f = &files[i];
            assert(names.take(i + 1).drop_last() =~= names.take(i as int));
            assert(names.take(i + 1).last() == f.name@);
            assert(files@.take(i + 1).drop_last() =~= files@.take(i as int));
            assert(files@.take(i + 1).last() == *f);
            if let Some(t) = Self::config_type(f.name.as_str()) {
                let c = ConfigFile { path: f.path.clone(), file_type: t };
                assert(r@.push(c).map_values(|c: ConfigFile| c.file_type) =~= r@.map_values(
                    |c: ConfigFile| c.file_type,
                ).push(t));
                assert(r@.push(c).map_values(|c: ConfigFile| (c.path, c.file_type)) =~= r@.map_values(
                    |c: ConfigFile| (c.path, c.file_type),
                ).push((f.path, t)));
                r.push(c);
            }
            i = i + 1;
        }
        assert(names.take(i as int) =~= names);
        assert(files@.take(i as int) =~= files@);
        r
    }

    /// The command that starts the project; it always succeeds.
    pub fn find_entry_point(
        &self,
        stack: &TechStack,
        files: &Vec<ProjectFile>,
        has_index_js: bool,
        has_main_py: bool,
        has_app_py: bool,
    ) -> (r: Result<Option<String>, AutoLaunchError>)
        ensures
            r is Ok,
            opt_view(r->Ok_0) == entry_point_of(*stack, files@, has_index_js, has_main_py, has_app_py),
    {
        match stack {
            TechStack::NodeJs { .. } => {
                let mut i: usize = 0;
                assert(files@.skip(0) =~= files@);
                while i < files.len()
                    invariant
                        i <= files@.len(),
                        *stack is NodeJs,
                        first_start_script(files@) == first_start_script(files@.skip(i as int)),
                    decreases files@.len() - i,
                {
                    let f = &files[i];
                    proof {
                        let rest = files@.skip(i as int);
                        assert(rest[0] == files@[i as int]);
                        assert(rest.drop_first() =~= files@.skip(i + 1));
                    }
                    if str_eq(f.name.as_str(), "package.json") {
                        if let Some(content) = &f.content {
                            let start = nested_string(content.as_str(), "scripts", "start");
                            if start.is_some() {
                                return Ok(start);
                            }
                        }
                    }
                    i = i + 1;
                }
                assert(files@.skip(i as int) =~= Seq::<ProjectFile>::empty());
                if has_index_js {
                    Ok(Some(String::from_str("node index.js")))
                } else {
                    Ok(None)
                }
            },
            TechStack::Python { .. } => {
                if has_main_py {
                    Ok(Some(String::from_str("python main.py")))
                } else if has_app_py {
                    Ok(Some(String::from_str("python app.py")))
                } else {
                    Ok(None)
                }
            },
            TechStack::Rust { .. } => Ok(Some(String::from_str("cargo run"))),
            TechStack::Go { .. } => Ok(Some(String::from_str("go run ."))),
            TechStack::Docker { .. } => Ok(Some(String::from_str("docker-compose up"))),
            _ => Ok(None),
        }
    }

    /// The dependency that a line of `requirements.txt` declares, if any.
    pub fn parse_requirement_line(line: &str) -> (r: Option<Dependency>)
        ensures
            match r {
                Some(d) => requirement_of(line@) == Some((d.name@, opt_view(d.version))) && !d.dev,
                None => requirement_of(line@) is None,
            },
    {
        let t = trim_str(line);
        let tv = chars_of(t.as_str());
        if tv.len() == 0 || tv[0] == '#' {
            return None;
        }
        let sep = chars_of("==");
        proof {
            reveal_strlit("==");
        }
        match find_sub(&tv, &sep) {
            None => Some(Dependency { name: t, version: None, dev: false }),
            Some(k) => {
                let name = substring(t.as_str(), 0, k);
                let rest = substring(t.as_str(), k + 2, tv.len());
                let rv = chars_of(rest.as_str());
                let version = match find_sub(&rv, &sep) {
                    None => rest,
                    Some(k2) => substring(rest.as_str(), 0, k2),
                };
                Some(Dependency { name, version: Some(version), dev: false })
            },
        }
    }

    /// The dependencies that a `requirements.txt` declares, line by line.
    pub fn parse_requirements(content: &str) -> (r: Vec<Dependency>)
        ensures
            dependencies_view(r@) == requirements_in(content@),
    {
        let v = chars_of(content);
        let n = v.len();
        let mut deps: Vec<Dependency> = Vec::new();
        let mut pos: usize = 0;
        assert(v@.subrange(0, v@.len() as int) =~= v@);
        loop
            invariant
                pos <= v@.len(),
                n == v@.len(),
                v@ == content@,
                requirements_in(content@) == dependencies_view(deps@) + requirements_in(
                    v@.subrange(pos as int, v@.len() as int),
                ),
            decreases v@.len() - pos,
        {
            let ghost rest = v@.subrange(pos as int, v@.len() as int);
            let next = find_char_from(&v, '\n', pos);
            let end = match next {
                Some(i) => i,
                None => v.len(),
            };
            proof {
                lemma_first_index(rest, '\n');
            }
            let line = substring(content, pos, end);
            assert(line@ =~= if first_index(rest, '\n') < 0 {
                rest
            } else {
                rest.subrange(0, first_index(rest, '\n'))
            });
            let ghost before = dependencies_view(deps@);
            if let Some(d) = Self::parse_requirement_line(line.as_str()) {
                push_dependency(&mut deps, d.name, d.version, false);
            }
            match next {
                None => {
                    assert(requirements_in(rest) =~= dependencies_view(deps@).subrange(
                        before.len() as int,
                        dependencies_view(deps@).len() as int,
                    ));
                    assert(dependencies_view(deps@) =~= before + requirements_in(rest));
                    return deps;
                },
                Some(i) => {
                    assert(rest.subrange(i - pos + 1, rest.len() as int) =~= v@.subrange(i + 1, v@.len() as int));
                    assert(dependencies_view(deps@) + requirements_in(v@.subrange(i + 1, v@.len() as int))
                        =~= before + requirements_in(rest));
                    pos = i + 1;
                },
            }
        }
    }

    /// The dependencies that the files declare: for each `package.json` its
    /// `dependencies` then its `devDependencies`, for each
    /// `requirements.txt` its lines; it always succeeds.
    pub fn parse_dependencies(&self, files: &Vec<ProjectFile>) -> (r: Result<Vec<Dependency>, AutoLaunchError>)
        ensures
            r is Ok,
            dependencies_view(r->Ok_0@) == dependencies_of(files@),
    {
        let mut deps: Vec<Dependency> = Vec::new();
        let mut i: usize = 0;
        while i < files.len()
            invariant
                i <= files@.len(),
                dependencies_view(deps@) == dependencies_of(files@.take(i as int)),
            decreases files@.len() - i,
        {
            let f = &files[i];
            assert(files@.take(i + 1).drop_last() =~= files@.take(i as int));
            assert(files@.take(i + 1).last() == *f);
            let ghost before = dependencies_view(deps@);
            if let Some(content) = &f.content {
                if str_eq(f.name.as_str(), "package.json") {
                    append_members(&mut deps, object_members(content.as_str(), "dependencies"), false);
                    append_members(&mut deps, object_members(content.as_str(), "devDependencies"), true);
                    assert(dependencies_view(deps@) =~= before + dependencies_of_file(*f));
                } else if str_eq(f.name.as_str(), "requirements.txt") {
                    let more = Self::parse_requirements(content.as_str());
                    let mut more = more;
                    let ghost m = more@;
                    deps.append(&mut more);
                    assert(dependencies_view(deps@) =~= before + dependencies_view(m));
                } else {
                    assert(dependencies_view(deps@) =~= before + dependencies_of_file(*f));
                }
            } else {
                assert(dependencies_view(deps@) =~= before + dependencies_of_file(*f));
            }
            i = i + 1;
        }
        assert(files@.take(i as int) =~= files@);
        Ok(deps)
    }

    /// Analyses a project: its stack, configuration files, entry command
    /// and dependencies, no security finding yet, and an unknown trust
    /// level. It always succeeds.
    pub fn analyze_project(
        &self,
        files: &Vec<ProjectFile>,
        has_index_js: bool,
        has_main_py: bool,
        has_app_py: bool,
    ) -> (r: Result<ProjectInfo, AutoLaunchError>)
        ensures
            r is Ok,
            ({
                let info = r->Ok_0;
                &&& info.stack == stack_of(file_names(files@))
                &&& info.config_files@.map_values(|c: ConfigFile| c.file_type) == config_types(file_names(files@))
                &&& opt_view(info.entry_command) == entry_point_of(
                    info.stack,
                    files@,
                    has_index_js,
                    has_main_py,
                    has_app_py,
                )
                &&& dependencies_view(info.dependencies@) == dependencies_of(files@)
                &&& info.security_warnings@.len() == 0
                &&& info.trust_level == TrustLevel::Unknown
            }),
    {
        let stack = self.detect_stack(files);
        let config_files = self.find_config_files(files);
        let entry_command = match self.find_entry_point(&stack, files, has_index_js, has_main_py, has_app_py) {
            Ok(e) => e,
            Err(_) => None,
        };
        let dependencies = match self.parse_dependencies(files) {
            Ok(d) => d,
            Err(_) => Vec::new(),
        };
        Ok(ProjectInfo {
            stack,
            entry_command,
            dependencies,
            config_files,
            security_warnings: Vec::new(),
            trust_level: TrustLevel::Unknown,
        })
    }
}

/// Appends, in order, one dependency for each member of a `package.json`
/// dependency table (its name, and its version where the value is a
/// string), marked as development-only or not; nothing where there is no
/// such table.
pub fn append_members(deps: &mut Vec<Dependency>, members: Option<Vec<(String, Option<String>)>>, dev: bool)
    ensures
        dependencies_view(final(deps)@) == dependencies_view(old(deps)@) + members_as_dependencies(
            match members {
                Some(v) => Some(members_view(v@)),
                None => None,
            },
            dev,
        ),
{
    let ghost start = dependencies_view(deps@);
    match members {
        None => {
            assert(dependencies_view(deps@) =~= start + Seq::<(Seq<char>, Option<Seq<char>>, bool)>::empty());
        },
        Some(list) => {
            let ghost all = members_as_dependencies(Some(members_view(list@)), dev);
            let mut i: usize = 0;
            while i < list.len()
                invariant
                    i <= list@.len(),
                    all == members_as_dependencies(Some(members_view(list@)), dev),
                    dependencies_view(deps@) == start + all.take(i as int),
                decreases list@.len() - i,
            {
                let (name, version) = &list[i];
                let v = match version {
                    Some(v) => Some(v.clone()),
                    None => None,
                };
                proof {
                    assert(all[i as int] == (name@, opt_view(*version), dev));
                    assert(all.take(i + 1) =~= all.take(i as int).push((name@, opt_view(*version), dev)));
                }
                push_dependency(deps, name.clone(), v, dev);
                i = i + 1;
            }
            assert(all.take(i as int) =~= all);
        },
    }
}

/// The stack of a project is the one marked by its first marking file,
/// whatever files follow.
pub proof fn law_first_marker_decides_stack(names: Seq<Seq<char>>, i: int)
    requires
        0 <= i < names.len(),
        stack_for_name(names[i]) is Some,
        forall|j: int| 0 <= j < i ==> stack_for_name(#[trigger] names[j]) is None,
    ensures
        stack_of(names) == stack_for_name(names[i])->Some_0,
    decreases i,
{
    if i > 0 {
        assert forall|j: int| 0 <= j < i - 1 implies stack_for_name(#[trigger] names.drop_first()[j]) is None by {
            assert(names.drop_first()[j] == names[j + 1]);
        }
        assert(stack_for_name(names[0]) is None);
        law_first_marker_decides_stack(names.drop_first(), i - 1);
        assert(first_marked_stack(names) == first_marked_stack(names.drop_first()));
    }
}

/// Each marking file names its stack: where it is the first marking file of
/// a project, `package.json` makes it Node.js; `requirements.txt`,
/// `pyproject.toml` or `setup.py` Python; `Cargo.toml` Rust; `go.mod` Go;
/// `pom.xml` or `build.gradle` Java; a `Dockerfile` Docker; and
/// `docker-compose.yml` or `docker-compose.yaml` Docker Compose.
pub proof fn law_marking_files_name_their_stacks(names: Seq<Seq<char>>, i: int)
    requires
        0 <= i < names.len(),
        forall|j: int| 0 <= j < i ==> stack_for_name(#[trigger] names[j]) is None,
    ensures
        names[i] == "package.json"@ ==> stack_of(names) == (TechStack::NodeJs { version: None }),
        names[i] == "requirements.txt"@ || names[i] == "pyproject.toml"@ || names[i] == "setup.py"@
            ==> stack_of(names) == (TechStack::Python { version: None }),
        names[i] == "Cargo.toml"@ ==> stack_of(names) == (TechStack::Rust { edition: None }),
        names[i] == "go.mod"@ ==> stack_of(names) == (TechStack::Go { version: None }),
        names[i] == "pom.xml"@ || names[i] == "build.gradle"@ ==> stack_of(names) == (TechStack::Java { version: None }),
        names[i] == "Dockerfile"@ ==> stack_of(names) == (TechStack::Docker { compose: false }),
        names[i] == "docker-compose.yml"@ || names[i] == "docker-compose.yaml"@
            ==> stack_of(names) == (TechStack::Docker { compose: true }),
{
    reveal_strlit("package.json");
    reveal_strlit("requirements.txt");
    reveal_strlit("pyproject.toml");
    reveal_strlit("setup.py");
    reveal_strlit("Cargo.toml");
    reveal_strlit("go.mod");
    reveal_strlit("pom.xml");
    reveal_strlit("build.gradle");
    reveal_strlit("Dockerfile");
    reveal_strlit("docker-compose.yml");
    reveal_strlit("docker-compose.yaml");
    let n = names[i];
    if n == "package.json"@ {
        assert(n.len() == 12 && n[0] == 'p');
    } else if n == "requirements.txt"@ {
        assert(n.len() == 16 && n[0] == 'r');
    } else if n == "pyproject.toml"@ {
        assert(n.len() == 14 && n[0] == 'p');
    } else if n == "setup.py"@ {
        assert(n.len() == 8 && n[0] == 's');
    } else if n == "Cargo.toml"@ {
        assert(n.len() == 10 && n[0] == 'C');
    } else if n == "go.mod"@ {
        assert(n.len() == 6 && n[0] == 'g');
    } else if n == "pom.xml"@ {
        assert(n.len() == 7 && n[0] == 'p');
    } else if n == "build.gradle"@ {
        assert(n.len() == 12 && n[0] == 'b');
    } else if n == "Dockerfile"@ {
        assert(n.len() == 10 && n[0] == 'D');
    } else if n == "docker-compose.yml"@ {
        assert(n.len() == 18 && n[0] == 'd');
    } else if n == "docker-compose.yaml"@ {
        assert(n.len() == 19 && n[0] == 'd');
    }
    if stack_for_name(n) is Some {
        law_first_marker_decides_stack(names, i);
    }
}

/// A project with no marking file and no web page, style sheet or script
/// has an unknown stack.
pub proof fn law_unmarked_project_is_unknown(names: Seq<Seq<char>>)
    requires
        forall|j: int| 0 <= j < names.len() ==> stack_for_name(#[trigger] names[j]) is None,
        !any_extension(names, "html"@),
        !any_extension(names, "css"@) || !any_extension(names, "js"@),
    ensures
        stack_of(names) == TechStack::Unknown,
    decreases names.len(),
{
    lemma_no_marker(names);
}

proof fn lemma_no_marker(names: Seq<Seq<char>>)
    requires
        forall|j: int| 0 <= j < names.len() ==> stack_for_name(#[trigger] names[j]) is None,
    ensures
        first_marked_stack(names) is None,
    decreases names.len(),
{
    if names.len() > 0 {
        assert(stack_for_name(names[0]) is None);
        assert forall|j: int| 0 <= j < names.drop_first().len() implies stack_for_name(
            #[trigger] names.drop_first()[j],
        ) is None by {
            assert(names.drop_first()[j] == names[j + 1]);
        }
        lemma_no_marker(names.drop_first());
    }
}

} // verus!
