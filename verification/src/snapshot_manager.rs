//! Snapshots of projects: where they are stored, which files they leave
//! out, what their metadata records, and when they are old enough to go.
//!
//! Copying, measuring and deleting the files is the application's work.

use vstd::prelude::*;
use std::path::PathBuf;
use crate::error::{AutoLaunchError, opt_view};
use crate::models::{Dependency, EnvironmentType, ProjectInfo, ProjectSnapshot, SnapshotMetadata, stack_text};
use crate::paths::{data_dir, is_plain_component, join_path, joined, path_text, text_of_path};
use crate::text::str_eq;

verus! {

/// The names of the files and directories that a snapshot leaves out.
pub open spec fn excluded_names() -> Seq<Seq<char>> {
    seq![
        ".git"@,
        "node_modules"@,
        "target"@,
        "__pycache__"@,
        ".venv"@,
        "venv"@,
        "dist"@,
        "build"@,
        ".cache"@,
    ]
}

/// Where the snapshots are kept under a data directory:
/// `autolaunch/snapshots`.
pub open spec fn snapshots_dir_under(data: PathBuf) -> PathBuf {
    joined(joined(data, "autolaunch"@), "snapshots"@)
}

/// The name under which an environment type is recorded.
pub open spec fn environment_type_text(t: EnvironmentType) -> Seq<char> {
    match t {
        EnvironmentType::Docker => "docker"@,
        EnvironmentType::Direct => "direct"@,
    }
}

/// Whether a file or directory of that name is left out of a snapshot.
pub open spec fn is_excluded_name(name: Seq<char>) -> bool {
    excluded_names().contains(name)
}

/// The longest age, in seconds, that `chrono` can hold.
pub const MAX_AGE_SECS: i64 = 9223372036854775;

/// Whether a snapshot of the given age (whole seconds and the nanoseconds
/// past them) is older than the given number of days.
pub open spec fn is_expired(age_secs: int, age_nanos: int, max_age_days: int) -> bool {
    age_secs > max_age_days * 86400 || (age_secs == max_age_days * 86400 && age_nanos > 0)
}

/// A dependency as name, version and whether it is for development only.
pub open spec fn dependency_view(d: Dependency) -> (Seq<char>, Option<Seq<char>>, bool) {
    (d.name@, opt_view(d.version), d.dev)
}

pub open spec fn dependencies_view(s: Seq<Dependency>) -> Seq<(Seq<char>, Option<Seq<char>>, bool)> {
    s.map_values(|d: Dependency| dependency_view(d))
}

/// The metadata of a snapshot of a project: its entry command, ports,
/// variables, dependencies and the text of its stack.
pub open spec fn metadata_of(
    m: SnapshotMetadata,
    info: ProjectInfo,
    ports: Seq<u16>,
    vars: Seq<(String, String)>,
) -> bool {
    &&& opt_view(m.entry_command) == opt_view(info.entry_command)
    &&& m.ports@ == ports
    &&& m.environment_variables@ == vars
    &&& dependencies_view(m.dependencies@) == dependencies_view(info.dependencies@)
    &&& m.tech_stack@ == stack_text(info.stack)
}

/// Stores snapshots under one directory, one sub-directory per snapshot.
pub struct SnapshotManager {
    snapshots_dir: PathBuf,
}

/// A copy of a dependency.
pub fn copy_dependency(d: &Dependency) -> (c: Dependency)
    ensures
        dependency_view(c) == dependency_view(*d),
{
    Dependency {
        name: d.name.clone(),
        version: match &d.version {
            Some(v) => Some(v.clone()),
            None => None,
        },
        dev: d.dev,
    }
}

impl SnapshotManager {
    /// The directory the snapshots live in.
    pub closed spec fn dir(self) -> PathBuf {
        self.snapshots_dir
    }

    /// A manager whose snapshots live in `autolaunch/snapshots` under the
    /// user's data directory. Fails where that directory cannot be
    /// determined; the caller creates it.
    pub fn new() -> (r: Result<SnapshotManager, AutoLaunchError>)
        ensures
            r is Err ==> r->Err_0 is Io && r->Err_0.detail() == "Не удалось найти директорию данных"@,
            r is Ok ==> exists|d: PathBuf| r->Ok_0.dir() == #[trigger] snapshots_dir_under(d),
    {
        let r = Self::with_data_dir(data_dir());
        proof {
            if r is Ok {
                let m = r->Ok_0;
                assert(m.dir() == snapshots_dir_under(choose|d: PathBuf| m.dir() == snapshots_dir_under(d)));
            }
        }
        r
    }

    /// A manager whose snapshots live in `autolaunch/snapshots` under the
    /// given data directory, or the error for a machine that has none.
    pub fn with_data_dir(data: Option<PathBuf>) -> (r: Result<SnapshotManager, AutoLaunchError>)
        ensures
            match data {
                None => r is Err && r->Err_0 is Io && r->Err_0.detail() == "Не удалось найти директорию данных"@,
                Some(d) => r is Ok && r->Ok_0.dir() == snapshots_dir_under(d),
            },
    {
        match data {
            None => Err(AutoLaunchError::Io(String::from_str("Не удалось найти директорию данных"))),
            Some(dir) => {
                let app = join_path(&dir, "autolaunch");
                Ok(SnapshotManager { snapshots_dir: join_path(&app, "snapshots") })
            },
        }
    }

    /// A manager whose snapshots live in the given directory.
    pub fn with_dir(snapshots_dir: PathBuf) -> (m: SnapshotManager)
        ensures
            m.dir() == snapshots_dir,
    {
        SnapshotManager { snapshots_dir }
    }

    /// The directory the snapshots live in.
    pub fn snapshots_dir(&self) -> (r: &PathBuf)
        ensures
            *r == self.dir(),
    {
        &self.snapshots_dir
    }

    /// The directory of one snapshot: the snapshot's id under the
    /// manager's directory. Snapshots with different plain ids (such as
    /// the hyphenated UUIDs they are given) have different directories.
    pub fn snapshot_dir(&self, snapshot_id: &str) -> (r: PathBuf)
        ensures
            r == joined(self.dir(), snapshot_id@),
            is_plain_component(snapshot_id@) ==> forall|other: Seq<char>|
                is_plain_component(other) && other != snapshot_id@ ==> #[trigger] joined(self.dir(), other) != r,
    {
        join_path(&self.snapshots_dir, snapshot_id)
    }

    /// The record of a snapshot stored under this manager: its id, its
    /// project, its directory as text, the name of its environment type,
    /// and the metadata, time and size taken when it was stored.
    pub fn snapshot_record(
        &self,
        snapshot_id: String,
        project_id: &str,
        environment_type: EnvironmentType,
        metadata: String,
        created_at: String,
        size_bytes: i64,
    ) -> (s: ProjectSnapshot)
        ensures
            s.id == snapshot_id,
            s.project_id@ == project_id@,
            s.snapshot_path@ == text_of_path(joined(self.dir(), snapshot_id@)),
            s.environment_type@ == environment_type_text(environment_type),
            s.metadata == metadata,
            s.created_at == created_at,
            s.size_bytes == size_bytes,
    {
        let dir = self.snapshot_dir(snapshot_id.as_str());
        let snapshot_path = path_text(&dir);
        ProjectSnapshot {
            id: snapshot_id,
            project_id: String::from_str(project_id),
            snapshot_path,
            environment_type: Self::environment_type_name(environment_type),
            metadata,
            created_at,
            size_bytes,
        }
    }

    /// Whether a file or directory of this name is left out when a project
    /// is copied into a snapshot.
    pub fn is_excluded(name: &str) -> (b: bool)
        ensures
            b == is_excluded_name(name@),
    {
        let patterns = exclude_table();
        let mut i: usize = 0;
        while i < patterns.len()
            invariant
                i <= patterns@.len(),
                patterns@.len() == excluded_names().len(),
                forall|k: int| 0 <= k < patterns@.len() ==> (#[trigger] patterns@[k])@ == excluded_names()[k],
                forall|k: int| 0 <= k < i ==> excluded_names()[k] != name@,
            decreases patterns@.len() - i,
        {
            if str_eq(name, patterns[i]) {
                assert(excluded_names()[i as int] == name@);
                return true;
            }
            i = i + 1;
        }
        false
    }

    /// The metadata recorded with a snapshot of a project.
    pub fn snapshot_metadata(
        project_info: &ProjectInfo,
        ports: Vec<u16>,
        environment_variables: Vec<(String, String)>,
    ) -> (m: SnapshotMetadata)
        ensures
            metadata_of(m, *project_info, ports@, environment_variables@),
    {
        let mut deps: Vec<Dependency> = Vec::new();
        let mut i: usize = 0;
        while i < project_info.dependencies.len()
            invariant
                i <= project_info.dependencies@.len(),
                dependencies_view(deps@) == dependencies_view(project_info.dependencies@.take(i as int)),
            decreases project_info.dependencies@.len() - i,
        {
            let d = copy_dependency(&project_info.dependencies[i]);
            assert(dependencies_view(project_info.dependencies@.take(i + 1)) =~= dependencies_view(
                project_info.dependencies@.take(i as int),
            ).push(dependency_view(d)));
            assert(dependencies_view(deps@.push(d)) =~= dependencies_view(deps@).push(dependency_view(d)));
            deps.push(d);
            i = i + 1;
        }
        assert(project_info.dependencies@.take(i as int) =~= project_info.dependencies@);
        SnapshotMetadata {
            entry_command: match &project_info.entry_command {
                Some(c) => Some(c.clone()),
                None => None,
            },
            ports,
            environment_variables,
            dependencies: deps,
            tech_stack: project_info.stack.to_string(),
        }
    }

    /// The name under which the environment type of a snapshot is stored.
    pub fn environment_type_name(t: EnvironmentType) -> (r: String)
        ensures
            r@ == environment_type_text(t),
    {
        match t {
            EnvironmentType::Docker => String::from_str("docker"),
            EnvironmentType::Direct => String::from_str("direct"),
        }
    }

    /// The error for a snapshot that is not stored.
    pub fn snapshot_not_found(snapshot_id: &str) -> (e: AutoLaunchError)
        ensures
            e is Io,
            e.detail() == "Снимок не найден: "@ + snapshot_id@,
    {
        AutoLaunchError::Io(String::from_str("Снимок не найден: ").concat(snapshot_id))
    }

    /// Whether a snapshot whose metadata was last written `age_secs`
    /// seconds and `age_nanos` nanoseconds ago is older than `max_age_days`
    /// days, and so is cleaned up.
    pub fn is_snapshot_expired(age_secs: i64, age_nanos: u32, max_age_days: u64) -> (b: bool)
        requires
            max_age_days * 86400 <= MAX_AGE_SECS,
        ensures
            b == is_expired(age_secs as int, age_nanos as int, max_age_days as int),
    {
        let limit: i64 = (max_age_days * 86400) as i64;
        age_secs > limit || (age_secs == limit && age_nanos > 0)
    }
}

fn exclude_table() -> (t: Vec<&'static str>)
    ensures
        t@.len() == excluded_names().len(),
        forall|k: int| 0 <= k < t@.len() ==> (#[trigger] t@[k])@ == excluded_names()[k],
{
    let mut t: Vec<&'static str> = Vec::new();
    t.push(".git");
    t.push("node_modules");
    t.push("target");
    t.push("__pycache__");
    t.push(".venv");
    t.push("venv");
    t.push("dist");
    t.push("build");
    t.push(".cache");
    t
}

} // verus!
