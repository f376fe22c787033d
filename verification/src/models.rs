//! The data exchanged between the layers of AutoLaunch.

use vstd::prelude::*;
use std::path::PathBuf;

verus! {

/// File-system paths are carried through the library unchanged.
#[verifier::external_type_specification]
#[verifier::external_body]
pub struct ExPathBuf(std::path::PathBuf);

/// `PathBuf::clone`: a copy of the path, equal to it.
pub assume_specification[ <std::path::PathBuf as std::clone::Clone>::clone ](p: &std::path::PathBuf) -> (r: std::path::PathBuf)
    ensures
        r == *p,
;

/// A project in the launch history. `tags` holds a JSON array of strings.
#[derive(Debug, Clone)]
pub struct Project {
    pub id: String,
    pub github_url: String,
    pub owner: String,
    pub repo_name: String,
    pub local_path: String,
    pub detected_stack: String,
    pub trust_level: String,
    pub created_at: String,
    pub last_run_at: Option<String>,
    pub tags: String,
}

/// What the analysis of a project found.
#[derive(Debug, Clone)]
pub struct ProjectInfo {
    pub stack: TechStack,
    pub entry_command: Option<String>,
    pub dependencies: Vec<Dependency>,
    pub config_files: Vec<ConfigFile>,
    pub security_warnings: Vec<SecurityWarning>,
    pub trust_level: TrustLevel,
}

/// The technology stack of a project.
#[derive(Debug, Clone)]
pub enum TechStack {
    NodeJs { version: Option<String> },
    Python { version: Option<String> },
    Rust { edition: Option<String> },
    Go { version: Option<String> },
    Java { version: Option<String> },
    Docker { compose: bool },
    Static { framework: Option<String> },
    Unknown,
}

/// The text of an optional value, or `unknown`.
pub open spec fn or_unknown(o: Option<String>) -> Seq<char> {
    match o {
        Some(s) => s@,
        None => "unknown"@,
    }
}

/// The text form of a stack, e.g. `NodeJs(18)` or `Docker(compose: true)`.
pub open spec fn stack_text(s: TechStack) -> Seq<char> {
    match s {
        TechStack::NodeJs { version } => "NodeJs("@ + or_unknown(version) + ")"@,
        TechStack::Python { version } => "Python("@ + or_unknown(version) + ")"@,
        TechStack::Rust { edition } => "Rust("@ + or_unknown(edition) + ")"@,
        TechStack::Go { version } => "Go("@ + or_unknown(version) + ")"@,
        TechStack::Java { version } => "Java("@ + or_unknown(version) + ")"@,
        TechStack::Docker { compose } => if compose {
            "Docker(compose: true)"@
        } else {
            "Docker(compose: false)"@
        },
        TechStack::Static { framework } => "Static("@ + or_unknown(framework) + ")"@,
        TechStack::Unknown => "Unknown"@,
    }
}

fn wrap_optional(prefix: &str, value: &Option<String>) -> (r: String)
    ensures
        r@ == prefix@ + or_unknown(*value) + ")"@,
{
    let inner: &str = match value {
        Some(v) => v.as_str(),
        None => "unknown",
    };
    String::from_str(prefix).concat(inner).concat(")")
}

impl TechStack {
    /// The text form of the stack, as stored in the project history.
    pub fn to_string(&self) -> (r: String)
        ensures
            r@ == stack_text(*self),
    {
        match self {
            TechStack::NodeJs { version } => wrap_optional("NodeJs(", version),
            TechStack::Python { version } => wrap_optional("Python(", version),
            TechStack::Rust { edition } => wrap_optional("Rust(", edition),
            TechStack::Go { version } => wrap_optional("Go(", version),
            TechStack::Java { version } => wrap_optional("Java(", version),
            TechStack::Docker { compose } => if *compose {
                String::from_str("Docker(compose: true)")
            } else {
                String::from_str("Docker(compose: false)")
            },
            TechStack::Static { framework } => wrap_optional("Static(", framework),
            TechStack::Unknown => String::from_str("Unknown"),
        }
    }
}

/// A dependency declared by a project.
#[derive(Debug, Clone)]
pub struct Dependency {
    pub name: String,
    pub version: Option<String>,
    pub dev: bool,
}

/// A configuration file found in a project.
#[derive(Debug, Clone)]
pub struct ConfigFile {
    pub path: PathBuf,
    pub file_type: ConfigFileType,
}

/// The kinds of configuration file that the analysis recognises.
#[derive(Debug, Clone, Copy, PartialEq, Eq)]
pub enum ConfigFileType {
    PackageJson,
    RequirementsTxt,
    PyprojectToml,
    CargoToml,
    Dockerfile,
    DockerCompose,
    GoMod,
    PomXml,
}

/// A security finding about a command or a project.
#[derive(Debug, Clone)]
pub struct SecurityWarning {
    pub level: SecurityLevel,
    pub message: String,
    pub suggestion: Option<String>,
}

/// How dangerous a finding is.
#[derive(Debug, Clone, Copy, PartialEq, Eq)]
pub enum SecurityLevel {
    Low,
    Medium,
    High,
    Critical,
}

/// How far the user trusts a project.
#[derive(Debug, Clone, Copy, PartialEq, Eq)]
pub enum TrustLevel {
    Unknown,
    Trusted,
    Untrusted,
}

/// The text form of a trust level: the variant's name.
pub open spec fn trust_text(t: TrustLevel) -> Seq<char> {
    match t {
        TrustLevel::Unknown => "Unknown"@,
        TrustLevel::Trusted => "Trusted"@,
        TrustLevel::Untrusted => "Untrusted"@,
    }
}

impl TrustLevel {
    /// The text form of the trust level, as stored in the project history.
    pub fn to_string(&self) -> (r: String)
        ensures
            r@ == trust_text(*self),
    {
        match self {
            TrustLevel::Unknown => String::from_str("Unknown"),
            TrustLevel::Trusted => String::from_str("Trusted"),
            TrustLevel::Untrusted => String::from_str("Untrusted"),
        }
    }
}

/// The stage a launched project is in.
#[derive(Debug, Clone)]
pub enum ExecutionStatus {
    Preparing,
    Installing,
    Starting,
    Running,
    Stopping,
    Stopped,
    Failed { error: String },
}

/// What identifies a launched process.
#[derive(Debug, Clone)]
pub struct ProcessHandle {
    pub id: String,
    pub pid: Option<u32>,
    pub container_id: Option<String>,
    pub ports: Vec<u16>,
}

/// One line of a process log. `timestamp` is the RFC 3339 text of the UTC
/// time at which the line was recorded.
#[derive(Debug, Clone)]
pub struct LogEntry {
    pub timestamp: String,
    pub level: String,
    pub message: String,
}

/// A stored snapshot of a project. `metadata` holds the JSON of a
/// `SnapshotMetadata`.
#[derive(Debug, Clone)]
pub struct ProjectSnapshot {
    pub id: String,
    pub project_id: String,
    pub snapshot_path: String,
    pub environment_type: String,
    pub metadata: String,
    pub created_at: String,
    pub size_bytes: i64,
}

/// What a snapshot records of the project it was taken from.
#[derive(Debug, Clone)]
pub struct SnapshotMetadata {
    pub entry_command: Option<String>,
    pub ports: Vec<u16>,
    pub environment_variables: Vec<(String, String)>,
    pub dependencies: Vec<Dependency>,
    pub tech_stack: String,
}

/// Where a snapshot's project ran.
#[derive(Debug, Clone, Copy, PartialEq, Eq)]
pub enum EnvironmentType {
    Docker,
    Direct,
}

} // verus!
