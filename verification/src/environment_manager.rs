//! Isolated environments: the Docker configuration and Dockerfile for a
//! project, the arguments of the container it runs in, and the choice
//! between a container and a direct run.

use vstd::prelude::*;
use std::path::PathBuf;
use crate::error::AutoLaunchError;
use crate::json::strings_view;
use crate::models::{EnvironmentType, ProjectInfo, TechStack, TrustLevel};
use crate::text::{decimal, decimal_string, trim, trim_str};

verus! {

/// How a project is isolated.
#[derive(Debug, Clone)]
pub enum IsolationMode {
    /// In a Docker container.
    Sandbox(DockerConfig),
    /// Directly, in the language's own virtual environment.
    Direct(VirtualEnvConfig),
}

/// The configuration of a Docker container.
#[derive(Debug, Clone)]
pub struct DockerConfig {
    pub image: String,
    pub working_dir: String,
    pub ports: Vec<u16>,
    pub volumes: Vec<(String, String)>,
    pub environment: Vec<(String, String)>,
    pub read_only: bool,
    pub no_root: bool,
}

/// The configuration of a direct run.
#[derive(Debug, Clone)]
pub struct VirtualEnvConfig {
    pub working_dir: PathBuf,
    pub env_vars: Vec<(String, String)>,
}

/// An isolated environment in which a project runs.
#[derive(Debug, Clone)]
pub struct Environment {
    pub id: String,
    pub mode: IsolationMode,
    pub working_dir: PathBuf,
    pub container_id: Option<String>,
}

/// Builds the configurations of environments.
pub struct EnvironmentManager;

/// One step of preparing a direct run.
#[derive(Debug, Clone, Copy, PartialEq, Eq)]
pub enum SetupStep {
    /// `python -m venv .venv` in the project.
    CreatePythonVenv,
    /// `pip install -r requirements.txt` with the project's virtual environment.
    InstallPythonDependencies,
    /// `npm install` in the project.
    InstallNodeDependencies,
}

/// The version written in the stack, or the default.
pub open spec fn version_or(v: Option<String>, default: Seq<char>) -> Seq<char> {
    match v {
        Some(s) => s@,
        None => default,
    }
}

/// The base image for a stack.
pub open spec fn docker_image(stack: TechStack) -> Seq<char> {
    match stack {
        TechStack::NodeJs { version } => "node:"@ + version_or(version, "18"@) + "-alpine"@,
        TechStack::Python { version } => "python:"@ + version_or(version, "3.11"@) + "-alpine"@,
        TechStack::Rust { .. } => "rust:alpine"@,
        TechStack::Go { .. } => "golang:alpine"@,
        _ => "alpine:latest"@,
    }
}

/// The ports a container of the stack publishes.
pub open spec fn docker_ports(stack: TechStack) -> Seq<u16> {
    match stack {
        TechStack::NodeJs { .. } => seq![3000u16, 8000u16, 8080u16],
        TechStack::Python { .. } => seq![5000u16, 8000u16, 8080u16],
        _ => seq![8000u16, 8080u16],
    }
}

/// The texts of a list of string pairs.
pub open spec fn pairs_view(v: Seq<(String, String)>) -> Seq<(Seq<char>, Seq<char>)> {
    v.map_values(|p: (String, String)| (p.0@, p.1@))
}

/// The Docker configuration of a project: the stack's image and ports, the
/// project mounted at `/app`, `NODE_ENV=development`, a read-only file
/// system and no root user.
pub open spec fn docker_config_of(stack: TechStack, c: DockerConfig) -> bool {
    &&& c.image@ == docker_image(stack)
    &&& c.working_dir@ == "/app"@
    &&& c.ports@ == docker_ports(stack)
    &&& pairs_view(c.volumes@) == seq![("./"@, "/app"@)]
    &&& pairs_view(c.environment@) == seq![("NODE_ENV"@, "development"@)]
    &&& c.read_only
    &&& c.no_root
}

/// The Dockerfile written for a project that has none.
pub open spec fn dockerfile_text(stack: TechStack) -> Seq<char> {
    match stack {
        TechStack::NodeJs { version } => "FROM node:"@ + version_or(version, "18"@)
            + "-alpine\nWORKDIR /app\nCOPY package*.json ./\nRUN npm install\nCOPY . .\nEXPOSE 3000 8000 8080\nCMD [\"npm\", \"start\"]\n"@,
        TechStack::Python { version } => "FROM python:"@ + version_or(version, "3.11"@)
            + "-alpine\nWORKDIR /app\nCOPY requirements.txt ./\nRUN pip install -r requirements.txt\nCOPY . .\nEXPOSE 5000 8000 8080\nCMD [\"python\", \"main.py\"]\n"@,
        TechStack::Rust { .. } => "FROM rust:alpine\nWORKDIR /app\nCOPY Cargo.toml Cargo.lock ./\nCOPY src ./src\nRUN cargo build --release\nEXPOSE 8000 8080\nCMD [\"./target/release/app\"]\n"@,
        TechStack::Go { .. } => "FROM golang:alpine\nWORKDIR /app\nCOPY . .\nEXPOSE 8000 8080\nCMD [\"sh\"]\n"@,
        _ => "FROM alpine:latest\nWORKDIR /app\nCOPY . .\nEXPOSE 8000 8080\nCMD [\"sh\"]\n"@,
    }
}

/// The arguments `-p port:port` for each published port.
pub open spec fn port_args(ports: Seq<u16>) -> Seq<Seq<char>>
    decreases ports.len(),
{
    if ports.len() == 0 {
        Seq::empty()
    } else {
        let p = decimal(ports.last() as nat);
        port_args(ports.drop_last()) + seq!["-p"@, p + ":"@ + p]
    }
}

/// The arguments `-v host:container` (with `:ro` on a read-only file
/// system) for each volume.
pub open spec fn volume_args(volumes: Seq<(Seq<char>, Seq<char>)>, read_only: bool) -> Seq<Seq<char>>
    decreases volumes.len(),
{
    if volumes.len() == 0 {
        Seq::empty()
    } else {
        let v = volumes.last();
        let spec = if read_only {
            v.0 + ":"@ + v.1 + ":ro"@
        } else {
            v.0 + ":"@ + v.1
        };
        volume_args(volumes.drop_last(), read_only) + seq!["-v"@, spec]
    }
}

/// The arguments `-e key=value` for each environment variable.
pub open spec fn env_args(vars: Seq<(Seq<char>, Seq<char>)>) -> Seq<Seq<char>>
    decreases vars.len(),
{
    if vars.len() == 0 {
        Seq::empty()
    } else {
        let v = vars.last();
        env_args(vars.drop_last()) + seq!["-e"@, v.0 + "="@ + v.1]
    }
}

/// The arguments of `docker create` for an environment: a named container
/// removed on exit, without new privileges or capabilities, as user
/// 1000:1000 where no root is wanted, with a read-only file system and a
/// small writable `/tmp` where asked, then ports, volumes, variables and the
/// image.
pub open spec fn create_args(env_id: Seq<char>, c: DockerConfig, image_tag: Seq<char>) -> Seq<Seq<char>> {
    seq![
        "create"@,
        "--name"@,
        "autolaunch-container-"@ + env_id,
        "--rm"@,
        "--security-opt"@,
        "no-new-privileges"@,
        "--cap-drop"@,
        "ALL"@,
    ] + (if c.no_root {
        seq!["--user"@, "1000:1000"@]
    } else {
        Seq::empty()
    }) + (if c.read_only {
        seq!["--read-only"@, "--tmpfs"@, "/tmp:rw,noexec,nosuid,size=100m"@]
    } else {
        Seq::empty()
    }) + port_args(c.ports@) + volume_args(pairs_view(c.volumes@), c.read_only) + env_args(
        pairs_view(c.environment@),
    ) + seq![image_tag]
}

/// Whether a project must run in a sandbox: unknown and untrusted ones must.
pub open spec fn needs_sandbox(trust: TrustLevel) -> bool {
    trust == TrustLevel::Unknown || trust == TrustLevel::Untrusted
}

fn push_text(v: &mut Vec<String>, s: &str)
    ensures
        strings_view(final(v)@) == strings_view(old(v)@).push(s@),
{
    let ghost before = v@;
    v.push(String::from_str(s));
    assert(strings_view(v@) =~= strings_view(before).push(s@));
}

fn push_string(v: &mut Vec<String>, s: String)
    ensures
        strings_view(final(v)@) == strings_view(old(v)@).push(s@),
{
    let ghost before = v@;
    let ghost t = s@;
    v.push(s);
    assert(strings_view(v@) =~= strings_view(before).push(t));
}

fn text_pair(a: &str, b: &str) -> (p: (String, String))
    ensures
        p.0@ == a@,
        p.1@ == b@,
{
    (String::from_str(a), String::from_str(b))
}

impl EnvironmentManager {
    pub fn new() -> (m: EnvironmentManager) {
        EnvironmentManager
    }

    /// The Docker configuration of a project; it always succeeds.
    pub fn generate_docker_config(&self, project: &ProjectInfo) -> (r: Result<DockerConfig, AutoLaunchError>)
        ensures
            r is Ok,
            docker_config_of(project.stack, r->Ok_0),
    {
        let image = match &project.stack {
            TechStack::NodeJs { version } => {
                let v: &str = match version {
                    Some(s) => s.as_str(),
                    None => "18",
                };
                String::from_str("node:").concat(v).concat("-alpine")
            },
            TechStack::Python { version } => {
                let v: &str = match version {
                    Some(s) => s.as_str(),
                    None => "3.11",
                };
                String::from_str("python:").concat(v).concat("-alpine")
            },
            TechStack::Rust { .. } => String::from_str("rust:alpine"),
            TechStack::Go { .. } => String::from_str("golang:alpine"),
            _ => String::from_str("alpine:latest"),
        };
        let mut ports: Vec<u16> = Vec::new();
        match &project.stack {
            TechStack::NodeJs { .. } => {
                ports.push(3000);
            },
            TechStack::Python { .. } => {
                ports.push(5000);
            },
            _ => {},
        }
        ports.push(8000);
        ports.push(8080);
        let mut volumes: Vec<(String, String)> = Vec::new();
        volumes.push(text_pair("./", "/app"));
        let mut environment: Vec<(String, String)> = Vec::new();
        environment.push(text_pair("NODE_ENV", "development"));
        assert(pairs_view(volumes@) =~= seq![("./"@, "/app"@)]);
        assert(pairs_view(environment@) =~= seq![("NODE_ENV"@, "development"@)]);
        assert(ports@ =~= docker_ports(project.stack));
        Ok(DockerConfig {
            image,
            working_dir: String::from_str("/app"),
            ports,
            volumes,
            environment,
            read_only: true,
            no_root: true,
        })
    }

    /// The Dockerfile written for a project that has none; it always
    /// succeeds.
    pub fn generate_dockerfile(&self, project: &ProjectInfo) -> (r: Result<String, AutoLaunchError>)
        ensures
            r is Ok,
            r->Ok_0@ == dockerfile_text(project.stack),
    {
        let text = match &project.stack {
            TechStack::NodeJs { version } => {
                let v: &str = match version {
                    Some(s) => s.as_str(),
                    None => "18",
                };
                String::from_str("FROM node:").concat(v).concat(
                    "-alpine\nWORKDIR /app\nCOPY package*.json ./\nRUN npm install\nCOPY . .\nEXPOSE 3000 8000 8080\nCMD [\"npm\", \"start\"]\n",
                )
            },
            TechStack::Python { version } => {
                let v: &str = match version {
                    Some(s) => s.as_str(),
                    None => "3.11",
                };
                String::from_str("FROM python:").concat(v).concat(
                    "-alpine\nWORKDIR /app\nCOPY requirements.txt ./\nRUN pip install -r requirements.txt\nCOPY . .\nEXPOSE 5000 8000 8080\nCMD [\"python\", \"main.py\"]\n",
                )
            },
            TechStack::Rust { .. } => String::from_str(
                "FROM rust:alpine\nWORKDIR /app\nCOPY Cargo.toml Cargo.lock ./\nCOPY src ./src\nRUN cargo build --release\nEXPOSE 8000 8080\nCMD [\"./target/release/app\"]\n",
            ),
            TechStack::Go { .. } => String::from_str("FROM golang:alpine\nWORKDIR /app\nCOPY . .\nEXPOSE 8000 8080\nCMD [\"sh\"]\n"),
            _ => String::from_str("FROM alpine:latest\nWORKDIR /app\nCOPY . .\nEXPOSE 8000 8080\nCMD [\"sh\"]\n"),
        };
        Ok(text)
    }

    /// The tag of the image built for an environment.
    pub fn image_tag(env_id: &str) -> (r: String)
        ensures
            r@ == "autolaunch-"@ + env_id@,
    {
        String::from_str("autolaunch-").concat(env_id)
    }

    /// The arguments of `docker build` for an environment's image.
    pub fn docker_build_args(image_tag: &str) -> (r: Vec<String>)
        ensures
            strings_view(r@) == seq!["build"@, "-t"@, image_tag@, "-f"@, "Dockerfile.autolaunch"@, "."@],
    {
        let mut r: Vec<String> = Vec::new();
        push_text(&mut r, "build");
        push_text(&mut r, "-t");
        push_text(&mut r, image_tag);
        push_text(&mut r, "-f");
        push_text(&mut r, "Dockerfile.autolaunch");
        push_text(&mut r, ".");
        assert(strings_view(r@) =~= seq!["build"@, "-t"@, image_tag@, "-f"@, "Dockerfile.autolaunch"@, "."@]);
        r
    }

    /// The arguments of `docker create` for an environment.
    pub fn docker_create_args(env_id: &str, config: &DockerConfig, image_tag: &str) -> (r: Vec<String>)
        ensures
            strings_view(r@) == create_args(env_id@, *config, image_tag@),
    {
        let mut args: Vec<String> = Vec::new();
        push_text(&mut args, "create");
        push_text(&mut args, "--name");
        push_string(&mut args, String::from_str("autolaunch-container-").concat(env_id));
        push_text(&mut args, "--rm");
        push_text(&mut args, "--security-opt");
        push_text(&mut args, "no-new-privileges");
        push_text(&mut args, "--cap-drop");
        push_text(&mut args, "ALL");
        let ghost base = strings_view(args@);
        if config.no_root {
            push_text(&mut args, "--user");
            push_text(&mut args, "1000:1000");
        }
        let ghost user = strings_view(args@);
        if config.read_only {
            push_text(&mut args, "--read-only");
            push_text(&mut args, "--tmpfs");
            push_text(&mut args, "/tmp:rw,noexec,nosuid,size=100m");
        }
        let ghost fs = strings_view(args@);
        let mut i: usize = 0;
        while i < config.ports.len()
            invariant
                i <= config.ports@.len(),
                strings_view(args@) == fs + port_args(config.ports@.take(i as int)),
            decreases config.ports@.len() - i,
        {
            let p = decimal_string(config.ports[i] as u64);
            let spec_arg = p.clone().concat(":").concat(p.as_str());
            push_text(&mut args, "-p");
            push_string(&mut args, spec_arg);
            assert(config.ports@.take(i + 1).drop_last() =~= config.ports@.take(i as int));
            i = i + 1;
        }
        assert(config.ports@.take(i as int) =~= config.ports@);
        let ghost with_ports = strings_view(args@);
        let mut j: usize = 0;
        while j < config.volumes.len()
            invariant
                j <= config.volumes@.len(),
                strings_view(args@) == with_ports + volume_args(pairs_view(config.volumes@.take(j as int)), config.read_only),
            decreases config.volumes@.len() - j,
        {
            let (host, container) = &config.volumes[j];
            let base_spec = host.clone().concat(":").concat(container.as_str());
            let spec_arg = if config.read_only {
                base_spec.concat(":ro")
            } else {
                base_spec
            };
            push_text(&mut args, "-v");
            push_string(&mut args, spec_arg);
            assert(pairs_view(config.volumes@.take(j + 1)).drop_last() =~= pairs_view(config.volumes@.take(j as int)));
            j = j + 1;
        }
        assert(config.volumes@.take(j as int) =~= config.volumes@);
        let ghost with_volumes = strings_view(args@);
        let mut k: usize = 0;
        while k < config.environment.len()
            invariant
                k <= config.environment@.len(),
                strings_view(args@) == with_volumes + env_args(pairs_view(config.environment@.take(k as int))),
            decreases config.environment@.len() - k,
        {
            let (key, value) = &config.environment[k];
            let spec_arg = key.clone().concat("=").concat(value.as_str());
            push_text(&mut args, "-e");
            push_string(&mut args, spec_arg);
            assert(pairs_view(config.environment@.take(k + 1)).drop_last() =~= pairs_view(
                config.environment@.take(k as int),
            ));
            k = k + 1;
        }
        assert(config.environment@.take(k as int) =~= config.environment@);
        push_text(&mut args, image_tag);
        assert(strings_view(args@) =~= create_args(env_id@, *config, image_tag@));
        args
    }

    /// Whether a project must run in a sandbox: unknown and untrusted
    /// projects must.
    pub fn sandbox_required(trust: TrustLevel) -> (b: bool)
        ensures
            b == needs_sandbox(trust),
    {
        match trust {
            TrustLevel::Unknown | TrustLevel::Untrusted => true,
            TrustLevel::Trusted => false,
        }
    }

    /// Where a project runs: in a container whenever Docker is available,
    /// whatever its trust level, else directly.
    pub fn select_environment_type(docker_available: bool, trust: TrustLevel) -> (t: EnvironmentType)
        ensures
            docker_available && needs_sandbox(trust) ==> t == EnvironmentType::Docker,
            t == (if docker_available {
                EnvironmentType::Docker
            } else {
                EnvironmentType::Direct
            }),
    {
        if docker_available {
            EnvironmentType::Docker
        } else {
            EnvironmentType::Direct
        }
    }

    /// The environment of a created container, whose id is what
    /// `docker create` printed, trimmed.
    pub fn sandbox_environment(env_id: String, config: DockerConfig, working_dir: PathBuf, create_output: &str) -> (e:
        Environment)
        ensures
            e.id@ == env_id@,
            e.mode == IsolationMode::Sandbox(config),
            e.working_dir == working_dir,
            e.container_id is Some,
            e.container_id->Some_0@ == trim(create_output@),
    {
        Environment {
            id: env_id,
            mode: IsolationMode::Sandbox(config),
            working_dir,
            container_id: Some(trim_str(create_output)),
        }
    }

    /// The environment of a direct run in the project directory, with no
    /// extra variables.
    pub fn direct_environment(env_id: String, working_dir: PathBuf) -> (e: Environment)
        ensures
            e.id@ == env_id@,
            e.mode is Direct,
            e.mode->Direct_0.env_vars@.len() == 0,
            e.mode->Direct_0.working_dir == working_dir,
            e.working_dir == working_dir,
            e.container_id is None,
    {
        let config = VirtualEnvConfig { working_dir: working_dir.clone(), env_vars: Vec::new() };
        Environment { id: env_id, mode: IsolationMode::Direct(config), working_dir, container_id: None }
    }

    /// The steps that prepare a direct run: for Python a virtual environment
    /// where the project has none, then its dependencies; for Node.js its
    /// dependencies; nothing for the other stacks.
    pub fn direct_setup_steps(stack: &TechStack, has_venv: bool) -> (r: Vec<SetupStep>)
        ensures
            r@ == match *stack {
                TechStack::Python { .. } => if has_venv {
                    seq![SetupStep::InstallPythonDependencies]
                } else {
                    seq![SetupStep::CreatePythonVenv, SetupStep::InstallPythonDependencies]
                },
                TechStack::NodeJs { .. } => seq![SetupStep::InstallNodeDependencies],
                _ => Seq::<SetupStep>::empty(),
            },
    {
        let mut r: Vec<SetupStep> = Vec::new();
        match stack {
            TechStack::Python { .. } => {
                if !has_venv {
                    r.push(SetupStep::CreatePythonVenv);
                }
                r.push(SetupStep::InstallPythonDependencies);
            },
            TechStack::NodeJs { .. } => {
                r.push(SetupStep::InstallNodeDependencies);
            },
            _ => {},
        }
        assert(r@ =~= match *stack {
            TechStack::Python { .. } => if has_venv {
                seq![SetupStep::InstallPythonDependencies]
            } else {
                seq![SetupStep::CreatePythonVenv, SetupStep::InstallPythonDependencies]
            },
            TechStack::NodeJs { .. } => seq![SetupStep::InstallNodeDependencies],
            _ => Seq::<SetupStep>::empty(),
        });
        r
    }

    /// The steps that install an environment's dependencies: none in a
    /// container (the image build installs them) or where there are none;
    /// else the Python ones where `requirements.txt` exists, then the Node.js
    /// ones where `package.json` exists.
    pub fn dependency_install_steps(
        env: &Environment,
        dependency_count: usize,
        has_requirements: bool,
        has_package_json: bool,
    ) -> (r: Vec<SetupStep>)
        ensures
            r@ == if env.mode is Sandbox || dependency_count == 0 {
                Seq::<SetupStep>::empty()
            } else {
                (if has_requirements {
                    seq![SetupStep::InstallPythonDependencies]
                } else {
                    Seq::empty()
                }) + (if has_package_json {
                    seq![SetupStep::InstallNodeDependencies]
                } else {
                    Seq::empty()
                })
            },
    {
        let mut r: Vec<SetupStep> = Vec::new();
        let direct = match &env.mode {
            IsolationMode::Sandbox(_) => false,
            IsolationMode::Direct(_) => true,
        };
        if direct && dependency_count > 0 {
            if has_requirements {
                r.push(SetupStep::InstallPythonDependencies);
            }
            if has_package_json {
                r.push(SetupStep::InstallNodeDependencies);
            }
        }
        assert(r@ =~= if env.mode is Sandbox || dependency_count == 0 {
            Seq::<SetupStep>::empty()
        } else {
            (if has_requirements {
                seq![SetupStep::InstallPythonDependencies]
            } else {
                Seq::empty()
            }) + (if has_package_json {
                seq![SetupStep::InstallNodeDependencies]
            } else {
                Seq::empty()
            })
        });
        r
    }
}

/// Every container is configured without root, with a read-only file
/// system, a non-empty image and a working directory, and is created
/// without new privileges, with every capability dropped, as user
/// 1000:1000, read-only with a small non-executable `/tmp`, publishing each
/// of the stack's ports, with the project mounted read-only.
pub proof fn law_containers_are_restricted(stack: TechStack, c: DockerConfig, env_id: Seq<char>, image_tag: Seq<char>)
    requires
        docker_config_of(stack, c),
    ensures
        c.no_root,
        c.read_only,
        c.image@.len() > 0,
        c.working_dir@.len() > 0,
        create_args(env_id, c, image_tag) == seq![
            "create"@,
            "--name"@,
            "autolaunch-container-"@ + env_id,
            "--rm"@,
            "--security-opt"@,
            "no-new-privileges"@,
            "--cap-drop"@,
            "ALL"@,
            "--user"@,
            "1000:1000"@,
            "--read-only"@,
            "--tmpfs"@,
            "/tmp:rw,noexec,nosuid,size=100m"@,
        ] + port_args(docker_ports(stack)) + seq!["-v"@, "./:/app:ro"@, "-e"@, "NODE_ENV=development"@, image_tag],
{
    reveal_strlit("/app");
    reveal_strlit("./");
    reveal_strlit(":");
    reveal_strlit(":ro");
    reveal_strlit("./:/app:ro");
    reveal_strlit("=");
    reveal_strlit("NODE_ENV");
    reveal_strlit("development");
    reveal_strlit("NODE_ENV=development");
    reveal_strlit("-alpine");
    reveal_strlit("rust:alpine");
    reveal_strlit("golang:alpine");
    reveal_strlit("alpine:latest");
    let vols = pairs_view(c.volumes@);
    let vars = pairs_view(c.environment@);
    assert(vols.drop_last() =~= Seq::<(Seq<char>, Seq<char>)>::empty());
    assert(vars.drop_last() =~= Seq::<(Seq<char>, Seq<char>)>::empty());
    assert(volume_args(Seq::<(Seq<char>, Seq<char>)>::empty(), true) == Seq::<Seq<char>>::empty());
    assert(env_args(Seq::<(Seq<char>, Seq<char>)>::empty()) == Seq::<Seq<char>>::empty());
    assert(vols.last() == ("./"@, "/app"@));
    assert(vars.last() == ("NODE_ENV"@, "development"@));
    assert("./"@ + ":"@ + "/app"@ + ":ro"@ =~= "./:/app:ro"@);
    assert("NODE_ENV"@ + "="@ + "development"@ =~= "NODE_ENV=development"@);
    assert(volume_args(vols, true) =~= seq!["-v"@, "./:/app:ro"@]);
    assert(env_args(vars) =~= seq!["-e"@, "NODE_ENV=development"@]);
    assert(create_args(env_id, c, image_tag) =~= seq![
        "create"@,
        "--name"@,
        "autolaunch-container-"@ + env_id,
        "--rm"@,
        "--security-opt"@,
        "no-new-privileges"@,
        "--cap-drop"@,
        "ALL"@,
        "--user"@,
        "1000:1000"@,
        "--read-only"@,
        "--tmpfs"@,
        "/tmp:rw,noexec,nosuid,size=100m"@,
    ] + port_args(docker_ports(stack)) + seq!["-v"@, "./:/app:ro"@, "-e"@, "NODE_ENV=development"@, image_tag]);
}

/// A generated Dockerfile builds on the stack's image and works in `/app`:
/// it begins with `FROM` and that image, then `WORKDIR /app`.
pub proof fn law_dockerfile_builds_on_the_image(stack: TechStack)
    ensures
        ({
            let head = "FROM "@ + docker_image(stack) + "\nWORKDIR /app\n"@;
            &&& head.len() <= dockerfile_text(stack).len()
            &&& dockerfile_text(stack).subrange(0, head.len() as int) == head
        }),
{
    reveal_strlit("FROM ");
    reveal_strlit("\nWORKDIR /app\n");
    reveal_strlit("node:");
    reveal_strlit("python:");
    reveal_strlit("-alpine");
    reveal_strlit("rust:alpine");
    reveal_strlit("golang:alpine");
    reveal_strlit("alpine:latest");
    reveal_strlit("FROM node:");
    reveal_strlit("FROM python:");
    reveal_strlit("-alpine\nWORKDIR /app\nCOPY package*.json ./\nRUN npm install\nCOPY . .\nEXPOSE 3000 8000 8080\nCMD [\"npm\", \"start\"]\n");
    reveal_strlit("-alpine\nWORKDIR /app\nCOPY requirements.txt ./\nRUN pip install -r requirements.txt\nCOPY . .\nEXPOSE 5000 8000 8080\nCMD [\"python\", \"main.py\"]\n");
    reveal_strlit("FROM rust:alpine\nWORKDIR /app\nCOPY Cargo.toml Cargo.lock ./\nCOPY src ./src\nRUN cargo build --release\nEXPOSE 8000 8080\nCMD [\"./target/release/app\"]\n");
    reveal_strlit("FROM golang:alpine\nWORKDIR /app\nCOPY . .\nEXPOSE 8000 8080\nCMD [\"sh\"]\n");
    reveal_strlit("FROM alpine:latest\nWORKDIR /app\nCOPY . .\nEXPOSE 8000 8080\nCMD [\"sh\"]\n");
    let head = "FROM "@ + docker_image(stack) + "\nWORKDIR /app\n"@;
    assert(dockerfile_text(stack).subrange(0, head.len() as int) =~= head);
}

/// The Node.js and Python images, and the first line of their Dockerfiles,
/// carry the version the project asks for: `node:<v>-alpine` and
/// `python:<v>-alpine`, with 18 and 3.11 only where it asks for none.
pub proof fn law_images_follow_the_stack_version(version: Option<String>)
    ensures
        ({
            let v = match version {
                Some(s) => s@,
                None => "18"@,
            };
            let image = "node:"@ + v + "-alpine"@;
            let stack = TechStack::NodeJs { version };
            &&& docker_image(stack) == image
            &&& ("FROM "@ + image + "\n"@).len() <= dockerfile_text(stack).len()
            &&& dockerfile_text(stack).subrange(0, ("FROM "@ + image + "\n"@).len() as int) == "FROM "@ + image + "\n"@
        }),
        ({
            let v = match version {
                Some(s) => s@,
                None => "3.11"@,
            };
            let image = "python:"@ + v + "-alpine"@;
            let stack = TechStack::Python { version };
            &&& docker_image(stack) == image
            &&& ("FROM "@ + image + "\n"@).len() <= dockerfile_text(stack).len()
            &&& dockerfile_text(stack).subrange(0, ("FROM "@ + image + "\n"@).len() as int) == "FROM "@ + image + "\n"@
        }),
{
    reveal_strlit("\n");
    reveal_strlit("\nWORKDIR /app\n");
    law_dockerfile_builds_on_the_image(TechStack::NodeJs { version });
    law_dockerfile_builds_on_the_image(TechStack::Python { version });
    let n = TechStack::NodeJs { version };
    let py = TechStack::Python { version };
    let hn = "FROM "@ + docker_image(n) + "\nWORKDIR /app\n"@;
    let hp = "FROM "@ + docker_image(py) + "\nWORKDIR /app\n"@;
    let ln = ("FROM "@ + docker_image(n) + "\n"@).len() as int;
    let lp = ("FROM "@ + docker_image(py) + "\n"@).len() as int;
    assert(dockerfile_text(n).subrange(0, ln) =~= hn.subrange(0, ln));
    assert(hn.subrange(0, ln) =~= "FROM "@ + docker_image(n) + "\n"@);
    assert(dockerfile_text(py).subrange(0, lp) =~= hp.subrange(0, lp));
    assert(hp.subrange(0, lp) =~= "FROM "@ + docker_image(py) + "\n"@);
}

} // verus!
