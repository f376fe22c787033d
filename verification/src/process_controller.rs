//! The registry of launched processes: their status, their logs and the
//! ports they serve on.
//!
//! The processes themselves (children, containers) are started, watched and
//! killed by the application; the registry decides what is recorded, what
//! a stop or a clean-up has to do, and which port an application listens on.

use vstd::prelude::*;
use std::path::PathBuf;
use crate::environment_manager::{Environment, IsolationMode};
use crate::error::{AutoLaunchError, opt_view};
use crate::ids::{new_id, now_rfc3339};
use crate::matching::{first_groups, groups_view, regex_first_groups};
use crate::models::{ExecutionStatus, LogEntry, ProcessHandle};
use crate::paths::{join_path, joined};
use crate::text::{contains_seq, contains_str, decimal, decimal_string, parse_u16, parse_u16_spec};

verus! {

/// The most log lines kept for a process.
pub const MAX_LOG_LINES: usize = 1000;

/// How many of the oldest lines go when a log grows past the limit.
pub const LOG_DROP_LINES: usize = 100;

/// What the registry holds of one launched process.
#[derive(Debug)]
pub struct RunningProcess {
    pub handle: ProcessHandle,
    pub status: ExecutionStatus,
    pub logs: Vec<LogEntry>,
    pub environment: Environment,
    pub command: String,
}

/// The registry of launched processes, by handle id.
pub struct ProcessController {
    processes: Vec<RunningProcess>,
}

/// What stopping a process takes besides the bookkeeping.
#[derive(Debug, Clone, PartialEq, Eq)]
pub enum StopAction {
    /// `docker stop -t 10` on the container.
    StopContainer(String),
    /// Terminate the child process, then kill it if it is still there.
    TerminateChild,
    /// Nothing to stop.
    Nothing,
}

/// What cleaning up after a process takes.
#[derive(Debug)]
pub enum CleanupAction {
    /// `docker rm -f` on the container.
    RemoveContainer(String),
    /// Remove this temporary directory where it exists.
    RemoveTempDir(PathBuf),
    /// Nothing to clean up.
    Nothing,
}

/// The first position of the process with the given id, or -1.
pub open spec fn position(s: Seq<RunningProcess>, id: Seq<char>) -> int
    decreases s.len(),
{
    if s.len() == 0 {
        -1
    } else if s[0].handle.id@ == id {
        0
    } else if position(s.drop_first(), id) < 0 {
        -1
    } else {
        position(s.drop_first(), id) + 1
    }
}

/// What `position` says, in terms of positions.
pub proof fn lemma_position(s: Seq<RunningProcess>, id: Seq<char>)
    ensures
        -1 <= position(s, id) < s.len(),
        position(s, id) >= 0 ==> s[position(s, id)].handle.id@ == id,
        forall|j: int|
            0 <= j < s.len() && (position(s, id) < 0 || j < position(s, id)) ==> (#[trigger] s[j]).handle.id@ != id,
    decreases s.len(),
{
    if s.len() > 0 {
        lemma_position(s.drop_first(), id);
        assert forall|j: int| 0 < j < s.len() implies s[j] == s.drop_first()[j - 1] by {}
    }
}

/// `position` is the first position that holds the id.
pub proof fn lemma_position_at(s: Seq<RunningProcess>, id: Seq<char>, i: int)
    requires
        0 <= i <= s.len(),
        i < s.len() ==> s[i].handle.id@ == id,
        forall|j: int| 0 <= j < i ==> (#[trigger] s[j]).handle.id@ != id,
    ensures
        position(s, id) == if i < s.len() {
            i
        } else {
            -1
        },
    decreases s.len(),
{
    if s.len() > 0 && i > 0 {
        assert forall|j: int| 0 <= j < i - 1 implies (#[trigger] s.drop_first()[j]).handle.id@ != id by {
            assert(s.drop_first()[j] == s[j + 1]);
        }
        lemma_position_at(s.drop_first(), id, i - 1);
    }
}

/// No two processes share an id.
pub open spec fn ids_unique(s: Seq<RunningProcess>) -> bool {
    forall|i: int, j: int| 0 <= i < j < s.len() ==> (#[trigger] s[i]).handle.id@ != (#[trigger] s[j]).handle.id@
}

/// Whether a status counts as running: starting or running.
pub open spec fn is_active(status: ExecutionStatus) -> bool {
    status is Running || status is Starting
}

/// The status of the process with the given id: `Stopped` for an unknown id.
pub open spec fn status_in(s: Seq<RunningProcess>, id: Seq<char>) -> ExecutionStatus {
    if position(s, id) >= 0 {
        s[position(s, id)].status
    } else {
        ExecutionStatus::Stopped
    }
}

/// A log line as level and message.
pub open spec fn log_view(l: LogEntry) -> (Seq<char>, Seq<char>) {
    (l.level@, l.message@)
}

pub open spec fn logs_view(s: Seq<LogEntry>) -> Seq<(Seq<char>, Seq<char>)> {
    s.map_values(|l: LogEntry| log_view(l))
}

/// A log after one more line: past the limit, the oldest lines go.
pub open spec fn capped<A>(s: Seq<A>) -> Seq<A> {
    if s.len() > MAX_LOG_LINES {
        s.subrange(LOG_DROP_LINES as int, s.len() as int)
    } else {
        s
    }
}

/// A handle as id, pid, container id and ports.
pub open spec fn handle_view(h: ProcessHandle) -> (Seq<char>, Option<u32>, Option<Seq<char>>, Seq<u16>) {
    (h.id@, h.pid, opt_view(h.container_id), h.ports@)
}

/// The process record with another status.
pub open spec fn with_status(p: RunningProcess, status: ExecutionStatus) -> RunningProcess {
    RunningProcess { status, ..p }
}

/// The registry with the status of the process with the given id replaced
/// (unchanged where there is none).
pub open spec fn set_status_in(s: Seq<RunningProcess>, id: Seq<char>, status: ExecutionStatus) -> Seq<RunningProcess> {
    if position(s, id) >= 0 {
        s.update(position(s, id), with_status(s[position(s, id)], status))
    } else {
        s
    }
}

/// The handles of the processes that are starting or running, in order.
pub open spec fn active_handles(s: Seq<RunningProcess>) -> Seq<(Seq<char>, Option<u32>, Option<Seq<char>>, Seq<u16>)>
    decreases s.len(),
{
    if s.len() == 0 {
        Seq::empty()
    } else if is_active(s.last().status) {
        active_handles(s.drop_last()).push(handle_view(s.last().handle))
    } else {
        active_handles(s.drop_last())
    }
}

/// The expressions that find ports in a command, in order: a `port`,
/// `PORT`, `--port` or `-p` option, then a `http.server` port.
pub open spec fn command_port_patterns() -> Seq<Seq<char>> {
    seq!["(?:port|PORT|--port|-p)\\s*[=:]?\\s*(\\d+)"@, "http\\.server\\s+(\\d+)"@]
}

/// The port numbers among the first groups of the matches.
pub open spec fn ports_from_groups(groups: Seq<Option<Seq<char>>>) -> Seq<u16>
    decreases groups.len(),
{
    if groups.len() == 0 {
        Seq::empty()
    } else {
        let earlier = ports_from_groups(groups.drop_last());
        match groups.last() {
            Some(g) => match parse_u16_spec(g) {
                Some(p) => earlier.push(p),
                None => earlier,
            },
            None => earlier,
        }
    }
}

/// The ports that an expression finds in a text.
pub open spec fn ports_found(pattern: Seq<char>, text: Seq<char>) -> Seq<u16> {
    match regex_first_groups(pattern, text) {
        Some(groups) => ports_from_groups(groups),
        None => Seq::empty(),
    }
}

/// The port a command serves on when it names none: 3000 for `npm ...
/// start`, 5000 for Python, else 8000.
pub open spec fn default_port(command: Seq<char>) -> u16 {
    if contains_seq(command, "npm"@) && contains_seq(command, "start"@) {
        3000
    } else if contains_seq(command, "python"@) {
        5000
    } else {
        8000
    }
}

/// The ports of a command: those it names, in order, or its default port.
pub open spec fn command_ports(command: Seq<char>) -> Seq<u16> {
    let found = ports_found(command_port_patterns()[0], command) + ports_found(command_port_patterns()[1], command);
    if found.len() == 0 {
        seq![default_port(command)]
    } else {
        found
    }
}

/// The expressions that find a port in a log line, tried in order; case is
/// ignored.
pub open spec fn log_port_patterns() -> Seq<Seq<char>> {
    seq![
        "(?i)listening on port (\\d+)"@,
        "(?i)server running on port (\\d+)"@,
        "(?i)localhost:(\\d+)"@,
        "(?i)127\\.0\\.0\\.1:(\\d+)"@,
        "(?i)0\\.0\\.0\\.0:(\\d+)"@,
        "(?i)port (\\d+)"@,
        "(?i)http://[^:]+:(\\d+)"@,
        "(?i)https://[^:]+:(\\d+)"@,
        "(?i)started on :(\\d+)"@,
        "(?i)running at.*:(\\d+)"@,
        "(?i)available on.*:(\\d+)"@,
    ]
}

/// The port in the first group of the first match, where the groups of
/// the matches have one.
pub open spec fn port_in_first_group(groups: Seq<Option<Seq<char>>>) -> Option<u16> {
    if groups.len() > 0 {
        match groups[0] {
            Some(g) => parse_u16_spec(g),
            None => None,
        }
    } else {
        None
    }
}

/// The port in the first group of an expression's first match in a line.
pub open spec fn first_match_port(pattern: Seq<char>, line: Seq<char>) -> Option<u16> {
    match regex_first_groups(pattern, line) {
        Some(groups) => port_in_first_group(groups),
        None => None,
    }
}

/// The port that the first of the expressions to give one finds in a line.
pub open spec fn log_port(patterns: Seq<Seq<char>>, line: Seq<char>) -> Option<u16>
    decreases patterns.len(),
{
    if patterns.len() == 0 {
        None
    } else {
        match first_match_port(patterns[0], line) {
            Some(p) => Some(p),
            None => log_port(patterns.drop_first(), line),
        }
    }
}

/// The port of the first line, in order, in which one is found.
pub open spec fn first_port_in_logs(logs: Seq<LogEntry>) -> Option<u16>
    decreases logs.len(),
{
    if logs.len() == 0 {
        None
    } else {
        match log_port(log_port_patterns(), logs[0].message@) {
            Some(p) => Some(p),
            None => first_port_in_logs(logs.drop_first()),
        }
    }
}

/// A copy of a handle.
pub fn copy_handle(h: &ProcessHandle) -> (c: ProcessHandle)
    ensures
        handle_view(c) == handle_view(*h),
{
    let mut ports: Vec<u16> = Vec::new();
    let mut i: usize = 0;
    while i < h.ports.len()
        invariant
            i <= h.ports@.len(),
            ports@ == h.ports@.take(i as int),
        decreases h.ports@.len() - i,
    {
        assert(h.ports@.take(i + 1) =~= h.ports@.take(i as int).push(h.ports@[i as int]));
        ports.push(h.ports[i]);
        i = i + 1;
    }
    assert(h.ports@.take(i as int) =~= h.ports@);
    ProcessHandle {
        id: h.id.clone(),
        pid: h.pid,
        container_id: match &h.container_id {
            Some(c) => Some(c.clone()),
            None => None,
        },
        ports,
    }
}

/// A copy of a status.
pub fn copy_status(s: &ExecutionStatus) -> (c: ExecutionStatus)
    ensures
        c == *s,
{
    match s {
        ExecutionStatus::Preparing => ExecutionStatus::Preparing,
        ExecutionStatus::Installing => ExecutionStatus::Installing,
        ExecutionStatus::Starting => ExecutionStatus::Starting,
        ExecutionStatus::Running => ExecutionStatus::Running,
        ExecutionStatus::Stopping => ExecutionStatus::Stopping,
        ExecutionStatus::Stopped => ExecutionStatus::Stopped,
        ExecutionStatus::Failed { error } => ExecutionStatus::Failed { error: error.clone() },
    }
}

/// A copy of a log line.
pub fn copy_log(l: &LogEntry) -> (c: LogEntry)
    ensures
        c == *l,
{
    LogEntry { timestamp: l.timestamp.clone(), level: l.level.clone(), message: l.message.clone() }
}

impl ProcessController {
    /// No two processes share an id, and no log holds more than the limit.
    #[verifier::type_invariant]
    closed spec fn inv(self) -> bool {
        &&& ids_unique(self.processes@)
        &&& forall|i: int| 0 <= i < self.processes@.len() ==> (#[trigger] self.processes@[i]).logs@.len() <= MAX_LOG_LINES
    }

    /// The registered processes, in the order they were first registered.
    pub closed spec fn entries(self) -> Seq<RunningProcess> {
        self.processes@
    }

    /// An empty registry.
    pub fn new() -> (c: ProcessController)
        ensures
            c.entries().len() == 0,
    {
        ProcessController { processes: Vec::new() }
    }

    /// The position of the process with the given id.
    fn find(&self, id: &String) -> (r: Option<usize>)
        ensures
            match r {
                Some(i) => i as int == position(self.entries(), id@) && i < self.entries().len(),
                None => position(self.entries(), id@) == -1,
            },
    {
        let mut i: usize = 0;
        while i < self.processes.len()
            invariant
                i <= self.processes@.len(),
                forall|j: int| 0 <= j < i ==> (#[trigger] self.processes@[j]).handle.id@ != id@,
            decreases self.processes@.len() - i,
        {
            if self.processes[i].handle.id == *id {
                proof {
                    lemma_position_at(self.processes@, id@, i as int);
                }
                return Some(i);
            }
            i = i + 1;
        }
        proof {
            lemma_position_at(self.processes@, id@, i as int);
        }
        None
    }

    /// Records a newly launched process under a fresh id, with status
    /// `Starting` and an empty log, and returns its handle. A record with
    /// the same id is replaced.
    pub fn register_process(
        &mut self,
        pid: Option<u32>,
        container_id: Option<String>,
        ports: Vec<u16>,
        environment: Environment,
        command: &str,
    ) -> (h: ProcessHandle)
        ensures
            h.pid == pid,
            opt_view(h.container_id) == opt_view(container_id),
            h.ports@ == ports@,
            position(final(self).entries(), h.id@) >= 0,
            ({
                let p = final(self).entries()[position(final(self).entries(), h.id@)];
                &&& handle_view(p.handle) == handle_view(h)
                &&& p.status == ExecutionStatus::Starting
                &&& p.logs@.len() == 0
                &&& p.command@ == command@
                &&& p.environment == environment
            }),
            forall|id: Seq<char>|
                id != h.id@ ==> #[trigger] status_in(final(self).entries(), id) == status_in(old(self).entries(), id),
            ids_unique(final(self).entries()),
    {
        proof {
            use_type_invariant(&*self);
        }
        let id = new_id();
        let handle = ProcessHandle { id, pid, container_id, ports };
        let record = RunningProcess {
            handle: copy_handle(&handle),
            status: ExecutionStatus::Starting,
            logs: Vec::new(),
            environment,
            command: String::from_str(command),
        };
        let pos = self.find(&handle.id);
        let mut procs: Vec<RunningProcess> = Vec::new();
        std::mem::swap(&mut procs, &mut self.processes);
        let ghost olds = procs@;
        proof {
            lemma_position(olds, handle.id@);
        }
        match pos {
            Some(i) => {
                procs.remove(i);
                procs.insert(i, record);
                assert(procs@ =~= olds.update(i as int, record));
            },
            None => {
                procs.push(record);
            },
        }
        proof {
            let news = procs@;
            let hid = handle.id@;
            lemma_position(news, hid);
            let k = if pos is Some { pos->Some_0 as int } else { olds.len() as int };
            assert(news[k] == record);
            assert forall|j: int| 0 <= j < k implies (#[trigger] news[j]).handle.id@ != hid by {
                assert(news[j] == olds[j]);
            }
            lemma_position_at(news, hid, k);
            assert forall|a: int, b: int| 0 <= a < b < news.len() implies (#[trigger] news[a]).handle.id@
                != (#[trigger] news[b]).handle.id@ by {
                if a != k && b != k {
                    assert(news[a] == olds[a] && news[b] == olds[b]);
                } else if a == k {
                    assert(news[b] == olds[b]);
                } else {
                    assert(news[a] == olds[a]);
                }
            }
            assert forall|id: Seq<char>| id != hid implies #[trigger] status_in(news, id) == status_in(olds, id) by {
                lemma_position(olds, id);
                lemma_position(news, id);
                if position(olds, id) >= 0 {
                    let q = position(olds, id);
                    assert(q != k);
                    assert(news[q] == olds[q]);
                    assert forall|j: int| 0 <= j < q implies (#[trigger] news[j]).handle.id@ != id by {
                        if j != k {
                            assert(news[j] == olds[j]);
                        }
                    }
                    lemma_position_at(news, id, q);
                } else {
                    assert forall|j: int| 0 <= j < news.len() implies (#[trigger] news[j]).handle.id@ != id by {
                        if j != k {
                            assert(news[j] == olds[j]);
                        }
                    }
                    lemma_position_at(news, id, news.len() as int);
                }
            }
        }
        self.processes = procs;
        handle
    }

    /// Sets the status of the process with the given id (nothing where
    /// there is none).
    fn set_status(&mut self, id: &String, status: ExecutionStatus)
        ensures
            final(self).entries() == set_status_in(old(self).entries(), id@, status),
    {
        proof {
            use_type_invariant(&*self);
        }
        let pos = self.find(id);
        if let Some(i) = pos {
            let mut procs: Vec<RunningProcess> = Vec::new();
            std::mem::swap(&mut procs, &mut self.processes);
            let ghost olds = procs@;
            let mut p = procs.remove(i);
            p.status = status;
            procs.insert(i, p);
            assert(procs@ =~= olds.update(i as int, with_status(olds[i as int], status)));
            assert forall|a: int, b: int| 0 <= a < b < procs@.len() implies (#[trigger] procs@[a]).handle.id@
                != (#[trigger] procs@[b]).handle.id@ by {
                assert(procs@[a].handle == olds[a].handle && procs@[b].handle == olds[b].handle);
            }
            assert forall|k: int| 0 <= k < procs@.len() implies (#[trigger] procs@[k]).logs@.len() <= MAX_LOG_LINES by {
                assert(procs@[k].logs == olds[k].logs);
            }
            self.processes = procs;
        }
    }

    /// Appends a line, stamped with the current time, to the log of the
    /// process with the given id; past the limit, the oldest lines go.
    /// Nothing happens for an unknown id.
    pub fn add_log_entry(&mut self, process_id: &str, level: &str, message: String)
        ensures
            final(self).entries().len() == old(self).entries().len(),
            forall|k: int|
                0 <= k < old(self).entries().len() && k != position(old(self).entries(), process_id@)
                    ==> #[trigger] final(self).entries()[k] == old(self).entries()[k],
            position(old(self).entries(), process_id@) >= 0 ==> {
                let k = position(old(self).entries(), process_id@);
                let before = old(self).entries()[k];
                let after = final(self).entries()[k];
                &&& after.handle == before.handle
                &&& after.status == before.status
                &&& after.environment == before.environment
                &&& after.command == before.command
                &&& logs_view(after.logs@) == capped(logs_view(before.logs@).push((level@, message@)))
                &&& exists|e: LogEntry|
                    e.level@ == level@ && e.message == message && after.logs@ == capped(#[trigger] before.logs@.push(e))
            },
    {
        proof {
            use_type_invariant(&*self);
        }
        let id = String::from_str(process_id);
        let pos = self.find(&id);
        if let Some(i) = pos {
            let entry = LogEntry { timestamp: now_rfc3339(), level: String::from_str(level), message };
            let mut procs: Vec<RunningProcess> = Vec::new();
            std::mem::swap(&mut procs, &mut self.processes);
            let ghost olds = procs@;
            let mut p = procs.remove(i);
            let ghost old_logs = p.logs@;
            p.logs.push(entry);
            assert(logs_view(p.logs@) =~= logs_view(old_logs).push(log_view(entry)));
            if p.logs.len() > MAX_LOG_LINES {
                let kept = p.logs.split_off(LOG_DROP_LINES);
                let ghost pushed = old_logs.push(entry);
                p.logs = kept;
                assert(logs_view(p.logs@) =~= logs_view(pushed).subrange(LOG_DROP_LINES as int, pushed.len() as int));
            }
            assert(p.logs@ =~= capped(old_logs.push(entry)));
            procs.insert(i, p);
            assert forall|k: int| 0 <= k < olds.len() && k != i implies #[trigger] procs@[k] == olds[k] by {}
            assert forall|a: int, b: int| 0 <= a < b < procs@.len() implies (#[trigger] procs@[a]).handle.id@
                != (#[trigger] procs@[b]).handle.id@ by {
                assert(procs@[a].handle == olds[a].handle && procs@[b].handle == olds[b].handle);
            }
            assert forall|k: int| 0 <= k < procs@.len() implies (#[trigger] procs@[k]).logs@.len() <= MAX_LOG_LINES by {
                if k != i {
                    assert(procs@[k] == olds[k]);
                }
            }
            self.processes = procs;
        }
    }

    /// The status of a process; `Stopped` for one the registry does not
    /// know. It always succeeds.
    pub fn get_process_status(&self, handle: &ProcessHandle) -> (r: Result<ExecutionStatus, AutoLaunchError>)
        ensures
            r == Ok::<ExecutionStatus, AutoLaunchError>(status_in(self.entries(), handle.id@)),
    {
        match self.find(&handle.id) {
            Some(i) => Ok(copy_status(&self.processes[i].status)),
            None => Ok(ExecutionStatus::Stopped),
        }
    }

    /// The log of a process; empty for one the registry does not know. It
    /// always succeeds.
    pub fn get_process_logs(&self, handle: &ProcessHandle) -> (r: Result<Vec<LogEntry>, AutoLaunchError>)
        ensures
            r is Ok,
            r->Ok_0@.len() <= MAX_LOG_LINES,
            r->Ok_0@ == if position(self.entries(), handle.id@) >= 0 {
                self.entries()[position(self.entries(), handle.id@)].logs@
            } else {
                Seq::empty()
            },
    {
        proof {
            use_type_invariant(self);
        }
        match self.find(&handle.id) {
            Some(i) => {
                let logs = &self.processes[i].logs;
                let mut out: Vec<LogEntry> = Vec::new();
                let mut k: usize = 0;
                while k < logs.len()
                    invariant
                        k <= logs@.len(),
                        out@ == logs@.take(k as int),
                    decreases logs@.len() - k,
                {
                    let l = copy_log(&logs[k]);
                    assert(logs@.take(k + 1) =~= logs@.take(k as int).push(l));
                    out.push(l);
                    k = k + 1;
                }
                assert(logs@.take(k as int) =~= logs@);
                Ok(out)
            },
            None => Ok(Vec::new()),
        }
    }

    /// The process record with the given id, if any.
    pub fn get(&self, id: &str) -> (r: Option<&RunningProcess>)
        ensures
            match r {
                Some(p) => position(self.entries(), id@) >= 0 && *p == self.entries()[position(self.entries(), id@)],
                None => position(self.entries(), id@) == -1,
            },
    {
        match self.find(&String::from_str(id)) {
            Some(i) => Some(&self.processes[i]),
            None => None,
        }
    }

    /// The record of a process to restart; an error where the registry
    /// does not know it.
    pub fn restart_target(&self, handle: &ProcessHandle) -> (r: Result<&RunningProcess, AutoLaunchError>)
        ensures
            match r {
                Ok(p) => position(self.entries(), handle.id@) >= 0 && *p == self.entries()[position(
                    self.entries(),
                    handle.id@,
                )],
                Err(e) => position(self.entries(), handle.id@) == -1 && e is Process && e.detail()
                    == "Процесс не найден"@,
            },
    {
        match self.find(&handle.id) {
            Some(i) => Ok(&self.processes[i]),
            None => Err(AutoLaunchError::Process(String::from_str("Процесс не найден"))),
        }
    }

    /// Marks a process as stopping and says what stopping it takes: its
    /// container in a sandbox (where it has one), its child otherwise.
    /// `None`, and no change, for a process the registry does not know.
    pub fn begin_stop(&mut self, handle: &ProcessHandle) -> (r: Option<StopAction>)
        ensures
            final(self).entries() == set_status_in(old(self).entries(), handle.id@, ExecutionStatus::Stopping),
            match r {
                None => position(old(self).entries(), handle.id@) == -1,
                Some(a) => position(old(self).entries(), handle.id@) >= 0 && a == match old(self).entries()[position(
                    old(self).entries(),
                    handle.id@,
                )].environment.mode {
                    IsolationMode::Sandbox(_) => match handle.container_id {
                        Some(c) => StopAction::StopContainer(c),
                        None => StopAction::Nothing,
                    },
                    IsolationMode::Direct(_) => StopAction::TerminateChild,
                },
            },
    {
        let pos = self.find(&handle.id);
        match pos {
            None => None,
            Some(i) => {
                let action = match &self.processes[i].environment.mode {
                    IsolationMode::Sandbox(_) => match &handle.container_id {
                        Some(c) => StopAction::StopContainer(c.clone()),
                        None => StopAction::Nothing,
                    },
                    IsolationMode::Direct(_) => StopAction::TerminateChild,
                };
                self.set_status(&handle.id, ExecutionStatus::Stopping);
                Some(action)
            },
        }
    }

    /// Marks a process as stopped (nothing for an unknown one).
    pub fn finish_stop(&mut self, handle: &ProcessHandle)
        ensures
            final(self).entries() == set_status_in(old(self).entries(), handle.id@, ExecutionStatus::Stopped),
    {
        self.set_status(&handle.id, ExecutionStatus::Stopped);
    }

    /// One round of watching a process: where it is alive, a starting
    /// process becomes running and watching goes on; where it is gone, it
    /// becomes stopped and watching ends. Watching also ends for a process
    /// the registry does not know.
    pub fn monitor_step(&mut self, id: &str, alive: bool) -> (go_on: bool)
        ensures
            go_on == (position(old(self).entries(), id@) >= 0 && alive),
            final(self).entries() == if position(old(self).entries(), id@) < 0 {
                old(self).entries()
            } else if !alive {
                set_status_in(old(self).entries(), id@, ExecutionStatus::Stopped)
            } else if old(self).entries()[position(old(self).entries(), id@)].status is Starting {
                set_status_in(old(self).entries(), id@, ExecutionStatus::Running)
            } else {
                old(self).entries()
            },
    {
        let key = String::from_str(id);
        match self.find(&key) {
            None => false,
            Some(i) => {
                if alive {
                    let starting = match &self.processes[i].status {
                        ExecutionStatus::Starting => true,
                        _ => false,
                    };
                    if starting {
                        self.set_status(&key, ExecutionStatus::Running);
                    }
                    true
                } else {
                    self.set_status(&key, ExecutionStatus::Stopped);
                    false
                }
            },
        }
    }

    /// What cleaning up after a process in this environment takes: removing
    /// its container (where it has one) in a sandbox, its temporary
    /// directory `.autolaunch_temp` otherwise.
    pub fn cleanup_action(env: &Environment) -> (r: CleanupAction)
        ensures
            match env.mode {
                IsolationMode::Sandbox(_) => match env.container_id {
                    Some(c) => r matches CleanupAction::RemoveContainer(rc) && rc@ == c@,
                    None => r is Nothing,
                },
                IsolationMode::Direct(_) => r matches CleanupAction::RemoveTempDir(d) && d == joined(
                    env.working_dir,
                    ".autolaunch_temp"@,
                ),
            },
    {
        match &env.mode {
            IsolationMode::Sandbox(_) => match &env.container_id {
                Some(c) => CleanupAction::RemoveContainer(c.clone()),
                None => CleanupAction::Nothing,
            },
            IsolationMode::Direct(_) => CleanupAction::RemoveTempDir(join_path(&env.working_dir, ".autolaunch_temp")),
        }
    }

    /// The ids of all registered processes, in order.
    pub fn process_ids(&self) -> (r: Vec<String>)
        ensures
            r@.len() == self.entries().len(),
            forall|k: int| 0 <= k < r@.len() ==> (#[trigger] r@[k])@ == self.entries()[k].handle.id@,
    {
        let mut r: Vec<String> = Vec::new();
        let mut i: usize = 0;
        while i < self.processes.len()
            invariant
                i <= self.processes@.len(),
                r@.len() == i,
                forall|k: int| 0 <= k < i ==> (#[trigger] r@[k])@ == self.processes@[k].handle.id@,
            decreases self.processes@.len() - i,
        {
            r.push(self.processes[i].handle.id.clone());
            i = i + 1;
        }
        r
    }

    /// The handles of the processes that are starting or running.
    pub fn get_running_processes(&self) -> (r: Vec<ProcessHandle>)
        ensures
            r@.map_values(|h: ProcessHandle| handle_view(h)) == active_handles(self.entries()),
    {
        let mut r: Vec<ProcessHandle> = Vec::new();
        let mut i: usize = 0;
        while i < self.processes.len()
            invariant
                i <= self.processes@.len(),
                r@.map_values(|h: ProcessHandle| handle_view(h)) == active_handles(self.processes@.take(i as int)),
            decreases self.processes@.len() - i,
        {
            let p = &self.processes[i];
            assert(self.processes@.take(i + 1).drop_last() =~= self.processes@.take(i as int));
            let active = match &p.status {
                ExecutionStatus::Running | ExecutionStatus::Starting => true,
                _ => false,
            };
            if active {
                let h = copy_handle(&p.handle);
                assert(r@.push(h).map_values(|h: ProcessHandle| handle_view(h)) =~= r@.map_values(
                    |h: ProcessHandle| handle_view(h),
                ).push(handle_view(h)));
                r.push(h);
            }
            i = i + 1;
        }
        assert(self.processes@.take(i as int) =~= self.processes@);
        r
    }

    /// Whether some process is starting or running.
    pub fn has_running_processes(&self) -> (b: bool)
        ensures
            b == exists|k: int| 0 <= k < self.entries().len() && is_active(#[trigger] self.entries()[k].status),
    {
        let mut i: usize = 0;
        while i < self.processes.len()
            invariant
                i <= self.processes@.len(),
                forall|k: int| 0 <= k < i ==> !is_active(#[trigger] self.processes@[k].status),
            decreases self.processes@.len() - i,
        {
            let active = match &self.processes[i].status {
                ExecutionStatus::Running | ExecutionStatus::Starting => true,
                _ => false,
            };
            if active {
                return true;
            }
            i = i + 1;
        }
        false
    }

    /// The ports a command serves on: those it names, else its default.
    pub fn detect_ports_from_command(&self, command: &str) -> (r: Vec<u16>)
        ensures
            r@ == command_ports(command@),
    {
        let mut ports = ports_in(command, "(?:port|PORT|--port|-p)\\s*[=:]?\\s*(\\d+)");
        let more = ports_in(command, "http\\.server\\s+(\\d+)");
        let mut more = more;
        ports.append(&mut more);
        if ports.len() == 0 {
            let p: u16 = if contains_str(command, "npm") && contains_str(command, "start") {
                3000
            } else if contains_str(command, "python") {
                5000
            } else {
                8000
            };
            ports.push(p);
            assert(ports@ =~= seq![default_port(command@)]);
        }
        ports
    }

    /// The port that a log line names, trying the log expressions in order.
    pub fn extract_port_from_log(&self, message: &str) -> (r: Option<u16>)
        ensures
            r == log_port(log_port_patterns(), message@),
    {
        let patterns = log_pattern_table();
        let mut i: usize = 0;
        assert(log_port_patterns().skip(0) =~= log_port_patterns());
        while i < patterns.len()
            invariant
                i <= patterns@.len(),
                patterns@.len() == log_port_patterns().len(),
                forall|k: int| 0 <= k < patterns@.len() ==> (#[trigger] patterns@[k])@ == log_port_patterns()[k],
                log_port(log_port_patterns(), message@) == log_port(log_port_patterns().skip(i as int), message@),
            decreases patterns@.len() - i,
        {
            let found = first_port(patterns[i], message);
            proof {
                let rest = log_port_patterns().skip(i as int);
                assert(rest[0] == log_port_patterns()[i as int]);
                assert(rest.drop_first() =~= log_port_patterns().skip(i + 1));
            }
            if found.is_some() {
                return found;
            }
            i = i + 1;
        }
        assert(log_port_patterns().skip(i as int) =~= Seq::<Seq<char>>::empty());
        None
    }

    /// The port an application listens on: the first found in its log,
    /// else the first of its handle's ports.
    pub fn detect_application_port(&self, handle: &ProcessHandle) -> (r: Result<Option<u16>, AutoLaunchError>)
        ensures
            r is Ok,
            r->Ok_0 == match first_port_in_logs(
                if position(self.entries(), handle.id@) >= 0 {
                    self.entries()[position(self.entries(), handle.id@)].logs@
                } else {
                    Seq::empty()
                },
            ) {
                Some(p) => Some(p),
                None => if handle.ports@.len() > 0 {
                    Some(handle.ports@[0])
                } else {
                    None
                },
            },
    {
        let logs = match self.get_process_logs(handle) {
            Ok(l) => l,
            Err(_) => Vec::new(),
        };
        let mut i: usize = 0;
        assert(logs@.skip(0) =~= logs@);
        let ghost kept = if position(self.entries(), handle.id@) >= 0 {
            self.entries()[position(self.entries(), handle.id@)].logs@
        } else {
            Seq::empty()
        };
        while i < logs.len()
            invariant
                i <= logs@.len(),
                logs@ == kept,
                kept == (if position(self.entries(), handle.id@) >= 0 {
                    self.entries()[position(self.entries(), handle.id@)].logs@
                } else {
                    Seq::empty()
                }),
                first_port_in_logs(logs@) == first_port_in_logs(logs@.skip(i as int)),
            decreases logs@.len() - i,
        {
            let found = self.extract_port_from_log(logs[i].message.as_str());
            proof {
                let rest = logs@.skip(i as int);
                assert(rest[0] == logs@[i as int]);
                assert(rest.drop_first() =~= logs@.skip(i + 1));
            }
            if found.is_some() {
                return Ok(found);
            }
            i = i + 1;
        }
        assert(logs@.skip(i as int) =~= Seq::<LogEntry>::empty());
        if handle.ports.len() > 0 {
            Ok(Some(handle.ports[0]))
        } else {
            Ok(None)
        }
    }

    /// The address a browser opens for a port.
    pub fn browser_url(port: u16) -> (r: String)
        ensures
            r@ == "http://localhost:"@ + decimal(port as nat),
    {
        let p = decimal_string(port as u64);
        String::from_str("http://localhost:").concat(p.as_str())
    }

    /// The local address probed to see whether a port is served.
    pub fn port_address(port: u16) -> (r: String)
        ensures
            r@ == "127.0.0.1:"@ + decimal(port as nat),
    {
        let p = decimal_string(port as u64);
        String::from_str("127.0.0.1:").concat(p.as_str())
    }
}

/// The port numbers that an expression finds in a text, in order.
fn ports_in(text: &str, pattern: &str) -> (r: Vec<u16>)
    ensures
        r@ == ports_found(pattern@, text@),
{
    match first_groups(pattern, text) {
        None => Vec::new(),
        Some(groups) => group_ports(&groups),
    }
}

/// The port numbers among the first groups of the matches, in order:
/// each group that took part and reads as a port.
pub fn group_ports(groups: &Vec<Option<String>>) -> (r: Vec<u16>)
    ensures
        r@ == ports_from_groups(groups_view(groups@)),
{
    let ghost gv = groups_view(groups@);
    let mut ports: Vec<u16> = Vec::new();
    let mut i: usize = 0;
    while i < groups.len()
        invariant
            i <= groups@.len(),
            gv == groups_view(groups@),
            ports@ == ports_from_groups(gv.take(i as int)),
        decreases groups@.len() - i,
    {
        assert(gv.take(i + 1).drop_last() =~= gv.take(i as int));
        assert(gv.take(i + 1).last() == opt_view(groups@[i as int]));
        match &groups[i] {
            Some(g) => {
                if let Some(p) = parse_u16(g.as_str()) {
                    ports.push(p);
                }
            },
            None => {},
        }
        i = i + 1;
    }
    assert(gv.take(i as int) =~= gv);
    ports
}

/// The port in the first group of an expression's first match in a line.
fn first_port(pattern: &str, line: &str) -> (r: Option<u16>)
    ensures
        r == first_match_port(pattern@, line@),
{
    match first_groups(pattern, line) {
        None => None,
        Some(groups) => first_group_port(&groups),
    }
}

/// The port in the first group of the first match: `None` where there is
/// no match, the group did not take part, or it is no port number.
pub fn first_group_port(groups: &Vec<Option<String>>) -> (r: Option<u16>)
    ensures
        r == port_in_first_group(groups_view(groups@)),
{
    if groups.len() == 0 {
        None
    } else {
        assert(groups_view(groups@)[0] == opt_view(groups@[0]));
        match &groups[0] {
            Some(g) => parse_u16(g.as_str()),
            None => None,
        }
    }
}

fn log_pattern_table() -> (t: Vec<&'static str>)
    ensures
        t@.len() == log_port_patterns().len(),
        forall|k: int| 0 <= k < t@.len() ==> (#[trigger] t@[k])@ == log_port_patterns()[k],
{
    let mut t: Vec<&'static str> = Vec::new();
    t.push("(?i)listening on port (\\d+)");
    t.push("(?i)server running on port (\\d+)");
    t.push("(?i)localhost:(\\d+)");
    t.push("(?i)127\\.0\\.0\\.1:(\\d+)");
    t.push("(?i)0\\.0\\.0\\.0:(\\d+)");
    t.push("(?i)port (\\d+)");
    t.push("(?i)http://[^:]+:(\\d+)");
    t.push("(?i)https://[^:]+:(\\d+)");
    t.push("(?i)started on :(\\d+)");
    t.push("(?i)running at.*:(\\d+)");
    t.push("(?i)available on.*:(\\d+)");
    t
}

/// Once a process is stopped, its status is `Stopped`, whether or not the
/// The port found in the logs is that of the earliest line that names one:
/// where line `k` gives port `p` and no earlier line gives a port, the logs
/// give `p`, whatever the later lines say.
pub proof fn law_earliest_log_line_gives_the_port(logs: Seq<LogEntry>, k: int, p: u16)
    requires
        0 <= k < logs.len(),
        log_port(log_port_patterns(), logs[k].message@) == Some(p),
        forall|j: int| 0 <= j < k ==> log_port(log_port_patterns(), (#[trigger] logs[j]).message@) is None,
    ensures
        first_port_in_logs(logs) == Some(p),
    decreases k,
{
    if k > 0 {
        let rest = logs.drop_first();
        assert(rest[k - 1] == logs[k]);
        assert forall|j: int| 0 <= j < k - 1 implies log_port(log_port_patterns(), (#[trigger] rest[j]).message@) is None by {
            assert(rest[j] == logs[j + 1]);
        }
        assert(log_port(log_port_patterns(), logs[0].message@) is None);
        law_earliest_log_line_gives_the_port(rest, k - 1, p);
    }
}

/// Logs in which no line names a port give none.
pub proof fn law_logs_without_ports_give_none(logs: Seq<LogEntry>)
    requires
        forall|j: int| 0 <= j < logs.len() ==> log_port(log_port_patterns(), (#[trigger] logs[j]).message@) is None,
    ensures
        first_port_in_logs(logs) is None,
    decreases logs.len(),
{
    if logs.len() > 0 {
        let rest = logs.drop_first();
        assert forall|j: int| 0 <= j < rest.len() implies log_port(log_port_patterns(), (#[trigger] rest[j]).message@) is None by {
            assert(rest[j] == logs[j + 1]);
        }
        assert(log_port(log_port_patterns(), logs[0].message@) is None);
        law_logs_without_ports_give_none(rest);
    }
}

/// registry knew it.
pub proof fn law_stopped_after_stop(s: Seq<RunningProcess>, id: Seq<char>)
    ensures
        status_in(set_status_in(s, id, ExecutionStatus::Stopped), id) == ExecutionStatus::Stopped,
{
    lemma_position(s, id);
    let t = set_status_in(s, id, ExecutionStatus::Stopped);
    if position(s, id) >= 0 {
        let k = position(s, id);
        assert forall|j: int| 0 <= j < k implies (#[trigger] t[j]).handle.id@ != id by {
            assert(t[j] == s[j]);
        }
        lemma_position_at(t, id, k);
    }
}

/// Changing the status of one process leaves every other process's status
/// as it was.
pub proof fn law_status_change_is_local(s: Seq<RunningProcess>, id: Seq<char>, other: Seq<char>, status: ExecutionStatus)
    requires
        other != id,
    ensures
        status_in(set_status_in(s, id, status), other) == status_in(s, other),
{
    lemma_position(s, id);
    lemma_position(s, other);
    let t = set_status_in(s, id, status);
    assert forall|j: int| 0 <= j < s.len() implies (#[trigger] t[j]).handle.id@ == s[j].handle.id@ by {}
    if position(s, other) >= 0 {
        let q = position(s, other);
        assert forall|j: int| 0 <= j < q implies (#[trigger] t[j]).handle.id@ != other by {
            assert(t[j].handle.id@ == s[j].handle.id@);
        }
        assert(t[q].handle.id@ == s[q].handle.id@);
        lemma_position_at(t, other, q);
        assert(q != position(s, id));
    } else {
        assert forall|j: int| 0 <= j < t.len() implies (#[trigger] t[j]).handle.id@ != other by {
            assert(t[j].handle.id@ == s[j].handle.id@);
        }
        lemma_position_at(t, other, t.len() as int);
    }
}

/// A log within the limit stays within it after one more line, and keeps
/// that line as its newest.
pub proof fn law_log_stays_bounded<A>(log: Seq<A>, line: A)
    requires
        log.len() <= MAX_LOG_LINES,
    ensures
        capped(log.push(line)).len() <= MAX_LOG_LINES,
        capped(log.push(line)).last() == line,
{
}

/// Every command is given at least one port.
pub proof fn law_every_command_has_a_port(command: Seq<char>)
    ensures
        command_ports(command).len() >= 1,
{
}

} // verus!
