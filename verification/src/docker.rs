//! The isolated-environment lifecycle: one disposable, resource-capped
//! container per request, driven through create, run with a hard
//! timeout, output capture and guaranteed removal.
//!
//! Everything the container runtime is told — the exact argument lists
//! of the `create`, `start`, `kill` and `rm` invocations — is built and
//! specified here. The lifecycle itself is a state machine: callers
//! perform one host-side action at a time (spawning the runtime,
//! writing input, waiting, collecting output) and feed the observed
//! event back in; the machine decides every next step, and the trace
//! lemmas at the end show that a created container is removed exactly
//! once on every path, success and failure alike.

use vstd::prelude::*;
use crate::status::ExitStatus;

verus! {

/// The hard wall-clock bound on one guest execution, in seconds.
pub const EXEC_TIMEOUT_SECS: u64 = 5;

/// A handle on one created container, identified by the id the runtime
/// printed when it was created.
pub struct Container {
    pub id: String,
}

/// The fixed hardened flags every container is created with: all
/// capabilities dropped, memory capped, no network, process count
/// capped, privilege escalation disabled, standard input kept open.
pub open spec fn spec_create_flags() -> Seq<Seq<char>> {
    seq![
        "create"@,
        "--cap-drop=ALL"@,
        "--memory=128m"@,
        "--net=none"@,
        "--pids-limit=20"@,
        "--security-opt=no-new-privileges"@,
        "--interactive"@,
    ]
}

/// One `--env=NAME=VALUE` flag.
pub open spec fn spec_env_flag(k: Seq<char>, v: Seq<char>) -> Seq<char> {
    "--env="@ + k + "="@ + v
}

/// One `--env` flag per requested environment variable, in order.
pub open spec fn spec_env_flags(env: Seq<(Seq<char>, Seq<char>)>) -> Seq<Seq<char>> {
    env.map_values(|kv: (Seq<char>, Seq<char>)| spec_env_flag(kv.0, kv.1))
}

/// The full argument list of the runtime invocation that creates a
/// container: the hardened flags, one `--env` flag per requested
/// variable in order, the image name, then the entry command and its
/// arguments.
pub open spec fn spec_create_args(
    cmd: Seq<char>,
    args: Seq<Seq<char>>,
    env: Seq<(Seq<char>, Seq<char>)>,
    image: Seq<char>,
) -> Seq<Seq<char>> {
    spec_create_flags() + spec_env_flags(env) + seq![image, cmd] + args
}

/// The argument list that starts a created container attached to its
/// standard streams.
pub open spec fn spec_start_args(id: Seq<char>) -> Seq<Seq<char>> {
    seq!["start"@, "--attach"@, "--interactive"@, id]
}

/// The argument list that kills a running container.
pub open spec fn spec_kill_args(id: Seq<char>) -> Seq<Seq<char>> {
    seq!["kill"@, id]
}

/// The argument list that forcibly removes a container.
pub open spec fn spec_rm_args(id: Seq<char>) -> Seq<Seq<char>> {
    seq!["rm"@, "--force"@, id]
}

/// Builds one `--env=NAME=VALUE` flag.
fn env_flag(k: &String, v: &String) -> (r: String)
    ensures
        r@ == spec_env_flag(k@, v@),
{
    let r = String::from_str("--env=").concat(k.as_str()).concat("=").concat(v.as_str());
    proof {
        assert(r@ =~= spec_env_flag(k@, v@));
    }
    r
}

/// Appends one built string, tracked on the deep view.
fn push_arg(r: &mut Vec<String>, s: String)
    ensures
        final(r).deep_view() == old(r).deep_view().push(s@),
{
    let ghost before = r.deep_view();
    let ghost pushed = s@;
    r.push(s);
    proof {
        assert(r.deep_view() =~= before.push(pushed));
    }
}

/// Appends the `--env` flags of the requested environment.
fn push_env_flags(r: &mut Vec<String>, env: &Vec<(String, String)>)
    ensures
        final(r).deep_view() == old(r).deep_view() + spec_env_flags(env.deep_view()),
{
    let ghost before = r.deep_view();
    let mut i: usize = 0;
    while i < env.len()
        invariant
            i <= env.len(),
            env.deep_view().len() == env@.len(),
            r.deep_view() == before + spec_env_flags(env.deep_view().take(i as int)),
        decreases env.len() - i,
    {
        let flag = env_flag(&env[i].0, &env[i].1);
        push_arg(r, flag);
        proof {
            let dv = env.deep_view();
            assert(dv[i as int] == (env@[i as int].0@, env@[i as int].1@));
            assert(spec_env_flags(dv.take(i + 1)) =~= spec_env_flags(dv.take(i as int)).push(
                spec_env_flag(dv[i as int].0, dv[i as int].1),
            ));
            assert(r.deep_view() =~= before + spec_env_flags(dv.take(i + 1)));
        }
        i = i + 1;
    }
    proof {
        assert(env.deep_view().take(env.deep_view().len() as int) =~= env.deep_view());
    }
}

/// Appends copies of the given strings, tracked on the deep view.
fn push_all(r: &mut Vec<String>, parts: &Vec<String>)
    ensures
        final(r).deep_view() == old(r).deep_view() + parts.deep_view(),
{
    let ghost before = r.deep_view();
    let mut i: usize = 0;
    while i < parts.len()
        invariant
            i <= parts.len(),
            parts.deep_view().len() == parts@.len(),
            r.deep_view() == before + parts.deep_view().take(i as int),
        decreases parts.len() - i,
    {
        push_arg(r, parts[i].clone());
        proof {
            assert(parts.deep_view().take(i + 1) =~= parts.deep_view().take(i as int).push(
                parts.deep_view()[i as int],
            ));
            assert(r.deep_view() =~= before + parts.deep_view().take(i + 1));
        }
        i = i + 1;
    }
    proof {
        assert(parts.deep_view().take(parts.deep_view().len() as int) =~= parts.deep_view());
    }
}

/// Builds the creation argument list for the given entry command,
/// arguments, environment and image.
pub fn create_args(cmd: &str, args: &Vec<String>, env: &Vec<(String, String)>, image: &str) -> (r:
    Vec<String>)
    ensures
        r.deep_view() == spec_create_args(cmd@, args.deep_view(), env.deep_view(), image@),
{
    let mut r: Vec<String> = Vec::new();
    push_arg(&mut r, String::from_str("create"));
    push_arg(&mut r, String::from_str("--cap-drop=ALL"));
    push_arg(&mut r, String::from_str("--memory=128m"));
    push_arg(&mut r, String::from_str("--net=none"));
    push_arg(&mut r, String::from_str("--pids-limit=20"));
    push_arg(&mut r, String::from_str("--security-opt=no-new-privileges"));
    push_arg(&mut r, String::from_str("--interactive"));
    proof {
        assert(r.deep_view() =~= spec_create_flags());
    }
    push_env_flags(&mut r, env);
    push_arg(&mut r, String::from_str(image));
    push_arg(&mut r, String::from_str(cmd));
    push_all(&mut r, args);
    proof {
        assert(r.deep_view() =~= spec_create_args(cmd@, args.deep_view(), env.deep_view(), image@));
    }
    r
}

impl Container {
    /// The argument list that starts this container attached.
    pub fn start_args(&self) -> (r: Vec<String>)
        ensures
            r.deep_view() == spec_start_args(self.id@),
    {
        let mut r: Vec<String> = Vec::new();
        r.push(String::from_str("start"));
        r.push(String::from_str("--attach"));
        r.push(String::from_str("--interactive"));
        r.push(self.id.clone());
        proof {
            assert(r.deep_view() =~= spec_start_args(self.id@));
        }
        r
    }

    /// The argument list that kills this container.
    pub fn kill_args(&self) -> (r: Vec<String>)
        ensures
            r.deep_view() == spec_kill_args(self.id@),
    {
        let mut r: Vec<String> = Vec::new();
        r.push(String::from_str("kill"));
        r.push(self.id.clone());
        proof {
            assert(r.deep_view() =~= spec_kill_args(self.id@));
        }
        r
    }

    /// The argument list that forcibly removes this container.
    pub fn rm_args(&self) -> (r: Vec<String>)
        ensures
            r.deep_view() == spec_rm_args(self.id@),
    {
        let mut r: Vec<String> = Vec::new();
        r.push(String::from_str("rm"));
        r.push(String::from_str("--force"));
        r.push(self.id.clone());
        proof {
            assert(r.deep_view() =~= spec_rm_args(self.id@));
        }
        r
    }
}

/// The whitespace characters stripped around a printed container id.
pub open spec fn is_space(c: char) -> bool {
    c == ' ' || c == '\n' || c == '\t' || c == '\r'
}

/// The text with leading whitespace removed.
pub open spec fn trim_front(s: Seq<char>) -> Seq<char>
    decreases s.len(),
{
    if s.len() > 0 && is_space(s.first()) {
        trim_front(s.drop_first())
    } else {
        s
    }
}

/// The text with trailing whitespace removed.
pub open spec fn trim_back(s: Seq<char>) -> Seq<char>
    decreases s.len(),
{
    if s.len() > 0 && is_space(s.last()) {
        trim_back(s.drop_last())
    } else {
        s
    }
}

/// The text with surrounding whitespace removed.
pub open spec fn spec_trim(s: Seq<char>) -> Seq<char> {
    trim_back(trim_front(s))
}

proof fn lemma_trim_front_range(s: Seq<char>, lo: int)
    requires
        0 <= lo <= s.len(),
        forall|j: int| 0 <= j < lo ==> is_space(s[j]),
        lo < s.len() ==> !is_space(s[lo]),
    ensures
        trim_front(s) == s.skip(lo),
    decreases lo,
{
    if lo == 0 {
        assert(s.skip(0) =~= s);
    } else {
        assert(is_space(s.first()));
        let rest = s.drop_first();
        assert(forall|j: int| 0 <= j < lo - 1 ==> is_space(#[trigger] rest[j]));
        lemma_trim_front_range(rest, lo - 1);
        assert(rest.skip(lo - 1) =~= s.skip(lo));
    }
}

proof fn lemma_trim_back_range(s: Seq<char>, hi: int)
    requires
        0 <= hi <= s.len(),
        forall|j: int| hi <= j < s.len() ==> is_space(s[j]),
        hi > 0 ==> !is_space(s[hi - 1]),
    ensures
        trim_back(s) == s.take(hi),
    decreases s.len(),
{
    if hi == s.len() {
        if s.len() > 0 {
            assert(!is_space(s.last()));
        }
        assert(s.take(hi) =~= s);
    } else {
        assert(is_space(s.last()));
        let rest = s.drop_last();
        lemma_trim_back_range(rest, hi);
        assert(rest.take(hi) =~= s.take(hi));
    }
}

/// Whether a character counts as whitespace around a container id.
fn is_space_char(c: char) -> (r: bool)
    ensures
        r == is_space(c),
{
    c == ' ' || c == '\n' || c == '\t' || c == '\r'
}

/// Strips surrounding whitespace, as around the id the runtime prints.
pub fn trim_str(s: &str) -> (r: String)
    ensures
        r@ == spec_trim(s@),
{
    let n = s.unicode_len();
    let mut lo: usize = 0;
    while lo < n && is_space_char(s.get_char(lo))
        invariant
            lo <= n,
            n == s@.len(),
            forall|j: int| 0 <= j < lo ==> is_space(s@[j]),
        decreases n - lo,
    {
        lo = lo + 1;
    }
    let mut hi: usize = n;
    while hi > lo && is_space_char(s.get_char(hi - 1))
        invariant
            lo <= hi <= n,
            n == s@.len(),
            forall|j: int| 0 <= j < lo ==> is_space(s@[j]),
            forall|j: int| hi <= j < n ==> is_space(s@[j]),
        decreases hi,
    {
        hi = hi - 1;
    }
    proof {
        lemma_trim_front_range(s@, lo as int);
        let front = s@.skip(lo as int);
        lemma_trim_back_range(front, hi - lo);
        assert(front.take(hi - lo) =~= s@.subrange(lo as int, hi as int));
    }
    let piece = s.substring_char(lo, hi);
    String::from_str(piece)
}

/// The parts joined with single spaces.
pub open spec fn spec_join_space(parts: Seq<Seq<char>>) -> Seq<char>
    decreases parts.len(),
{
    if parts.len() == 0 {
        Seq::empty()
    } else if parts.len() == 1 {
        parts[0]
    } else {
        spec_join_space(parts.drop_last()) + " "@ + parts.last()
    }
}

/// Joins an argument list with single spaces, for error reports.
fn join_space(parts: &Vec<String>) -> (r: String)
    ensures
        r@ == spec_join_space(parts.deep_view()),
{
    let mut out = String::new();
    let mut i: usize = 0;
    while i < parts.len()
        invariant
            i <= parts.len(),
            out@ == spec_join_space(parts.deep_view().take(i as int)),
        decreases parts.len() - i,
    {
        if i > 0 {
            out = out.concat(" ");
        }
        out = out.concat(parts[i].as_str());
        proof {
            let taken = parts.deep_view().take(i + 1);
            assert(taken.drop_last() =~= parts.deep_view().take(i as int));
            assert(taken.last() == parts.deep_view()[i as int]);
            if i == 0 {
                assert(out@ =~= spec_join_space(taken));
            } else {
                assert(out@ =~= spec_join_space(taken));
            }
        }
        i = i + 1;
    }
    proof {
        assert(parts.deep_view().take(parts.deep_view().len() as int) =~= parts.deep_view());
    }
    out
}

/// The report carried by an error from a failed runtime invocation: the
/// invoked command line and what the invocation printed.
pub open spec fn spec_failure_message(argv: Seq<Seq<char>>, detail: Seq<char>) -> Seq<char> {
    "process failed: docker "@ + spec_join_space(argv) + "\n"@ + detail
}

/// Builds the report of a failed runtime invocation.
fn failure_message(argv: &Vec<String>, detail: &str) -> (r: String)
    ensures
        r@ == spec_failure_message(argv.deep_view(), detail@),
{
    let joined = join_space(argv);
    let r = String::from_str("process failed: docker ").concat(joined.as_str()).concat(
        "\n",
    ).concat(detail);
    proof {
        assert(r@ =~= spec_failure_message(argv.deep_view(), detail@));
    }
    r
}

/// Where a run session stands in the container's lifecycle.
#[derive(Debug, PartialEq, Eq, Copy, Clone, Structural)]
pub enum Phase {
    /// The creation invocation is out.
    Creating,
    /// The container exists; it is being started and fed its input.
    Starting,
    /// The guest runs; the session waits, bounded by the timeout.
    Waiting,
    /// The timeout fired; the kill invocation is out.
    Killing,
    /// The guest was killed; the session waits for its exit status.
    KilledWaiting,
    /// The guest is done; the drained output is being collected.
    Collecting,
    /// The removal invocation is out.
    Removing,
    /// The session is over and its outcome has been handed out.
    Done,
}

/// What the host observed while performing the requested action.
pub enum SessionEvent {
    /// The creation invocation finished; `stdout` holds what it
    /// printed, `detail` a diagnostic description on failure.
    CreateDone { ok: bool, stdout: String, detail: String },
    /// The container was started attached and the input payload was
    /// written and closed — or doing so failed at the OS level.
    AttachDone { ok: bool, detail: String },
    /// The bounded wait finished: the guest exited in time (`Some`),
    /// the timeout elapsed first (`None`), or waiting itself failed.
    WaitDone { ok: bool, exited: Option<ExitStatus>, detail: String },
    /// The kill invocation finished.
    KillDone { ok: bool, detail: String },
    /// The wait for the killed guest's status finished.
    KillWaitDone { ok: bool, status: ExitStatus, detail: String },
    /// Both stream readers were joined and the shared buffer taken.
    Collected { output: Vec<u8> },
    /// The removal invocation finished (failure is logged, not
    /// propagated).
    RemoveDone { ok: bool },
}

/// Why a request failed: the sandbox could not be created, or running
/// it failed at the host level. Each carries a diagnostic report.
pub enum SandboxError {
    Create(String),
    Run(String),
}

/// What one completed run produced: the guest's exit status, the
/// captured output and whether the timeout fired.
pub struct RunResult {
    pub status: ExitStatus,
    pub output: Vec<u8>,
    pub timed_out: bool,
}

/// The next host-side action a run session asks for.
pub enum SessionAction {
    /// Spawn the runtime's start invocation attached to the guest's
    /// streams, write the input payload, close it, and drain both
    /// output streams concurrently.
    Attach(Vec<String>),
    /// Wait for the guest, bounded by this many seconds.
    WaitGuest(u64),
    /// Run the runtime with the given kill arguments.
    RunKill(Vec<String>),
    /// Wait for the killed guest's actual exit status.
    WaitKilled,
    /// Join both stream readers and hand the shared buffer back.
    Collect,
    /// Run the runtime with the given removal arguments.
    RunRemove(Vec<String>),
    /// The session is over with this outcome.
    Finish(Result<RunResult, SandboxError>),
    /// The event did not belong to the current phase; nothing to do.
    Idle,
}

/// The phase a session moves to when an event arrives: the control flow
/// of one run, from creation to guaranteed removal. An event that does
/// not belong to the phase changes nothing.
pub open spec fn spec_next_phase(p: Phase, ev: SessionEvent) -> Phase {
    match (p, ev) {
        (Phase::Creating, SessionEvent::CreateDone { ok, .. }) => if ok {
            Phase::Starting
        } else {
            Phase::Done
        },
        (Phase::Starting, SessionEvent::AttachDone { ok, .. }) => if ok {
            Phase::Waiting
        } else {
            Phase::Removing
        },
        (Phase::Waiting, SessionEvent::WaitDone { ok, exited, .. }) => if !ok {
            Phase::Removing
        } else if exited is Some {
            Phase::Collecting
        } else {
            Phase::Killing
        },
        (Phase::Killing, SessionEvent::KillDone { ok, .. }) => if ok {
            Phase::KilledWaiting
        } else {
            Phase::Removing
        },
        (Phase::KilledWaiting, SessionEvent::KillWaitDone { ok, .. }) => if ok {
            Phase::Collecting
        } else {
            Phase::Removing
        },
        (Phase::Collecting, SessionEvent::Collected { .. }) => Phase::Removing,
        (Phase::Removing, SessionEvent::RemoveDone { .. }) => Phase::Done,
        _ => p,
    }
}

/// Whether this step issues the removal invocation: exactly the steps
/// that enter the removing phase.
pub open spec fn spec_emits_remove(p: Phase, ev: SessionEvent) -> bool {
    !(p is Removing) && spec_next_phase(p, ev) is Removing
}

/// Whether this step consumes a successful creation: the one step that
/// brings a container into existence.
pub open spec fn spec_consumes_create(p: Phase, ev: SessionEvent) -> bool {
    p is Creating && (ev matches SessionEvent::CreateDone { ok: true, .. })
}

/// One run of one request through one disposable container: the state
/// machine behind the create, run-with-timeout, remove sequence. The
/// caller performs each returned action against the real runtime and
/// feeds the observed event back into `step`.
pub struct Session {
    /// Where the session stands.
    pub phase: Phase,
    /// The created container, once the runtime has reported its id.
    pub container: Option<Container>,
    /// The creation argument list, kept for failure reports.
    pub create_argv: Vec<String>,
    /// Whether the timeout fired and the guest was killed.
    pub timed_out: bool,
    /// The guest's exit status, once observed.
    pub status: Option<ExitStatus>,
    /// The outcome to hand out once the container is removed.
    pub pending: Option<Result<RunResult, SandboxError>>,
}

impl Session {
    /// The session's structural invariant: a container exists in every
    /// phase between successful creation and completed removal, an exit
    /// status is at hand when output is collected, and an outcome is at
    /// hand while removal is out.
    pub open spec fn wf(self) -> bool {
        &&& (match self.phase {
            Phase::Creating => self.container is None,
            Phase::Starting => self.container is Some,
            Phase::Waiting => self.container is Some,
            Phase::Killing => self.container is Some,
            Phase::KilledWaiting => self.container is Some,
            Phase::Collecting => self.container is Some,
            Phase::Removing => self.container is Some,
            Phase::Done => true,
        })
        &&& (self.phase is Collecting ==> self.status is Some)
        &&& (self.phase is Removing ==> self.pending is Some)
    }

    /// Opens a session for one request: the caller is to run the
    /// runtime's create invocation with `create_argv` and feed the
    /// outcome back as a `CreateDone` event.
    pub fn new(cmd: &str, args: &Vec<String>, env: &Vec<(String, String)>, image: &str) -> (s:
        Session)
        ensures
            s.wf(),
            s.phase is Creating,
            s.create_argv.deep_view() == spec_create_args(
                cmd@,
                args.deep_view(),
                env.deep_view(),
                image@,
            ),
    {
        Session {
            phase: Phase::Creating,
            container: None,
            create_argv: create_args(cmd, args, env, image),
            timed_out: false,
            status: None,
            pending: None,
        }
    }

    /// Feeds one observed event in and decides the next action. The
    /// contract pins, for every phase and event, the phase moved to,
    /// whether the removal invocation is issued, and what the returned
    /// action carries.
    pub fn step(&mut self, ev: SessionEvent) -> (act: SessionAction)
        requires
            old(self).wf(),
        ensures
            final(self).wf(),
            final(self).phase == spec_next_phase(old(self).phase, ev),
            (act matches SessionAction::RunRemove(v) && v.deep_view() == spec_rm_args(
                old(self).container->0.id@,
            )) <==> spec_emits_remove(old(self).phase, ev),
            final(self).create_argv == old(self).create_argv,
            act is Idle ==> *final(self) == *old(self),
            // A successful creation: the printed id, trimmed, names the
            // container, and the attached start is requested.
            ev matches SessionEvent::CreateDone { ok: true, stdout, detail: _ } ==> (old(
                self,
            ).phase is Creating ==> (final(self).container matches Some(c) && c.id@ == spec_trim(
                stdout@,
            ) && (act matches SessionAction::Attach(v) && v.deep_view() == spec_start_args(
                spec_trim(stdout@),
            )))),
            // A failed creation ends the session at once — nothing was
            // created, so nothing is removed — with a report carrying
            // the invoked command line and its output.
            ev matches SessionEvent::CreateDone { ok: false, stdout: _, detail } ==> (old(
                self,
            ).phase is Creating ==> (act matches SessionAction::Finish(res) && res matches Err(e)
                && e matches SandboxError::Create(msg) && msg@ == spec_failure_message(
                old(self).create_argv.deep_view(),
                detail@,
            ))),
            // The guest is started: wait for it, bounded by the fixed
            // timeout.
            ev matches SessionEvent::AttachDone { ok: true, detail: _ } ==> (old(self).phase
                is Starting ==> (act matches SessionAction::WaitGuest(t) && t
                == EXEC_TIMEOUT_SECS)),
            ev matches SessionEvent::AttachDone { ok: false, detail } ==> (old(self).phase
                is Starting ==> (final(self).pending matches Some(res) && res matches Err(e) && e
                matches SandboxError::Run(msg) && msg@ == detail@)),
            // The guest exited in time: its real status is recorded and
            // the timed-out flag stays clear.
            ev matches SessionEvent::WaitDone { ok: true, exited: Some(st), detail: _ } ==> (old(
                self,
            ).phase is Waiting ==> (final(self).status == Some(st) && final(self).timed_out
                == false && act is Collect)),
            // The timeout elapsed first: the container is killed.
            ev matches SessionEvent::WaitDone { ok: true, exited: None, detail: _ } ==> (old(
                self,
            ).phase is Waiting ==> (act matches SessionAction::RunKill(v) && old(
                self,
            ).container matches Some(c0) && v.deep_view() == spec_kill_args(c0.id@))),
            ev matches SessionEvent::WaitDone { ok: false, exited: _, detail } ==> (old(
                self,
            ).phase is Waiting ==> (final(self).pending matches Some(res) && res matches Err(e)
                && e matches SandboxError::Run(msg) && msg@ == detail@)),
            ev matches SessionEvent::KillDone { ok: true, detail: _ } ==> (old(self).phase
                is Killing ==> act is WaitKilled),
            ev matches SessionEvent::KillDone { ok: false, detail } ==> (old(self).phase is Killing
                ==> (final(self).pending matches Some(res) && res matches Err(e) && e matches
                SandboxError::Run(msg) && old(self).container matches Some(c0) && msg@
                == spec_failure_message(spec_kill_args(c0.id@), detail@))),
            // The killed guest's status is recorded and the timed-out
            // flag is set.
            ev matches SessionEvent::KillWaitDone { ok: true, status: st, detail: _ } ==> (old(
                self,
            ).phase is KilledWaiting ==> (final(self).status == Some(st) && final(self).timed_out
                == true && act is Collect)),
            ev matches SessionEvent::KillWaitDone { ok: false, status: _, detail } ==> (old(
                self,
            ).phase is KilledWaiting ==> (final(self).pending matches Some(res) && res matches Err(
                e,
            ) && e matches SandboxError::Run(msg) && msg@ == detail@)),
            // The collected buffer, the recorded status and the
            // timed-out flag become the pending outcome.
            ev matches SessionEvent::Collected { output } ==> (old(self).phase is Collecting ==> (
            final(self).pending matches Some(res) && res matches Ok(rr) && old(
                self,
            ).status matches Some(st) && rr.status == st && rr.output@ == output@ && rr.timed_out
                == old(self).timed_out)),
            // Removal done: the pending outcome is handed out, whether
            // or not the removal invocation itself succeeded.
            ev matches SessionEvent::RemoveDone { ok: _ } ==> (old(self).phase is Removing ==> (old(
                self,
            ).pending matches Some(res0) && act matches SessionAction::Finish(res) && res
                == res0)),
    {
        match (self.phase, ev) {
            (Phase::Creating, SessionEvent::CreateDone { ok: true, stdout, detail: _ }) => {
                let id = trim_str(stdout.as_str());
                let c = Container { id };
                let argv = c.start_args();
                self.container = Some(c);
                self.phase = Phase::Starting;
                SessionAction::Attach(argv)
            },
            (Phase::Creating, SessionEvent::CreateDone { ok: false, stdout: _, detail }) => {
                self.phase = Phase::Done;
                let msg = failure_message(&self.create_argv, detail.as_str());
                SessionAction::Finish(Err(SandboxError::Create(msg)))
            },
            (Phase::Starting, SessionEvent::AttachDone { ok: true, detail: _ }) => {
                self.phase = Phase::Waiting;
                SessionAction::WaitGuest(EXEC_TIMEOUT_SECS)
            },
            (Phase::Starting, SessionEvent::AttachDone { ok: false, detail }) => {
                self.pending = Some(Err(SandboxError::Run(detail)));
                self.phase = Phase::Removing;
                match &self.container {
                    Some(c) => SessionAction::RunRemove(c.rm_args()),
                    None => SessionAction::Idle,
                }
            },
            (Phase::Waiting, SessionEvent::WaitDone { ok: true, exited: Some(st), detail: _ }) => {
                self.status = Some(st);
                self.timed_out = false;
                self.phase = Phase::Collecting;
                SessionAction::Collect
            },
            (Phase::Waiting, SessionEvent::WaitDone { ok: true, exited: None, detail: _ }) => {
                self.phase = Phase::Killing;
                match &self.container {
                    Some(c) => SessionAction::RunKill(c.kill_args()),
                    None => SessionAction::Idle,
                }
            },
            (Phase::Waiting, SessionEvent::WaitDone { ok: false, exited: _, detail }) => {
                self.pending = Some(Err(SandboxError::Run(detail)));
                self.phase = Phase::Removing;
                match &self.container {
                    Some(c) => SessionAction::RunRemove(c.rm_args()),
                    None => SessionAction::Idle,
                }
            },
            (Phase::Killing, SessionEvent::KillDone { ok: true, detail: _ }) => {
                self.phase = Phase::KilledWaiting;
                SessionAction::WaitKilled
            },
            (Phase::Killing, SessionEvent::KillDone { ok: false, detail }) => {
                let msg = match &self.container {
                    Some(c) => {
                        let kill_argv = c.kill_args();
                        failure_message(&kill_argv, detail.as_str())
                    },
                    None => detail,
                };
                self.pending = Some(Err(SandboxError::Run(msg)));
                self.phase = Phase::Removing;
                match &self.container {
                    Some(c) => SessionAction::RunRemove(c.rm_args()),
                    None => SessionAction::Idle,
                }
            },
            (Phase::KilledWaiting, SessionEvent::KillWaitDone { ok: true, status, detail: _ }) => {
                self.status = Some(status);
                self.timed_out = true;
                self.phase = Phase::Collecting;
                SessionAction::Collect
            },
            (Phase::KilledWaiting, SessionEvent::KillWaitDone { ok: false, status: _, detail }) => {
                self.pending = Some(Err(SandboxError::Run(detail)));
                self.phase = Phase::Removing;
                match &self.container {
                    Some(c) => SessionAction::RunRemove(c.rm_args()),
                    None => SessionAction::Idle,
                }
            },
            (Phase::Collecting, SessionEvent::Collected { output }) => {
                let st = match self.status {
                    Some(st) => st,
                    None => ExitStatus::Exited(0),
                };
                self.pending = Some(
                    Ok(RunResult { status: st, output, timed_out: self.timed_out }),
                );
                self.phase = Phase::Removing;
                match &self.container {
                    Some(c) => SessionAction::RunRemove(c.rm_args()),
                    None => SessionAction::Idle,
                }
            },
            (Phase::Removing, SessionEvent::RemoveDone { ok: _ }) => {
                self.phase = Phase::Done;
                match self.pending.take() {
                    Some(res) => SessionAction::Finish(res),
                    None => SessionAction::Idle,
                }
            },
            (_, _) => SessionAction::Idle,
        }
    }
}

/// The phase a fresh session reaches after a sequence of events.
pub open spec fn trace_phase(evs: Seq<SessionEvent>) -> Phase
    decreases evs.len(),
{
    if evs.len() == 0 {
        Phase::Creating
    } else {
        spec_next_phase(trace_phase(evs.drop_last()), evs.last())
    }
}

/// How many removal invocations a sequence of events makes a fresh
/// session issue.
pub open spec fn count_removes(evs: Seq<SessionEvent>) -> int
    decreases evs.len(),
{
    if evs.len() == 0 {
        0
    } else {
        count_removes(evs.drop_last()) + if spec_emits_remove(
            trace_phase(evs.drop_last()),
            evs.last(),
        ) {
            1int
        } else {
            0int
        }
    }
}

/// How many containers a sequence of events makes a fresh session
/// create.
pub open spec fn count_creates(evs: Seq<SessionEvent>) -> int
    decreases evs.len(),
{
    if evs.len() == 0 {
        0
    } else {
        count_creates(evs.drop_last()) + if spec_consumes_create(
            trace_phase(evs.drop_last()),
            evs.last(),
        ) {
            1int
        } else {
            0int
        }
    }
}

/// Guaranteed cleanup: on every path a session can take — success,
/// creation failure, run failure, timeout — at most one container is
/// created, the removal invocation is never issued more often than a
/// container was created, and by the time the session is done it has
/// been issued exactly once per created container.
pub proof fn lemma_cleanup_exactly_once(evs: Seq<SessionEvent>)
    ensures
        0 <= count_creates(evs) <= 1,
        0 <= count_removes(evs) <= count_creates(evs),
        trace_phase(evs) is Done ==> count_removes(evs) == count_creates(evs),
        trace_phase(evs) is Creating ==> count_creates(evs) == 0 && count_removes(evs) == 0,
        trace_phase(evs) is Removing ==> count_creates(evs) == 1 && count_removes(evs) == 1,
        (trace_phase(evs) is Starting || trace_phase(evs) is Waiting || trace_phase(evs) is Killing
            || trace_phase(evs) is KilledWaiting || trace_phase(evs) is Collecting) ==> (
        count_creates(evs) == 1 && count_removes(evs) == 0),
    decreases evs.len(),
{
    if evs.len() > 0 {
        lemma_cleanup_exactly_once(evs.drop_last());
    }
}

} // verus!
