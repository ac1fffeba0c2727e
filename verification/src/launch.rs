//! The launch resolver: a state machine that turns a possibly-indirect path
//! into a request to start a process, with exactly one automatic retry
//! through elevated indirection when the first spawn is refused for lack of
//! privilege. The host performs the requested actions (parsing the shortcut
//! file, spawning the process) and hands each result back to the machine.

use vstd::prelude::*;
use vstd::string::StringExecFns;
use crate::shortcut::is_shortcut;
use crate::shortcut::is_shortcut_path;

verus! {

/// The fixed completion token the UI boundary returns for every launch,
/// whichever outcome was reached; a caller consults the log, not the return
/// value, to tell the outcomes apart.
pub fn completion_token() -> (r: String)
    ensures
        r@ == "finish"@,
{
    String::from_str("finish")
}

/// OS error code that signals a process launch was refused for lack of
/// privilege and should be retried through elevated indirection.
pub const ELEVATION_REQUIRED_OS_CODE: i32 = 740;

/// Whether a failed spawn's error code calls for the one elevated retry.
pub fn needs_elevation(code: i32) -> (r: bool)
    ensures
        r == (code == ELEVATION_REQUIRED_OS_CODE),
{
    code == ELEVATION_REQUIRED_OS_CODE
}

/// Result of an attempted launch.
#[derive(Clone, Copy, Debug, PartialEq, Eq)]
pub enum LaunchOutcome {
    /// The resolved path was spawned directly.
    Started,
    /// The first spawn was refused for lack of privilege and the elevated
    /// retry succeeded.
    StartedElevated,
    /// The spawn failed with an error other than the elevation refusal; the
    /// OS error code is kept when one was available.
    Failed { os_code: Option<i32> },
}

/// Conditions under which the launch is abandoned outright (the fail-fast
/// policy) rather than reported as a `Failed` outcome.
#[derive(Clone, Copy, Debug, PartialEq, Eq)]
pub enum AbortKind {
    /// The shortcut file could not be parsed; no fallback is attempted.
    MalformedShortcut,
    /// The elevated retry itself failed; no further attempt is made.
    ElevatedLaunchFailed,
}

/// What the machine asks the host to do next.
#[derive(Clone, Copy, Debug, PartialEq, Eq)]
pub enum LaunchAction {
    /// Parse the shortcut file at the input path.
    ParseShortcut,
    /// Spawn a process from the machine's resolved path, as it stands.
    Spawn,
    /// Spawn the machine's resolved path through the platform's elevated
    /// command-interpreter indirection.
    SpawnElevated,
    /// The launch is over; report this outcome.
    Report(LaunchOutcome),
    /// The launch is abandoned under the fail-fast policy.
    Abort(AbortKind),
}

/// What parsing the shortcut file produced: the target's local base path,
/// a well-formed shortcut that exposes no local base path, or a file that
/// could not be parsed.
#[derive(Debug)]
pub enum ShortcutParse {
    Target(String),
    NoTarget,
    Malformed,
}

/// Spec-level view of a parse result.
pub enum ShortcutParseView {
    Target(Seq<char>),
    NoTarget,
    Malformed,
}

impl View for ShortcutParse {
    type V = ShortcutParseView;

    open spec fn view(&self) -> ShortcutParseView {
        match self {
            ShortcutParse::Target(t) => ShortcutParseView::Target(t@),
            ShortcutParse::NoTarget => ShortcutParseView::NoTarget,
            ShortcutParse::Malformed => ShortcutParseView::Malformed,
        }
    }
}

/// How a spawn attempt ended: the child process started, or the spawn failed
/// with or without an OS error code.
#[derive(Clone, Copy, Debug, PartialEq, Eq)]
pub enum SpawnStatus {
    Spawned,
    FailedCode(i32),
    FailedNoCode,
}

/// Where the machine stands.
#[derive(Clone, Copy, Debug, PartialEq, Eq)]
pub enum LaunchPhase {
    /// The input names a shortcut; its parse result is awaited.
    AwaitingParse,
    /// The result of the direct spawn of the resolved path is awaited.
    AwaitingSpawn,
    /// The result of the one elevated retry is awaited.
    AwaitingElevatedSpawn,
    /// The launch ended with this outcome.
    Completed(LaunchOutcome),
    /// The launch was abandoned under the fail-fast policy.
    Aborted(AbortKind),
}

/// Spec-level state of a launch.
pub struct LaunchModel {
    /// The caller's path, never changed.
    pub input: Seq<char>,
    /// The path used for process creation.
    pub resolved: Seq<char>,
    pub phase: LaunchPhase,
}

/// Spec-level view of an event handed back by the host.
pub enum LaunchEventView {
    Parsed(ShortcutParseView),
    SpawnEnded(SpawnStatus),
    ElevatedEnded(SpawnStatus),
}

/// The state a launch of `path` begins in, and the first requested action:
/// a shortcut path is parsed first, any other path is spawned directly.
pub open spec fn launch_init(path: Seq<char>) -> (LaunchModel, LaunchAction) {
    if is_shortcut_path(path) {
        (
            LaunchModel { input: path, resolved: path, phase: LaunchPhase::AwaitingParse },
            LaunchAction::ParseShortcut,
        )
    } else {
        (
            LaunchModel { input: path, resolved: path, phase: LaunchPhase::AwaitingSpawn },
            LaunchAction::Spawn,
        )
    }
}

/// One transition of the launch: from the current state and an event of the
/// host, the next state and the requested action. An event that does not
/// belong to the current phase changes nothing.
pub open spec fn launch_step(m: LaunchModel, e: LaunchEventView) -> (LaunchModel, Option<
    LaunchAction,
>) {
    match (m.phase, e) {
        (LaunchPhase::AwaitingParse, LaunchEventView::Parsed(p)) => match p {
            ShortcutParseView::Target(t) => (
                LaunchModel { resolved: t, phase: LaunchPhase::AwaitingSpawn, ..m },
                Some(LaunchAction::Spawn),
            ),
            ShortcutParseView::NoTarget => (
                LaunchModel { phase: LaunchPhase::AwaitingSpawn, ..m },
                Some(LaunchAction::Spawn),
            ),
            ShortcutParseView::Malformed => (
                LaunchModel { phase: LaunchPhase::Aborted(AbortKind::MalformedShortcut), ..m },
                Some(LaunchAction::Abort(AbortKind::MalformedShortcut)),
            ),
        },
        (LaunchPhase::AwaitingSpawn, LaunchEventView::SpawnEnded(s)) => match s {
            SpawnStatus::Spawned => (
                LaunchModel { phase: LaunchPhase::Completed(LaunchOutcome::Started), ..m },
                Some(LaunchAction::Report(LaunchOutcome::Started)),
            ),
            SpawnStatus::FailedCode(c) => if c == ELEVATION_REQUIRED_OS_CODE {
                (
                    LaunchModel { phase: LaunchPhase::AwaitingElevatedSpawn, ..m },
                    Some(LaunchAction::SpawnElevated),
                )
            } else {
                (
                    LaunchModel {
                        phase: LaunchPhase::Completed(
                            LaunchOutcome::Failed { os_code: Some(c) },
                        ),
                        ..m
                    },
                    Some(LaunchAction::Report(LaunchOutcome::Failed { os_code: Some(c) })),
                )
            },
            SpawnStatus::FailedNoCode => (
                LaunchModel {
                    phase: LaunchPhase::Completed(LaunchOutcome::Failed { os_code: None }),
                    ..m
                },
                Some(LaunchAction::Report(LaunchOutcome::Failed { os_code: None })),
            ),
        },
        (LaunchPhase::AwaitingElevatedSpawn, LaunchEventView::ElevatedEnded(s)) => match s {
            SpawnStatus::Spawned => (
                LaunchModel { phase: LaunchPhase::Completed(LaunchOutcome::StartedElevated), ..m },
                Some(LaunchAction::Report(LaunchOutcome::StartedElevated)),
            ),
            SpawnStatus::FailedCode(_) => (
                LaunchModel { phase: LaunchPhase::Aborted(AbortKind::ElevatedLaunchFailed), ..m },
                Some(LaunchAction::Abort(AbortKind::ElevatedLaunchFailed)),
            ),
            SpawnStatus::FailedNoCode => (
                LaunchModel { phase: LaunchPhase::Aborted(AbortKind::ElevatedLaunchFailed), ..m },
                Some(LaunchAction::Abort(AbortKind::ElevatedLaunchFailed)),
            ),
        },
        _ => (m, None),
    }
}

/// The actions a launch requests from state `m`, given the events the host
/// hands back, in order.
pub open spec fn launch_run(m: LaunchModel, evs: Seq<LaunchEventView>) -> Seq<LaunchAction>
    decreases evs.len(),
{
    if evs.len() == 0 {
        Seq::empty()
    } else {
        let (m2, a) = launch_step(m, evs[0]);
        match a {
            Some(act) => seq![act] + launch_run(m2, evs.skip(1)),
            None => launch_run(m2, evs.skip(1)),
        }
    }
}

/// All actions a launch of `path` requests: the initial action, then those
/// of the steps that the host's events drive.
pub open spec fn launch_actions(path: Seq<char>, evs: Seq<LaunchEventView>) -> Seq<LaunchAction> {
    let (m0, a0) = launch_init(path);
    seq![a0] + launch_run(m0, evs)
}

/// How many of the actions are elevated-spawn requests.
pub open spec fn elevated_spawn_count(acts: Seq<LaunchAction>) -> int
    decreases acts.len(),
{
    if acts.len() == 0 {
        0
    } else {
        (if acts[0] is SpawnElevated {
            1int
        } else {
            0int
        }) + elevated_spawn_count(acts.skip(1))
    }
}

/// How many elevated retries can still be requested from this phase.
spec fn retry_budget(phase: LaunchPhase) -> int {
    match phase {
        LaunchPhase::AwaitingParse => 1,
        LaunchPhase::AwaitingSpawn => 1,
        LaunchPhase::AwaitingElevatedSpawn => 0,
        LaunchPhase::Completed(_) => 0,
        LaunchPhase::Aborted(_) => 0,
    }
}

proof fn lemma_run_retry_bound(m: LaunchModel, evs: Seq<LaunchEventView>)
    ensures
        elevated_spawn_count(launch_run(m, evs)) <= retry_budget(m.phase),
    decreases evs.len(),
{
    if evs.len() > 0 {
        let (m2, a) = launch_step(m, evs[0]);
        lemma_run_retry_bound(m2, evs.skip(1));
        match a {
            Some(act) => {
                let acts = launch_run(m, evs);
                assert(acts[0] == act);
                assert(acts.skip(1) =~= launch_run(m2, evs.skip(1)));
            },
            None => {},
        }
    }
}

/// The elevated retry is requested at most once in a launch, whatever
/// events the host hands back.
pub proof fn lemma_at_most_one_elevated_retry(path: Seq<char>, evs: Seq<LaunchEventView>)
    ensures
        elevated_spawn_count(launch_actions(path, evs)) <= 1,
{
    let (m0, a0) = launch_init(path);
    lemma_run_retry_bound(m0, evs);
    let acts = launch_actions(path, evs);
    assert(acts[0] == a0);
    assert(acts.skip(1) =~= launch_run(m0, evs));
}

/// An elevated retry is requested exactly when the direct spawn failed with
/// the elevation-required code, and never from any other state or event.
pub proof fn lemma_retry_exactly_on_elevation_code(m: LaunchModel, e: LaunchEventView)
    ensures
        launch_step(m, e).1 == Some(LaunchAction::SpawnElevated) <==> (m.phase is AwaitingSpawn
            && e matches LaunchEventView::SpawnEnded(SpawnStatus::FailedCode(
            ELEVATION_REQUIRED_OS_CODE,
        ))),
{
}

/// No step changes the caller's input path.
pub proof fn lemma_input_never_mutated(m: LaunchModel, e: LaunchEventView)
    ensures
        launch_step(m, e).0.input == m.input,
{
}

/// Only the parse of a shortcut's local base path changes the resolved
/// path; in particular the elevated retry spawns the same resolved path the
/// direct spawn used.
pub proof fn lemma_resolved_path_stable(m: LaunchModel, e: LaunchEventView)
    requires
        !(e matches LaunchEventView::Parsed(ShortcutParseView::Target(_))),
    ensures
        launch_step(m, e).0.resolved == m.resolved,
{
}

/// For a shortcut path, the first requested action is the parse of the
/// shortcut file; any spawn request comes only after it, so a spawn is
/// never attempted before the parse.
pub proof fn lemma_parse_precedes_spawn(path: Seq<char>, evs: Seq<LaunchEventView>, i: int)
    requires
        is_shortcut_path(path),
        0 <= i < launch_actions(path, evs).len(),
        launch_actions(path, evs)[i] is Spawn || launch_actions(path, evs)[i] is SpawnElevated,
    ensures
        launch_actions(path, evs)[0] is ParseShortcut,
        0 < i,
{
    let (m0, a0) = launch_init(path);
    assert(launch_actions(path, evs)[0] == a0);
}

proof fn lemma_run_never_parses(m: LaunchModel, evs: Seq<LaunchEventView>, i: int)
    requires
        0 <= i < launch_run(m, evs).len(),
    ensures
        !(launch_run(m, evs)[i] is ParseShortcut),
    decreases evs.len(),
{
    let (m2, a) = launch_step(m, evs[0]);
    match a {
        Some(act) => {
            if i > 0 {
                lemma_run_never_parses(m2, evs.skip(1), i - 1);
                assert(launch_run(m, evs)[i] == launch_run(m2, evs.skip(1))[i - 1]);
            }
        },
        None => {
            lemma_run_never_parses(m2, evs.skip(1), i);
        },
    }
}

/// For a path that is not a shortcut, the first requested action is the
/// direct spawn of that path, and no parse is ever requested.
pub proof fn lemma_plain_path_never_parsed(path: Seq<char>, evs: Seq<LaunchEventView>, i: int)
    requires
        !is_shortcut_path(path),
        0 <= i < launch_actions(path, evs).len(),
    ensures
        launch_actions(path, evs)[0] is Spawn,
        !(launch_actions(path, evs)[i] is ParseShortcut),
{
    let (m0, a0) = launch_init(path);
    assert(launch_actions(path, evs)[0] == a0);
    if i > 0 {
        lemma_run_never_parses(m0, evs, i - 1);
        assert(launch_actions(path, evs)[i] == launch_run(m0, evs)[i - 1]);
    }
}

/// A launch in progress. The host drives it: it performs each requested
/// action and hands the result back through the matching method.
pub struct LaunchMachine {
    /// The caller's path, never changed.
    pub input: String,
    /// The path used for process creation: the input, or the shortcut's
    /// local base path once one is parsed.
    pub resolved: String,
    pub phase: LaunchPhase,
}

impl View for LaunchMachine {
    type V = LaunchModel;

    open spec fn view(&self) -> LaunchModel {
        LaunchModel { input: self.input@, resolved: self.resolved@, phase: self.phase }
    }
}

impl LaunchMachine {
    /// Begin a launch of `path`. A shortcut path is parsed before anything
    /// is spawned; any other path goes to the spawn directly, with no parse.
    pub fn start(path: String) -> (r: (LaunchMachine, LaunchAction))
        ensures
            (r.0@, r.1) == launch_init(path@),
            r.0@.input == path@,
            r.0@.resolved == path@,
            is_shortcut_path(path@) ==> r.1 == LaunchAction::ParseShortcut
                && r.0.phase == LaunchPhase::AwaitingParse,
            !is_shortcut_path(path@) ==> r.1 == LaunchAction::Spawn && r.0.phase
                == LaunchPhase::AwaitingSpawn,
    {
        let resolved = path.clone();
        if is_shortcut(path.as_str()) {
            (
                LaunchMachine { input: path, resolved, phase: LaunchPhase::AwaitingParse },
                LaunchAction::ParseShortcut,
            )
        } else {
            (
                LaunchMachine { input: path, resolved, phase: LaunchPhase::AwaitingSpawn },
                LaunchAction::Spawn,
            )
        }
    }

    /// Take the result of parsing the shortcut file. A parsed local base
    /// path becomes the resolved path; a shortcut without one leaves the
    /// input path to be spawned unchanged; a malformed file aborts the
    /// launch with no fallback.
    pub fn on_shortcut_parsed(&mut self, p: ShortcutParse) -> (a: LaunchAction)
        requires
            old(self).phase is AwaitingParse,
        ensures
            (final(self)@, Some(a)) == launch_step(old(self)@, LaunchEventView::Parsed(p@)),
            final(self).input@ == old(self).input@,
            p matches ShortcutParse::Target(t) ==> final(self).resolved@ == t@ && a
                == LaunchAction::Spawn,
            p is NoTarget ==> final(self).resolved@ == old(self).resolved@ && a
                == LaunchAction::Spawn,
            p is Malformed ==> a == LaunchAction::Abort(AbortKind::MalformedShortcut)
                && final(self).phase == LaunchPhase::Aborted(AbortKind::MalformedShortcut),
    {
        match p {
            ShortcutParse::Target(t) => {
                self.resolved = t;
                self.phase = LaunchPhase::AwaitingSpawn;
                LaunchAction::Spawn
            },
            ShortcutParse::NoTarget => {
                self.phase = LaunchPhase::AwaitingSpawn;
                LaunchAction::Spawn
            },
            ShortcutParse::Malformed => {
                self.phase = LaunchPhase::Aborted(AbortKind::MalformedShortcut);
                LaunchAction::Abort(AbortKind::MalformedShortcut)
            },
        }
    }

    /// Take the result of the direct spawn. Success completes the launch as
    /// `Started`; the elevation-refusal code requests the one elevated
    /// retry; any other failure completes the launch as `Failed`, with no
    /// retry.
    pub fn on_spawn_ended(&mut self, s: SpawnStatus) -> (a: LaunchAction)
        requires
            old(self).phase is AwaitingSpawn,
        ensures
            (final(self)@, Some(a)) == launch_step(old(self)@, LaunchEventView::SpawnEnded(s)),
            final(self).input@ == old(self).input@,
            final(self).resolved@ == old(self).resolved@,
            s is Spawned ==> a == LaunchAction::Report(LaunchOutcome::Started),
            s matches SpawnStatus::FailedCode(c) ==> (c == ELEVATION_REQUIRED_OS_CODE ==> a
                == LaunchAction::SpawnElevated && final(self).phase
                == LaunchPhase::AwaitingElevatedSpawn) && (c != ELEVATION_REQUIRED_OS_CODE ==> a
                == LaunchAction::Report(LaunchOutcome::Failed { os_code: Some(c) })),
            s is FailedNoCode ==> a == LaunchAction::Report(
                LaunchOutcome::Failed { os_code: None },
            ),
    {
        match s {
            SpawnStatus::Spawned => {
                self.phase = LaunchPhase::Completed(LaunchOutcome::Started);
                LaunchAction::Report(LaunchOutcome::Started)
            },
            SpawnStatus::FailedCode(c) => {
                if needs_elevation(c) {
                    self.phase = LaunchPhase::AwaitingElevatedSpawn;
                    LaunchAction::SpawnElevated
                } else {
                    self.phase = LaunchPhase::Completed(
                        LaunchOutcome::Failed { os_code: Some(c) },
                    );
                    LaunchAction::Report(LaunchOutcome::Failed { os_code: Some(c) })
                }
            },
            SpawnStatus::FailedNoCode => {
                self.phase = LaunchPhase::Completed(LaunchOutcome::Failed { os_code: None });
                LaunchAction::Report(LaunchOutcome::Failed { os_code: None })
            },
        }
    }

    /// Take the result of the elevated retry. Success completes the launch
    /// as `StartedElevated`; a second failure abandons it outright.
    pub fn on_elevated_ended(&mut self, s: SpawnStatus) -> (a: LaunchAction)
        requires
            old(self).phase is AwaitingElevatedSpawn,
        ensures
            (final(self)@, Some(a)) == launch_step(old(self)@, LaunchEventView::ElevatedEnded(s)),
            final(self).input@ == old(self).input@,
            final(self).resolved@ == old(self).resolved@,
            s is Spawned ==> a == LaunchAction::Report(LaunchOutcome::StartedElevated),
            !(s is Spawned) ==> a == LaunchAction::Abort(AbortKind::ElevatedLaunchFailed)
                && final(self).phase == LaunchPhase::Aborted(AbortKind::ElevatedLaunchFailed),
    {
        match s {
            SpawnStatus::Spawned => {
                self.phase = LaunchPhase::Completed(LaunchOutcome::StartedElevated);
                LaunchAction::Report(LaunchOutcome::StartedElevated)
            },
            SpawnStatus::FailedCode(_) => {
                self.phase = LaunchPhase::Aborted(AbortKind::ElevatedLaunchFailed);
                LaunchAction::Abort(AbortKind::ElevatedLaunchFailed)
            },
            SpawnStatus::FailedNoCode => {
                self.phase = LaunchPhase::Aborted(AbortKind::ElevatedLaunchFailed);
                LaunchAction::Abort(AbortKind::ElevatedLaunchFailed)
            },
        }
    }
}

} // verus!
