//! The supervisor's decision core: a state machine from observation to
//! next state and actions.
//!
//! The loop that owns the child process feeds every observation — the
//! spawn result, an arriving task together with the result of writing its
//! command to the child's standard input, a classified output line, a
//! liveness poll — into `supervisor_step`, and performs the returned
//! actions. Everything the supervisor decides is here and verified; the
//! loop around it only moves bytes and waits.

use crate::events::{MinecraftServerEventType, MinecraftServerWarning};
use crate::parse_line::ParseOutput;
use crate::tasks::MinecraftServerTask;
use crate::text::{escape_line, escape_seq};
use vstd::prelude::*;

verus! {

/// Why a supervised run ended. Exactly one of these is produced per run.
#[derive(Debug, PartialEq, Eq)]
pub enum MinecraftServerStopReasons {
    /// A kill task ended the process.
    KilledDueToTask,
    /// The process ended by itself, with this exit code when one was
    /// available.
    ProcessEnded(Option<i32>),
    /// The process could not be created; the text describes the error.
    ProcessCouldNotBeSpawned(String),
    /// Waiting on the process failed; the text describes the error.
    ProcessCouldNotBeAwaited(String),
}

/// The stop reason together with when it was produced (not recorded).
#[derive(Debug, PartialEq, Eq)]
pub struct MinecraftServerStopReason {
    pub time: (),
    pub reason: MinecraftServerStopReasons,
}

/// Where the supervisor stands.
#[derive(Debug, PartialEq, Eq)]
pub enum SupervisorState {
    /// The process is being created; its streams are not yet flowing.
    Spawning,
    /// The process runs; tasks, lines and polls are handled.
    Running,
    /// A stop command was written and acknowledged; only polls matter
    /// until the process has exited.
    Stopping,
    /// Final: the run is over, for this reason.
    Terminated(MinecraftServerStopReasons),
}

/// How creating the process went.
#[derive(Debug, PartialEq, Eq)]
pub enum SpawnOutcome {
    /// Creation failed; the text describes the error.
    Failed(String),
    /// The process exists but its standard streams were not captured.
    NoStdio,
    /// The process and its three standard streams are available.
    Ready,
}

/// What a non-blocking liveness check (or a blocking wait) said.
#[derive(Debug, PartialEq, Eq)]
pub enum PollOutcome {
    StillRunning,
    /// The process has exited, with this code when one was available.
    Exited(Option<i32>),
    /// The check itself failed; the text describes the error.
    PollFailed(String),
}

/// One observation fed into the state machine.
#[derive(Debug, PartialEq, Eq)]
pub enum SupervisorEvent {
    /// The spawn attempt finished.
    SpawnResult(SpawnOutcome),
    /// A task arrived and its command, if it has one (see
    /// `stdin_payload`), was written to the child's standard input;
    /// `None` means the write succeeded or none was needed, `Some` carries
    /// the write error's description.
    TaskHandled(MinecraftServerTask, Option<String>),
    /// One output line was classified.
    Classified(ParseOutput),
    /// A liveness check finished.
    Poll(PollOutcome),
}

/// What the driver must do after a step, in order.
#[derive(Debug, PartialEq, Eq)]
pub enum SupervisorAction {
    /// Send this value on the reply stream of the task being handled (for
    /// a step leaving `Stopping`: of the stop task that began the wait).
    SendOutcome(u8),
    /// Hand this event to the event buffer's channel.
    EmitEvent(MinecraftServerEventType),
    /// End the child process forcibly.
    KillProcess,
}

/// The transition relation. `Terminated` is final; while `Stopping`, tasks
/// and lines are deferred by the driver, so only polls move the machine.
pub open spec fn step_spec(s: SupervisorState, ev: SupervisorEvent) -> (SupervisorState, Seq<
    SupervisorAction,
>) {
    match s {
        SupervisorState::Terminated(_) => (s, Seq::empty()),
        SupervisorState::Spawning => match ev {
            SupervisorEvent::SpawnResult(SpawnOutcome::Failed(e)) => (
                SupervisorState::Terminated(
                    MinecraftServerStopReasons::ProcessCouldNotBeSpawned(e),
                ),
                Seq::empty(),
            ),
            SupervisorEvent::SpawnResult(SpawnOutcome::NoStdio) => (
                SupervisorState::Spawning,
                seq![
                    SupervisorAction::EmitEvent(
                        MinecraftServerEventType::Warning(
                            MinecraftServerWarning::CouldNotGetServerProcessStdio,
                        ),
                    ),
                ],
            ),
            SupervisorEvent::SpawnResult(SpawnOutcome::Ready) => (
                SupervisorState::Running,
                Seq::empty(),
            ),
            SupervisorEvent::Poll(PollOutcome::Exited(st)) => (
                SupervisorState::Terminated(MinecraftServerStopReasons::ProcessEnded(st)),
                Seq::empty(),
            ),
            SupervisorEvent::Poll(PollOutcome::PollFailed(e)) => (
                SupervisorState::Terminated(
                    MinecraftServerStopReasons::ProcessCouldNotBeAwaited(e),
                ),
                Seq::empty(),
            ),
            _ => (s, Seq::empty()),
        },
        SupervisorState::Running => match ev {
            SupervisorEvent::TaskHandled(MinecraftServerTask::Stop, None) => (
                SupervisorState::Stopping,
                seq![SupervisorAction::SendOutcome(0)],
            ),
            SupervisorEvent::TaskHandled(MinecraftServerTask::Stop, Some(e)) => (
                SupervisorState::Running,
                seq![
                    SupervisorAction::EmitEvent(
                        MinecraftServerEventType::Warning(
                            MinecraftServerWarning::CantWriteToStdin(e),
                        ),
                    ),
                ],
            ),
            SupervisorEvent::TaskHandled(MinecraftServerTask::Kill, _) => (
                SupervisorState::Terminated(MinecraftServerStopReasons::KilledDueToTask),
                seq![SupervisorAction::KillProcess, SupervisorAction::SendOutcome(100)],
            ),
            SupervisorEvent::TaskHandled(MinecraftServerTask::RunCommand(_), w) => (
                SupervisorState::Running,
                seq![
                    SupervisorAction::SendOutcome(
                        if w is None {
                            100
                        } else {
                            101
                        },
                    ),
                ],
            ),
            SupervisorEvent::Classified(ParseOutput::Event(e)) => (
                SupervisorState::Running,
                seq![SupervisorAction::EmitEvent(e)],
            ),
            SupervisorEvent::Classified(_) => (SupervisorState::Running, Seq::empty()),
            SupervisorEvent::Poll(PollOutcome::StillRunning) => (
                SupervisorState::Running,
                Seq::empty(),
            ),
            SupervisorEvent::Poll(PollOutcome::Exited(st)) => (
                SupervisorState::Terminated(MinecraftServerStopReasons::ProcessEnded(st)),
                Seq::empty(),
            ),
            SupervisorEvent::Poll(PollOutcome::PollFailed(e)) => (
                SupervisorState::Terminated(
                    MinecraftServerStopReasons::ProcessCouldNotBeAwaited(e),
                ),
                Seq::empty(),
            ),
            SupervisorEvent::SpawnResult(_) => (SupervisorState::Running, Seq::empty()),
        },
        SupervisorState::Stopping => match ev {
            SupervisorEvent::Poll(PollOutcome::StillRunning) => (
                SupervisorState::Stopping,
                Seq::empty(),
            ),
            SupervisorEvent::Poll(_) => (
                SupervisorState::Running,
                seq![SupervisorAction::SendOutcome(100)],
            ),
            _ => (SupervisorState::Stopping, Seq::empty()),
        },
    }
}

/// Performs one step of the supervisor state machine.
pub fn supervisor_step(state: SupervisorState, event: SupervisorEvent) -> (r: (
    SupervisorState,
    Vec<SupervisorAction>,
))
    ensures
        r.0 == step_spec(state, event).0,
        r.1@ == step_spec(state, event).1,
{
    match state {
        SupervisorState::Terminated(rsn) => (SupervisorState::Terminated(rsn), Vec::new()),
        SupervisorState::Spawning => match event {
            SupervisorEvent::SpawnResult(SpawnOutcome::Failed(e)) => (
                SupervisorState::Terminated(
                    MinecraftServerStopReasons::ProcessCouldNotBeSpawned(e),
                ),
                Vec::new(),
            ),
            SupervisorEvent::SpawnResult(SpawnOutcome::NoStdio) => {
                let mut acts: Vec<SupervisorAction> = Vec::new();
                acts.push(
                    SupervisorAction::EmitEvent(
                        MinecraftServerEventType::Warning(
                            MinecraftServerWarning::CouldNotGetServerProcessStdio,
                        ),
                    ),
                );
                proof {
                    assert(acts@ =~= step_spec(state, event).1);
                }
                (SupervisorState::Spawning, acts)
            },
            SupervisorEvent::SpawnResult(SpawnOutcome::Ready) => (
                SupervisorState::Running,
                Vec::new(),
            ),
            SupervisorEvent::Poll(PollOutcome::Exited(st)) => (
                SupervisorState::Terminated(MinecraftServerStopReasons::ProcessEnded(st)),
                Vec::new(),
            ),
            SupervisorEvent::Poll(PollOutcome::PollFailed(e)) => (
                SupervisorState::Terminated(
                    MinecraftServerStopReasons::ProcessCouldNotBeAwaited(e),
                ),
                Vec::new(),
            ),
            _ => (SupervisorState::Spawning, Vec::new()),
        },
        SupervisorState::Running => match event {
            SupervisorEvent::TaskHandled(MinecraftServerTask::Stop, None) => {
                let mut acts: Vec<SupervisorAction> = Vec::new();
                acts.push(SupervisorAction::SendOutcome(0));
                proof {
                    assert(acts@ =~= step_spec(state, event).1);
                }
                (SupervisorState::Stopping, acts)
            },
            SupervisorEvent::TaskHandled(MinecraftServerTask::Stop, Some(e)) => {
                let mut acts: Vec<SupervisorAction> = Vec::new();
                acts.push(
                    SupervisorAction::EmitEvent(
                        MinecraftServerEventType::Warning(
                            MinecraftServerWarning::CantWriteToStdin(e),
                        ),
                    ),
                );
                proof {
                    assert(acts@ =~= step_spec(state, event).1);
                }
                (SupervisorState::Running, acts)
            },
            SupervisorEvent::TaskHandled(MinecraftServerTask::Kill, _) => {
                let mut acts: Vec<SupervisorAction> = Vec::new();
                acts.push(SupervisorAction::KillProcess);
                acts.push(SupervisorAction::SendOutcome(100));
                proof {
                    assert(acts@ =~= step_spec(state, event).1);
                }
                (
                    SupervisorState::Terminated(MinecraftServerStopReasons::KilledDueToTask),
                    acts,
                )
            },
            SupervisorEvent::TaskHandled(MinecraftServerTask::RunCommand(_), w) => {
                let mut acts: Vec<SupervisorAction> = Vec::new();
                let v: u8 = if w.is_none() {
                    100
                } else {
                    101
                };
                acts.push(SupervisorAction::SendOutcome(v));
                proof {
                    assert(acts@ =~= step_spec(state, event).1);
                }
                (SupervisorState::Running, acts)
            },
            SupervisorEvent::Classified(ParseOutput::Event(e)) => {
                let mut acts: Vec<SupervisorAction> = Vec::new();
                acts.push(SupervisorAction::EmitEvent(e));
                proof {
                    assert(acts@ =~= step_spec(state, event).1);
                }
                (SupervisorState::Running, acts)
            },
            SupervisorEvent::Classified(_) => (SupervisorState::Running, Vec::new()),
            SupervisorEvent::Poll(PollOutcome::StillRunning) => (
                SupervisorState::Running,
                Vec::new(),
            ),
            SupervisorEvent::Poll(PollOutcome::Exited(st)) => (
                SupervisorState::Terminated(MinecraftServerStopReasons::ProcessEnded(st)),
                Vec::new(),
            ),
            SupervisorEvent::Poll(PollOutcome::PollFailed(e)) => (
                SupervisorState::Terminated(
                    MinecraftServerStopReasons::ProcessCouldNotBeAwaited(e),
                ),
                Vec::new(),
            ),
            SupervisorEvent::SpawnResult(_) => (SupervisorState::Running, Vec::new()),
        },
        SupervisorState::Stopping => match event {
            SupervisorEvent::Poll(PollOutcome::StillRunning) => (
                SupervisorState::Stopping,
                Vec::new(),
            ),
            SupervisorEvent::Poll(_) => {
                let mut acts: Vec<SupervisorAction> = Vec::new();
                acts.push(SupervisorAction::SendOutcome(100));
                proof {
                    assert(acts@ =~= step_spec(state, event).1);
                }
                (SupervisorState::Running, acts)
            },
            _ => (SupervisorState::Stopping, Vec::new()),
        },
    }
}

/// The state machine run over a whole sequence of observations: the final
/// state and all actions, in order.
pub open spec fn run_trace(s: SupervisorState, evs: Seq<SupervisorEvent>) -> (SupervisorState, Seq<
    SupervisorAction,
>)
    decreases evs.len(),
{
    if evs.len() == 0 {
        (s, Seq::empty())
    } else {
        let first = step_spec(s, evs.first());
        let rest = run_trace(first.0, evs.drop_first());
        (rest.0, first.1 + rest.1)
    }
}

/// The reply-stream values among a step's actions, in order.
pub open spec fn outcomes_of(acts: Seq<SupervisorAction>) -> Seq<u8>
    decreases acts.len(),
{
    if acts.len() == 0 {
        Seq::empty()
    } else {
        let rest = outcomes_of(acts.drop_first());
        match acts.first() {
            SupervisorAction::SendOutcome(v) => seq![v] + rest,
            _ => rest,
        }
    }
}

/// An outcome value that ends a reply stream.
pub open spec fn outcome_is_terminal(v: u8) -> bool {
    v >= 100
}

/// Unfolds one step of `run_trace`.
proof fn lemma_run_trace_cons(s: SupervisorState, ev: SupervisorEvent, rest: Seq<SupervisorEvent>)
    ensures
        run_trace(s, seq![ev] + rest).0 == run_trace(step_spec(s, ev).0, rest).0,
        run_trace(s, seq![ev] + rest).1 == step_spec(s, ev).1 + run_trace(
            step_spec(s, ev).0,
            rest,
        ).1,
{
    let evs = seq![ev] + rest;
    assert(evs.len() == 1 + rest.len());
    assert(evs.first() == ev);
    assert(evs.drop_first() =~= rest);
}

/// A trace of one observation is one step.
proof fn lemma_run_trace_one(s: SupervisorState, ev: SupervisorEvent)
    ensures
        run_trace(s, seq![ev]).0 == step_spec(s, ev).0,
        run_trace(s, seq![ev]).1 == step_spec(s, ev).1,
{
    assert(seq![ev] =~= seq![ev] + Seq::<SupervisorEvent>::empty());
    lemma_run_trace_cons(s, ev, Seq::empty());
    assert(step_spec(s, ev).1 + Seq::<SupervisorAction>::empty() =~= step_spec(s, ev).1);
}

/// The outcomes of a single action, written out.
proof fn lemma_outcomes_of_one(a: SupervisorAction)
    ensures
        outcomes_of(seq![a]) == match a {
            SupervisorAction::SendOutcome(v) => seq![v],
            _ => Seq::<u8>::empty(),
        },
{
    let acts = seq![a];
    assert(acts.first() == a);
    assert(acts.drop_first() =~= Seq::<SupervisorAction>::empty());
    assert(outcomes_of(acts.drop_first()) =~= Seq::<u8>::empty());
    match a {
        SupervisorAction::SendOutcome(v) => {
            assert(seq![v] + Seq::<u8>::empty() =~= seq![v]);
        },
        _ => {},
    }
}

proof fn lemma_outcomes_of_concat(a: Seq<SupervisorAction>, b: Seq<SupervisorAction>)
    ensures
        outcomes_of(a + b) == outcomes_of(a) + outcomes_of(b),
    decreases a.len(),
{
    if a.len() == 0 {
        assert(a + b =~= b);
        assert(outcomes_of(a) + outcomes_of(b) =~= outcomes_of(b));
    } else {
        assert((a + b).first() == a.first());
        assert((a + b).drop_first() =~= a.drop_first() + b);
        lemma_outcomes_of_concat(a.drop_first(), b);
        match a.first() {
            SupervisorAction::SendOutcome(v) => {
                assert(seq![v] + (outcomes_of(a.drop_first()) + outcomes_of(b)) =~= (seq![v]
                    + outcomes_of(a.drop_first())) + outcomes_of(b));
            },
            _ => {},
        }
    }
}

/// Pending polls while stopping move nothing: the machine waits.
proof fn lemma_stopping_waits(n: nat, rest: Seq<SupervisorEvent>)
    ensures
        run_trace(SupervisorState::Stopping, stills(n) + rest) == run_trace(
            SupervisorState::Stopping,
            rest,
        ),
    decreases n,
{
    if n == 0 {
        assert(stills(0) + rest =~= rest);
    } else {
        let evs = stills(n) + rest;
        assert(evs.first() == SupervisorEvent::Poll(PollOutcome::StillRunning));
        assert(evs.drop_first() =~= stills((n - 1) as nat) + rest);
        lemma_stopping_waits((n - 1) as nat, rest);
        let tail = run_trace(SupervisorState::Stopping, evs.drop_first());
        assert(Seq::<SupervisorAction>::empty() + tail.1 =~= tail.1);
    }
}

/// Any number of pending liveness polls, as a trace.
pub open spec fn stills(n: nat) -> Seq<SupervisorEvent> {
    Seq::new(n, |i: int| SupervisorEvent::Poll(PollOutcome::StillRunning))
}

/// A kill task resolves at once: supervision ends with the kill as the
/// stop reason — whatever output lines remain unread — and its caller is
/// sent exactly one outcome, the terminal 100.
pub proof fn lemma_kill_resolves(w: Option<String>)
    ensures
        step_spec(
            SupervisorState::Running,
            SupervisorEvent::TaskHandled(MinecraftServerTask::Kill, w),
        ).0 == SupervisorState::Terminated(MinecraftServerStopReasons::KilledDueToTask),
        outcomes_of(
            step_spec(
                SupervisorState::Running,
                SupervisorEvent::TaskHandled(MinecraftServerTask::Kill, w),
            ).1,
        ) =~= seq![100u8],
        outcome_is_terminal(100),
{
    let acts = step_spec(
        SupervisorState::Running,
        SupervisorEvent::TaskHandled(MinecraftServerTask::Kill, w),
    ).1;
    assert(acts =~= seq![SupervisorAction::KillProcess] + seq![
        SupervisorAction::SendOutcome(100u8),
    ]);
    lemma_outcomes_of_concat(
        seq![SupervisorAction::KillProcess],
        seq![SupervisorAction::SendOutcome(100u8)],
    );
    lemma_outcomes_of_one(SupervisorAction::KillProcess);
    lemma_outcomes_of_one(SupervisorAction::SendOutcome(100u8));
    assert(Seq::<u8>::empty() + seq![100u8] =~= seq![100u8]);
}

/// A run-command task resolves at once with exactly one outcome, and it is
/// terminal: 100 when the write succeeded, 101 when it failed.
pub proof fn lemma_run_command_resolves(c: String, w: Option<String>)
    ensures
        step_spec(
            SupervisorState::Running,
            SupervisorEvent::TaskHandled(MinecraftServerTask::RunCommand(c), w),
        ).0 == SupervisorState::Running,
        outcomes_of(
            step_spec(
                SupervisorState::Running,
                SupervisorEvent::TaskHandled(MinecraftServerTask::RunCommand(c), w),
            ).1,
        ) =~= seq![
            if w is None {
                100u8
            } else {
                101u8
            },
        ],
        outcome_is_terminal(100) && outcome_is_terminal(101),
{
    let v: u8 = if w is None {
        100
    } else {
        101
    };
    let acts = step_spec(
        SupervisorState::Running,
        SupervisorEvent::TaskHandled(MinecraftServerTask::RunCommand(c), w),
    ).1;
    assert(acts =~= seq![SupervisorAction::SendOutcome(v)]);
    lemma_outcomes_of_one(SupervisorAction::SendOutcome(v));
}

/// A stop task whose command was written resolves with exactly the
/// progress outcome 0 and then, once a poll says the process is no longer
/// running, one terminal outcome 100 — however many pending polls come in
/// between.
pub proof fn lemma_stop_resolves(n: nat, p: PollOutcome)
    requires
        p != PollOutcome::StillRunning,
    ensures
        ({
            let evs = seq![SupervisorEvent::TaskHandled(MinecraftServerTask::Stop, None)] + stills(
                n,
            ) + seq![SupervisorEvent::Poll(p)];
            let r = run_trace(SupervisorState::Running, evs);
            r.0 == SupervisorState::Running && outcomes_of(r.1) =~= seq![0u8, 100u8]
                && outcome_is_terminal(100) && !outcome_is_terminal(0)
        }),
{
    let stop_ev = SupervisorEvent::TaskHandled(MinecraftServerTask::Stop, None);
    let poll_ev = SupervisorEvent::Poll(p);
    let evs = seq![stop_ev] + stills(n) + seq![poll_ev];
    let rest = stills(n) + seq![poll_ev];
    assert(evs =~= seq![stop_ev] + rest);
    lemma_run_trace_cons(SupervisorState::Running, stop_ev, rest);
    lemma_stopping_waits(n, seq![poll_ev]);
    lemma_run_trace_one(SupervisorState::Stopping, poll_ev);
    let s1 = step_spec(SupervisorState::Stopping, poll_ev);
    assert(s1.0 == SupervisorState::Running && s1.1 =~= seq![
        SupervisorAction::SendOutcome(100u8),
    ]) by {
        match p {
            PollOutcome::StillRunning => {},
            PollOutcome::Exited(_) => {},
            PollOutcome::PollFailed(_) => {},
        }
    }
    let first_acts = step_spec(SupervisorState::Running, stop_ev).1;
    assert(first_acts =~= seq![SupervisorAction::SendOutcome(0u8)]);
    let fin = run_trace(SupervisorState::Stopping, rest);
    let r = run_trace(SupervisorState::Running, evs);
    assert(r.0 == fin.0 && r.1 == first_acts + fin.1);
    lemma_outcomes_of_concat(first_acts, fin.1);
    lemma_outcomes_of_one(SupervisorAction::SendOutcome(0u8));
    lemma_outcomes_of_one(SupervisorAction::SendOutcome(100u8));
    assert(outcomes_of(r.1) =~= seq![0u8, 100u8]);
}

/// A stop handshake during which the process exits, followed by the
/// supervisor's own next liveness poll, ends the run: the stop task's
/// caller saw the outcomes 0 and then 100, and the stop reason records the
/// process's own ending.
pub proof fn lemma_stop_then_exit_trace(n: nat, st: Option<i32>)
    ensures
        ({
            let evs = seq![SupervisorEvent::TaskHandled(MinecraftServerTask::Stop, None)] + stills(
                n,
            ) + seq![
                SupervisorEvent::Poll(PollOutcome::Exited(st)),
                SupervisorEvent::Poll(PollOutcome::Exited(st)),
            ];
            let r = run_trace(SupervisorState::Running, evs);
            r.0 == SupervisorState::Terminated(MinecraftServerStopReasons::ProcessEnded(st))
                && outcomes_of(r.1) =~= seq![0u8, 100u8]
        }),
{
    let stop_ev = SupervisorEvent::TaskHandled(MinecraftServerTask::Stop, None);
    let exit_ev = SupervisorEvent::Poll(PollOutcome::Exited(st));
    let evs = seq![stop_ev] + stills(n) + seq![exit_ev, exit_ev];
    let rest = stills(n) + seq![exit_ev, exit_ev];
    assert(evs =~= seq![stop_ev] + rest);
    lemma_run_trace_cons(SupervisorState::Running, stop_ev, rest);
    lemma_stopping_waits(n, seq![exit_ev, exit_ev]);
    assert(seq![exit_ev, exit_ev] =~= seq![exit_ev] + seq![exit_ev]);
    lemma_run_trace_cons(SupervisorState::Stopping, exit_ev, seq![exit_ev]);
    lemma_run_trace_one(SupervisorState::Running, exit_ev);
    let s1 = step_spec(SupervisorState::Stopping, exit_ev);
    let s2 = step_spec(SupervisorState::Running, exit_ev);
    assert(s1.0 == SupervisorState::Running && s1.1 =~= seq![
        SupervisorAction::SendOutcome(100u8),
    ]);
    assert(s2.0 == SupervisorState::Terminated(MinecraftServerStopReasons::ProcessEnded(st))
        && s2.1 =~= Seq::<SupervisorAction>::empty());
    let fin = run_trace(SupervisorState::Stopping, rest);
    assert(fin.0 == SupervisorState::Terminated(MinecraftServerStopReasons::ProcessEnded(st)));
    assert(fin.1 =~= seq![SupervisorAction::SendOutcome(100u8)]);
    let first_acts = step_spec(SupervisorState::Running, stop_ev).1;
    assert(first_acts =~= seq![SupervisorAction::SendOutcome(0u8)]);
    let r = run_trace(SupervisorState::Running, evs);
    assert(r.0 == fin.0 && r.1 == first_acts + fin.1);
    lemma_outcomes_of_concat(first_acts, fin.1);
    lemma_outcomes_of_one(SupervisorAction::SendOutcome(0u8));
    lemma_outcomes_of_one(SupervisorAction::SendOutcome(100u8));
    assert(outcomes_of(r.1) =~= seq![0u8, 100u8]);
}

/// No single step sends more than one reply value, so no step can resolve
/// more than one task: a terminal outcome always has a step of its own.
pub proof fn lemma_step_sends_at_most_one_outcome(s: SupervisorState, ev: SupervisorEvent)
    ensures
        outcomes_of(step_spec(s, ev).1).len() <= 1,
{
    let acts = step_spec(s, ev).1;
    if acts.len() == 0 {
        assert(outcomes_of(acts).len() == 0);
    } else if acts.len() == 1 {
        assert(acts =~= seq![acts[0]]);
        lemma_outcomes_of_one(acts[0]);
    } else {
        assert(acts.len() == 2 && acts[0] == SupervisorAction::KillProcess) by {
            match s {
                SupervisorState::Terminated(_) => {},
                SupervisorState::Spawning => {
                    match ev {
                        SupervisorEvent::SpawnResult(_) => {},
                        SupervisorEvent::Poll(_) => {},
                        _ => {},
                    }
                },
                SupervisorState::Running => {
                    match ev {
                        SupervisorEvent::TaskHandled(MinecraftServerTask::Stop, w) => {
                            match w {
                                None => {},
                                Some(_) => {},
                            }
                        },
                        SupervisorEvent::TaskHandled(_, _) => {},
                        SupervisorEvent::Classified(_) => {},
                        SupervisorEvent::Poll(_) => {},
                        SupervisorEvent::SpawnResult(_) => {},
                    }
                },
                SupervisorState::Stopping => {
                    match ev {
                        SupervisorEvent::Poll(_) => {},
                        _ => {},
                    }
                },
            }
        }
        assert(acts =~= seq![SupervisorAction::KillProcess] + seq![acts[1]]);
        lemma_outcomes_of_concat(seq![SupervisorAction::KillProcess], seq![acts[1]]);
        lemma_outcomes_of_one(SupervisorAction::KillProcess);
        lemma_outcomes_of_one(acts[1]);
    }
}

/// A terminated supervisor never moves again and never acts again,
/// whatever else is observed.
pub proof fn lemma_terminated_is_final(
    rsn: MinecraftServerStopReasons,
    evs: Seq<SupervisorEvent>,
)
    ensures
        run_trace(SupervisorState::Terminated(rsn), evs).0 == SupervisorState::Terminated(rsn),
        run_trace(SupervisorState::Terminated(rsn), evs).1 =~= Seq::<SupervisorAction>::empty(),
    decreases evs.len(),
{
    if evs.len() > 0 {
        lemma_terminated_is_final(rsn, evs.drop_first());
    }
}

/// What one task asks to have written to the child's standard input (the
/// driver adds the line terminator): stop tasks write the stop command,
/// run-command tasks write the command with its line breaks escaped, kill
/// writes nothing.
pub fn stdin_payload(task: &MinecraftServerTask) -> (r: Option<String>)
    ensures
        task is Stop ==> (r matches Some(s) && s@ == "stop"@),
        task matches MinecraftServerTask::RunCommand(c) ==> r matches Some(s) && s@ == escape_seq(
            c@,
        ),
        task is Kill ==> r is None,
{
    match task {
        MinecraftServerTask::Stop => Some("stop".to_owned()),
        MinecraftServerTask::RunCommand(c) => Some(escape_line(c.as_str())),
        MinecraftServerTask::Kill => None,
    }
}

} // verus!
