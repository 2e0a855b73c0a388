use minecraft_manager::chat::ChatMessage;
use minecraft_manager::events::{MinecraftServerEventType, MinecraftServerWarning};
use minecraft_manager::parse_line::ParseOutput;
use minecraft_manager::tasks::{is_terminal_outcome, MinecraftServerTask};
use minecraft_manager::threaded::{
    stdin_payload, supervisor_step, MinecraftServerStopReasons, PollOutcome, SpawnOutcome,
    SupervisorAction, SupervisorEvent, SupervisorState,
};

#[test]
fn kill_yields_terminal_100_and_killed_stop_reason() {
    let (state, actions) = supervisor_step(
        SupervisorState::Running,
        SupervisorEvent::TaskHandled(MinecraftServerTask::Kill, None),
    );
    assert_eq!(
        state,
        SupervisorState::Terminated(MinecraftServerStopReasons::KilledDueToTask)
    );
    assert_eq!(
        actions,
        vec![SupervisorAction::KillProcess, SupervisorAction::SendOutcome(100)]
    );
    assert!(is_terminal_outcome(&Ok(100)));
}

#[test]
fn stop_then_exit_yields_outcomes_0_then_100_and_process_ended() {
    let mut outcomes: Vec<u8> = Vec::new();
    let mut state = SupervisorState::Running;
    let trace = vec![
        SupervisorEvent::TaskHandled(MinecraftServerTask::Stop, None),
        SupervisorEvent::Poll(PollOutcome::StillRunning),
        SupervisorEvent::Poll(PollOutcome::StillRunning),
        SupervisorEvent::Poll(PollOutcome::Exited(Some(0))),
        SupervisorEvent::Poll(PollOutcome::Exited(Some(0))),
    ];
    for event in trace {
        let (next, actions) = supervisor_step(state, event);
        for action in actions {
            if let SupervisorAction::SendOutcome(v) = action {
                outcomes.push(v);
            }
        }
        state = next;
    }
    assert_eq!(outcomes, vec![0, 100]);
    assert_eq!(
        state,
        SupervisorState::Terminated(MinecraftServerStopReasons::ProcessEnded(Some(0)))
    );
}

#[test]
fn run_command_resolves_with_100_on_write_success() {
    let (state, actions) = supervisor_step(
        SupervisorState::Running,
        SupervisorEvent::TaskHandled(MinecraftServerTask::RunCommand("say hi".to_owned()), None),
    );
    assert_eq!(state, SupervisorState::Running);
    assert_eq!(actions, vec![SupervisorAction::SendOutcome(100)]);
}

#[test]
fn run_command_resolves_with_101_on_write_failure() {
    let (state, actions) = supervisor_step(
        SupervisorState::Running,
        SupervisorEvent::TaskHandled(
            MinecraftServerTask::RunCommand("say hi".to_owned()),
            Some("broken pipe".to_owned()),
        ),
    );
    assert_eq!(state, SupervisorState::Running);
    assert_eq!(actions, vec![SupervisorAction::SendOutcome(101)]);
}

#[test]
fn stop_write_failure_warns_and_leaves_no_outcome() {
    let (state, actions) = supervisor_step(
        SupervisorState::Running,
        SupervisorEvent::TaskHandled(MinecraftServerTask::Stop, Some("broken pipe".to_owned())),
    );
    assert_eq!(state, SupervisorState::Running);
    assert_eq!(
        actions,
        vec![SupervisorAction::EmitEvent(MinecraftServerEventType::Warning(
            MinecraftServerWarning::CantWriteToStdin("broken pipe".to_owned())
        ))]
    );
}

#[test]
fn spawn_failure_terminates_with_spawn_reason() {
    let (state, actions) = supervisor_step(
        SupervisorState::Spawning,
        SupervisorEvent::SpawnResult(SpawnOutcome::Failed("no such file".to_owned())),
    );
    assert_eq!(
        state,
        SupervisorState::Terminated(MinecraftServerStopReasons::ProcessCouldNotBeSpawned(
            "no such file".to_owned()
        ))
    );
    assert!(actions.is_empty());
}

#[test]
fn missing_stdio_warns_then_waits_for_the_end() {
    let (state, actions) =
        supervisor_step(SupervisorState::Spawning, SupervisorEvent::SpawnResult(SpawnOutcome::NoStdio));
    assert_eq!(state, SupervisorState::Spawning);
    assert_eq!(
        actions,
        vec![SupervisorAction::EmitEvent(MinecraftServerEventType::Warning(
            MinecraftServerWarning::CouldNotGetServerProcessStdio
        ))]
    );
    let (state, actions) =
        supervisor_step(state, SupervisorEvent::Poll(PollOutcome::Exited(Some(1))));
    assert_eq!(
        state,
        SupervisorState::Terminated(MinecraftServerStopReasons::ProcessEnded(Some(1)))
    );
    assert!(actions.is_empty());
}

#[test]
fn successful_spawn_starts_running() {
    let (state, actions) =
        supervisor_step(SupervisorState::Spawning, SupervisorEvent::SpawnResult(SpawnOutcome::Ready));
    assert_eq!(state, SupervisorState::Running);
    assert!(actions.is_empty());
}

#[test]
fn poll_failure_terminates_with_await_reason() {
    let (state, actions) = supervisor_step(
        SupervisorState::Running,
        SupervisorEvent::Poll(PollOutcome::PollFailed("wait failed".to_owned())),
    );
    assert_eq!(
        state,
        SupervisorState::Terminated(MinecraftServerStopReasons::ProcessCouldNotBeAwaited(
            "wait failed".to_owned()
        ))
    );
    assert!(actions.is_empty());
}

#[test]
fn classified_events_are_forwarded_to_the_buffer() {
    let event = MinecraftServerEventType::ChatMessage(ChatMessage {
        author: "Alice".to_owned(),
        message: "hi".to_owned(),
    });
    let (state, actions) = supervisor_step(
        SupervisorState::Running,
        SupervisorEvent::Classified(ParseOutput::Event(event.clone())),
    );
    assert_eq!(state, SupervisorState::Running);
    assert_eq!(actions, vec![SupervisorAction::EmitEvent(event)]);
    let (state, actions) = supervisor_step(
        SupervisorState::Running,
        SupervisorEvent::Classified(ParseOutput::Nothing),
    );
    assert_eq!(state, SupervisorState::Running);
    assert!(actions.is_empty());
}

#[test]
fn terminated_is_final_whatever_arrives() {
    let state = SupervisorState::Terminated(MinecraftServerStopReasons::KilledDueToTask);
    let (state, actions) = supervisor_step(
        state,
        SupervisorEvent::TaskHandled(MinecraftServerTask::Stop, None),
    );
    assert_eq!(
        state,
        SupervisorState::Terminated(MinecraftServerStopReasons::KilledDueToTask)
    );
    assert!(actions.is_empty());
}

#[test]
fn stdin_payload_per_task_kind() {
    assert_eq!(stdin_payload(&MinecraftServerTask::Stop), Some("stop".to_owned()));
    assert_eq!(stdin_payload(&MinecraftServerTask::Kill), None);
    assert_eq!(
        stdin_payload(&MinecraftServerTask::RunCommand("say hi\nagain\rdone".to_owned())),
        Some("say hi\\nagain\\rdone".to_owned())
    );
}

#[test]
fn terminal_outcome_boundary() {
    assert!(!is_terminal_outcome(&Ok(0)));
    assert!(!is_terminal_outcome(&Ok(99)));
    assert!(is_terminal_outcome(&Ok(100)));
    assert!(is_terminal_outcome(&Ok(255)));
    assert!(!is_terminal_outcome(&Err("diagnostic".to_owned())));
}
