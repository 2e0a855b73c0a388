use minecraft_manager::tasks::MinecraftServerTask;
use minecraft_manager::thread::MinecraftServerTaskSender;
use std::sync::mpsc;

#[test]
fn generate_callback_keeps_the_task_and_wires_the_reply_stream() {
    let task = MinecraftServerTask::RunCommand("say hi".to_owned());
    let ((sent_task, reply_sender), callback) = task.generate_callback();
    assert_eq!(sent_task, MinecraftServerTask::RunCommand("say hi".to_owned()));
    reply_sender.send(Ok(42)).unwrap();
    reply_sender.send(Ok(100)).unwrap();
    assert_eq!(callback.recv.recv(), Ok(Ok(42)));
    assert_eq!(callback.recv.recv(), Ok(Ok(100)));
}

#[test]
fn send_task_delivers_the_task_and_the_reply_stream_works() {
    let (queue_sender, queue_receiver) = mpsc::channel();
    let sender = MinecraftServerTaskSender(queue_sender);
    let callback = sender.send_task(MinecraftServerTask::Stop).expect("queue is open");
    let (task, reply) = queue_receiver.recv().unwrap();
    assert_eq!(task, MinecraftServerTask::Stop);
    reply.send(Ok(0)).unwrap();
    reply.send(Ok(100)).unwrap();
    assert_eq!(callback.recv.recv(), Ok(Ok(0)));
    assert_eq!(callback.recv.recv(), Ok(Ok(100)));
}

#[test]
fn send_task_fails_once_the_supervisor_is_gone() {
    let (queue_sender, queue_receiver) = mpsc::channel();
    let sender = MinecraftServerTaskSender(queue_sender);
    drop(queue_receiver);
    assert!(sender.send_task(MinecraftServerTask::Kill).is_err());
}

#[test]
fn task_senders_can_be_cloned_and_used_from_anywhere() {
    let (queue_sender, queue_receiver) = mpsc::channel();
    let sender = MinecraftServerTaskSender(queue_sender);
    let second = sender.clone();
    second.send_task(MinecraftServerTask::Kill).unwrap();
    sender.send_task(MinecraftServerTask::Stop).unwrap();
    let (first_task, _) = queue_receiver.recv().unwrap();
    let (second_task, _) = queue_receiver.recv().unwrap();
    assert_eq!(first_task, MinecraftServerTask::Kill);
    assert_eq!(second_task, MinecraftServerTask::Stop);
}

#[test]
fn callback_stream_ends_with_exactly_one_terminal_value() {
    let (queue_sender, queue_receiver) = mpsc::channel();
    let sender = MinecraftServerTaskSender(queue_sender);
    let callback = sender.send_task(MinecraftServerTask::Stop).unwrap();
    let (_task, reply) = queue_receiver.recv().unwrap();
    reply.send(Ok(0)).unwrap();
    reply.send(Ok(100)).unwrap();
    drop(reply);
    let mut outcomes = Vec::new();
    while let Ok(o) = callback.recv.recv() {
        outcomes.push(o);
    }
    let terminal: Vec<_> = outcomes
        .iter()
        .filter(|o| minecraft_manager::tasks::is_terminal_outcome(o))
        .collect();
    assert_eq!(outcomes, vec![Ok(0), Ok(100)]);
    assert_eq!(terminal.len(), 1);
}
