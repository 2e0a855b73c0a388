use minecraft_manager::chat::ChatMessage;
use minecraft_manager::events::{MinecraftServerEvent, MinecraftServerEventType};
use minecraft_manager::thread::ThreadData;
use std::sync::mpsc;

fn ev(n: u32) -> MinecraftServerEvent {
    MinecraftServerEvent {
        time: (),
        event: MinecraftServerEventType::ChatMessage(ChatMessage {
            author: format!("player{n}"),
            message: format!("message {n}"),
        }),
    }
}

fn fresh(capacity: usize) -> ThreadData {
    let (_sender, receiver) = mpsc::channel();
    ThreadData::new(receiver, capacity)
}

#[test]
fn overfull_buffer_keeps_only_the_newest() {
    let mut data = fresh(3);
    for n in 1..=5u32 {
        data.record(ev(n));
    }
    let drained = data.handle_all();
    assert_eq!(drained, vec![ev(3), ev(4), ev(5)]);
}

#[test]
fn eviction_is_strictly_oldest_first() {
    let mut data = fresh(2);
    data.record(ev(1));
    data.record(ev(2));
    data.record(ev(3));
    assert_eq!(data.handle_all(), vec![ev(2), ev(3)]);
}

#[test]
fn second_drain_with_no_recording_is_empty() {
    let mut data = fresh(10);
    data.record(ev(1));
    data.record(ev(2));
    assert_eq!(data.handle_all(), vec![ev(1), ev(2)]);
    assert_eq!(data.handle_all(), Vec::<MinecraftServerEvent>::new());
}

#[test]
fn drained_events_are_never_redelivered() {
    let mut data = fresh(10);
    data.record(ev(1));
    assert_eq!(data.handle_all(), vec![ev(1)]);
    data.record(ev(2));
    data.record(ev(3));
    assert_eq!(data.handle_all(), vec![ev(2), ev(3)]);
}

#[test]
fn update_moves_channel_events_into_the_buffer() {
    let (sender, receiver) = mpsc::channel();
    let mut data = ThreadData::new(receiver, 100);
    sender.send(ev(1)).unwrap();
    sender.send(ev(2)).unwrap();
    sender.send(ev(3)).unwrap();
    assert_eq!(data.update(), 3);
    assert_eq!(data.handle_all(), vec![ev(1), ev(2), ev(3)]);
}

#[test]
fn update_on_an_empty_channel_finds_nothing() {
    let mut data = fresh(100);
    assert_eq!(data.update(), 0);
    assert_eq!(data.handle_all(), Vec::<MinecraftServerEvent>::new());
}

#[test]
fn update_past_capacity_keeps_the_newest() {
    let (sender, receiver) = mpsc::channel();
    let mut data = ThreadData::new(receiver, 2);
    for n in 1..=4u32 {
        sender.send(ev(n)).unwrap();
    }
    assert_eq!(data.update(), 4);
    assert_eq!(data.handle_all(), vec![ev(3), ev(4)]);
}
