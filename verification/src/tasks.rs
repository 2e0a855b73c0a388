//! The task protocol: what a caller may ask of the supervised server, and
//! the single-use reply stream each submission gets.

use crate::channel::new_channel;
use vstd::prelude::*;

verus! {

/// An action a caller asks the supervisor to perform.
#[derive(Clone, Debug, PartialEq, Eq)]
pub enum MinecraftServerTask {
    /// Ask the server to shut down, then wait for it.
    Stop,
    /// End the server process immediately.
    Kill,
    /// Write one command line to the server's standard input.
    RunCommand(String),
}

/// One progress or result message on a task's reply stream.
///
/// `Ok(n)` with `n` below 100 is progress in percent, exactly 100 is clean
/// completion, above 100 is completion with a non-standard result code;
/// `Err` carries an out-of-band diagnostic.
pub type TaskOutcome = Result<u8, String>;

/// An outcome that ends the reply stream: 100 or more.
pub open spec fn spec_is_terminal(o: TaskOutcome) -> bool {
    o matches Ok(n) && n >= 100
}

/// Decides `spec_is_terminal`: whether `o` is the last word on its task.
pub fn is_terminal_outcome(o: &TaskOutcome) -> (r: bool)
    ensures
        r == spec_is_terminal(*o),
{
    match o {
        Ok(n) => *n >= 100,
        Err(_) => false,
    }
}

/// The receiving end of one task's reply stream. Exactly one stream exists
/// per submitted task, created at submission and never reused.
pub struct MinecraftServerTaskCallback {
    pub recv: std::sync::mpsc::Receiver<TaskOutcome>,
}

impl MinecraftServerTaskCallback {
    pub fn new(recv: std::sync::mpsc::Receiver<TaskOutcome>) -> (r: Self)
        ensures
            r.recv == recv,
    {
        Self { recv }
    }
}

impl MinecraftServerTask {
    /// Pairs the task with the sending end of a fresh reply channel and
    /// hands the receiving end back as the caller's callback.
    pub fn generate_callback(self) -> (r: (
        (Self, std::sync::mpsc::Sender<TaskOutcome>),
        MinecraftServerTaskCallback,
    ))
        ensures
            r.0.0 == self,
    {
        let (sender, update_receiver) = new_channel();
        ((self, sender), MinecraftServerTaskCallback::new(update_receiver))
    }
}

} // verus!
