//! The domain events the supervisor produces from the server's output.

use crate::chat::{ChatMessage, ChatMessageView};
use vstd::prelude::*;

verus! {

/// An event derived from one line of server output, or from the
/// supervisor's own failures.
#[derive(Debug, PartialEq, Eq)]
pub struct MinecraftServerEvent {
    pub time: (),
    pub event: MinecraftServerEventType,
}

#[derive(Debug, Clone, PartialEq, Eq)]
pub enum MinecraftServerEventType {
    Warning(MinecraftServerWarning),
    JoinLeave(JoinLeaveEvent),
    ChatMessage(ChatMessage),
}

#[derive(Debug, Clone, PartialEq, Eq)]
pub enum MinecraftServerWarning {
    /// The server process was spawned, but its standard streams were not
    /// captured.
    CouldNotGetServerProcessStdio,
    /// Writing to the server's standard input failed; the text describes
    /// the I/O error.
    CantWriteToStdin(String),
}

/// A player joining (`joined == true`) or leaving the server.
#[derive(Debug, Clone, PartialEq, Eq)]
pub struct JoinLeaveEvent {
    pub username: String,
    pub joined: bool,
}

/// The mathematical value of a `MinecraftServerWarning`.
pub ghost enum WarningView {
    CouldNotGetServerProcessStdio,
    CantWriteToStdin(Seq<char>),
}

/// The mathematical value of a `JoinLeaveEvent`.
pub ghost struct JoinLeaveView {
    pub username: Seq<char>,
    pub joined: bool,
}

/// The mathematical value of a `MinecraftServerEventType`.
pub ghost enum EventTypeView {
    Warning(WarningView),
    JoinLeave(JoinLeaveView),
    ChatMessage(ChatMessageView),
}

impl View for MinecraftServerWarning {
    type V = WarningView;

    open spec fn view(&self) -> WarningView {
        match self {
            MinecraftServerWarning::CouldNotGetServerProcessStdio => {
                WarningView::CouldNotGetServerProcessStdio
            },
            MinecraftServerWarning::CantWriteToStdin(e) => WarningView::CantWriteToStdin(e@),
        }
    }
}

impl View for JoinLeaveEvent {
    type V = JoinLeaveView;

    open spec fn view(&self) -> JoinLeaveView {
        JoinLeaveView { username: self.username@, joined: self.joined }
    }
}

impl View for MinecraftServerEventType {
    type V = EventTypeView;

    open spec fn view(&self) -> EventTypeView {
        match self {
            MinecraftServerEventType::Warning(w) => EventTypeView::Warning(w@),
            MinecraftServerEventType::JoinLeave(j) => EventTypeView::JoinLeave(j@),
            MinecraftServerEventType::ChatMessage(c) => EventTypeView::ChatMessage(c@),
        }
    }
}

impl View for MinecraftServerEvent {
    type V = EventTypeView;

    open spec fn view(&self) -> EventTypeView {
        self.event@
    }
}

impl MinecraftServerEvent {
    /// A field-for-field copy.
    pub fn duplicate(&self) -> (r: Self)
        ensures
            r == *self,
    {
        MinecraftServerEvent { time: (), event: self.event.duplicate() }
    }
}

impl MinecraftServerEventType {
    /// A field-for-field copy.
    pub fn duplicate(&self) -> (r: Self)
        ensures
            r == *self,
    {
        match self {
            MinecraftServerEventType::Warning(w) => {
                MinecraftServerEventType::Warning(
                    match w {
                        MinecraftServerWarning::CouldNotGetServerProcessStdio => {
                            MinecraftServerWarning::CouldNotGetServerProcessStdio
                        },
                        MinecraftServerWarning::CantWriteToStdin(e) => {
                            MinecraftServerWarning::CantWriteToStdin(e.clone())
                        },
                    },
                )
            },
            MinecraftServerEventType::JoinLeave(j) => {
                MinecraftServerEventType::JoinLeave(
                    JoinLeaveEvent { username: j.username.clone(), joined: j.joined },
                )
            },
            MinecraftServerEventType::ChatMessage(c) => {
                MinecraftServerEventType::ChatMessage(c.duplicate())
            },
        }
    }
}

} // verus!
