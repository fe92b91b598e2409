//! The messages exchanged with the tray helper program, and the protocol
//! that drives it: the helper announces itself with `ready`, receives the
//! menu once, and from then on every action it reports is answered with the
//! reply that the application computes, until a `quit` reply ends it.

use vstd::prelude::*;

verus! {

/// One entry of the tray menu.
#[derive(Clone, Debug, PartialEq)]
pub struct Item {
    pub title: String,
    pub tooltip: String,
    pub enabled: bool,
    pub checked: bool,
}

/// The tray icon with its menu.
#[derive(Clone, Debug, PartialEq)]
pub struct Menu {
    pub icon: String,
    pub title: String,
    pub tooltip: String,
    pub items: Vec<Item>,
}

/// A message of the tray protocol, in either direction.
#[derive(Clone, Debug, PartialEq)]
pub enum Action {
    UpdateItem { item: Item, seq_id: u32 },
    UpdateMenu { menu: Menu, seq_id: u32 },
    UpdateItemAndMenu { item: Item, menu: Menu, seq_id: u32 },
    Clicked { item: Item, seq_id: u32 },
    /// No change; the protocol calls it `none`.
    Nothing,
    Ready,
    Quit,
}

/// Where a tray session stands.
#[derive(Clone, Copy, Debug, PartialEq, Eq, Structural)]
pub enum TrayPhase {
    /// The helper has been started; its first message is awaited.
    AwaitingReady,
    /// The menu has been sent; actions are being answered.
    Running,
    /// The session is over: the helper failed to start or was told to quit.
    Closed,
}

/// What the driver of the helper program must do next.
#[derive(Clone, Debug, PartialEq)]
pub enum TrayCommand {
    /// Write the menu, serialised, as one line to the helper.
    SendMenu,
    /// Write this reply, serialised, as one line to the helper.
    SendReply(Action),
    /// Kill the helper and end the process.
    Exit,
    /// The helper did not start properly: abort.
    Fail,
}

/// The state of the conversation with the tray helper.
pub struct TraySession {
    phase: TrayPhase,
}

impl View for TraySession {
    type V = TrayPhase;

    closed spec fn view(&self) -> TrayPhase {
        self.phase
    }
}

impl TraySession {
    /// A session whose helper has just been started.
    pub fn new() -> (s: Self)
        ensures
            s@ == TrayPhase::AwaitingReady,
    {
        TraySession { phase: TrayPhase::AwaitingReady }
    }

    /// The phase the session is in.
    pub fn phase(&self) -> (p: TrayPhase)
        ensures
            p == self@,
    {
        self.phase
    }

    /// Handles the first message of the helper: only `ready` lets the
    /// session go on, and it is answered with the menu.
    pub fn on_first_message(&mut self, message: &Action) -> (cmd: TrayCommand)
        requires
            old(self)@ == TrayPhase::AwaitingReady,
        ensures
            message is Ready ==> cmd is SendMenu && final(self)@ == TrayPhase::Running,
            !(message is Ready) ==> cmd is Fail && final(self)@ == TrayPhase::Closed,
    {
        match message {
            Action::Ready => {
                self.phase = TrayPhase::Running;
                TrayCommand::SendMenu
            },
            _ => {
                self.phase = TrayPhase::Closed;
                TrayCommand::Fail
            },
        }
    }

    /// Handles the reply that the application computed for an action of
    /// the helper: `quit` ends the session, any other reply is sent back.
    pub fn on_reply(&mut self, reply: Action) -> (cmd: TrayCommand)
        requires
            old(self)@ == TrayPhase::Running,
        ensures
            reply is Quit ==> cmd is Exit && final(self)@ == TrayPhase::Closed,
            !(reply is Quit) ==> cmd == TrayCommand::SendReply(reply) && final(self)@
                == TrayPhase::Running,
    {
        match reply {
            Action::Quit => {
                self.phase = TrayPhase::Closed;
                TrayCommand::Exit
            },
            _ => TrayCommand::SendReply(reply),
        }
    }
}

/// One line of the protocol: the serialised message followed by a newline.
pub fn frame_line(payload: &str) -> (line: String)
    ensures
        line@ == payload@.push('\n'),
{
    let mut line = String::from_str(payload);
    proof {
        reveal_strlit("\n");
    }
    line.append("\n");
    line
}

} // verus!
