//! What the event loop is told to do, and the keys it reacts to.
use crate::text::copy_str;
use vstd::prelude::*;

verus! {

/// A key as the terminal reports it. `Media` and `Modifier` hold the place of
/// the media or modifier key in the terminal library's list of them.
#[derive(Clone, Copy, Debug, PartialEq, Eq, Structural)]
pub enum KeyCode {
    Backspace,
    Enter,
    Left,
    Right,
    Up,
    Down,
    Home,
    End,
    PageUp,
    PageDown,
    Tab,
    BackTab,
    Delete,
    Insert,
    F(u8),
    Char(char),
    Null,
    Esc,
    CapsLock,
    ScrollLock,
    NumLock,
    PrintScreen,
    Pause,
    Menu,
    KeypadBegin,
    Media(u8),
    Modifier(u8),
}

/// A message for the event loop.
#[derive(Debug)]
pub enum Message {
    DoUpdateAgain,
    GotoNormalMode,
    GotoCommandMode,
    ToggleScreenRedraws,
    Quit { save: bool, abort_on_error: bool },
    RunCommand(String),
    StartCommand(String),
    TypedChar(char),
    Backspace,
    Enter,
}

pub enum MessageView {
    DoUpdateAgain,
    GotoNormalMode,
    GotoCommandMode,
    ToggleScreenRedraws,
    Quit { save: bool, abort_on_error: bool },
    RunCommand(Seq<char>),
    StartCommand(Seq<char>),
    TypedChar(char),
    Backspace,
    Enter,
}

impl View for Message {
    type V = MessageView;

    open spec fn view(&self) -> MessageView {
        match self {
            Message::DoUpdateAgain => MessageView::DoUpdateAgain,
            Message::GotoNormalMode => MessageView::GotoNormalMode,
            Message::GotoCommandMode => MessageView::GotoCommandMode,
            Message::ToggleScreenRedraws => MessageView::ToggleScreenRedraws,
            Message::Quit { save, abort_on_error } => MessageView::Quit {
                save: *save,
                abort_on_error: *abort_on_error,
            },
            Message::RunCommand(s) => MessageView::RunCommand(s@),
            Message::StartCommand(s) => MessageView::StartCommand(s@),
            Message::TypedChar(c) => MessageView::TypedChar(*c),
            Message::Backspace => MessageView::Backspace,
            Message::Enter => MessageView::Enter,
        }
    }
}

impl Message {
    /// A copy of the message.
    pub fn copy(&self) -> (r: Message)
        ensures
            r@ == self@,
    {
        match self {
            Message::DoUpdateAgain => Message::DoUpdateAgain,
            Message::GotoNormalMode => Message::GotoNormalMode,
            Message::GotoCommandMode => Message::GotoCommandMode,
            Message::ToggleScreenRedraws => Message::ToggleScreenRedraws,
            Message::Quit { save, abort_on_error } => Message::Quit {
                save: *save,
                abort_on_error: *abort_on_error,
            },
            Message::RunCommand(s) => Message::RunCommand(s.clone()),
            Message::StartCommand(s) => Message::StartCommand(s.clone()),
            Message::TypedChar(c) => Message::TypedChar(*c),
            Message::Backspace => Message::Backspace,
            Message::Enter => Message::Enter,
        }
    }
}

/// An event of the operating system's media controls that needs no fraction.
#[derive(Clone, Copy, Debug, PartialEq, Eq, Structural)]
pub enum MediaEvent {
    Play,
    Pause,
    Toggle,
    Next,
    Previous,
    Stop,
    /// seek forward by an amount the controls leave open
    SeekForward,
    /// seek backward by an amount the controls leave open
    SeekBackward,
    /// open a file or address in the player
    OpenUri,
    /// bring the player's window to the front
    Raise,
    Quit,
}

/// The command a media control event runs, if any: the player does not open
/// addresses and has no window of its own to raise.
pub open spec fn media_command_spec(e: MediaEvent) -> Option<Seq<char>> {
    match e {
        MediaEvent::Play => Some("p+"@),
        MediaEvent::Pause => Some("p-"@),
        MediaEvent::Toggle => Some("p"@),
        MediaEvent::Next => Some("pn"@),
        MediaEvent::Previous => Some("pp"@),
        MediaEvent::Stop => Some("p-"@),
        MediaEvent::SeekForward => Some("gf 5s"@),
        MediaEvent::SeekBackward => Some("gb 5s"@),
        MediaEvent::OpenUri => None,
        MediaEvent::Raise => None,
        MediaEvent::Quit => Some("q"@),
    }
}

/// The command that a media control event runs.
pub fn media_command(e: MediaEvent) -> (r: Option<String>)
    ensures
        match r {
            Some(c) => media_command_spec(e) == Some(c@),
            None => media_command_spec(e) is None,
        },
{
    match e {
        MediaEvent::Play => Some(copy_str("p+")),
        MediaEvent::Pause => Some(copy_str("p-")),
        MediaEvent::Toggle => Some(copy_str("p")),
        MediaEvent::Next => Some(copy_str("pn")),
        MediaEvent::Previous => Some(copy_str("pp")),
        MediaEvent::Stop => Some(copy_str("p-")),
        MediaEvent::SeekForward => Some(copy_str("gf 5s")),
        MediaEvent::SeekBackward => Some(copy_str("gb 5s")),
        MediaEvent::OpenUri => None,
        MediaEvent::Raise => None,
        MediaEvent::Quit => Some(copy_str("q")),
    }
}

} // verus!
