//! What a key press means: in normal mode the key bindings decide, in command
//! mode the keys type the command line.
use crate::data::config::{Config, keybinds_view};
use crate::message::{KeyCode, Message, MessageView};
use vstd::prelude::*;

verus! {

/// A key event as the terminal reports it, with what the player reads of it.
#[derive(Clone, Copy, Debug, PartialEq, Eq, Structural)]
pub struct KeyEvent {
    pub code: KeyCode,
    /// the control key is held
    pub control: bool,
    /// the key is let go (rather than pressed or repeated)
    pub release: bool,
}

/// The message of the first binding of `code` in `binds[i..]`.
pub open spec fn first_binding(binds: Seq<(KeyCode, MessageView)>, code: KeyCode, i: int) -> Option<MessageView>
    decreases binds.len() - i,
{
    if i < 0 || i >= binds.len() {
        None
    } else if binds[i].0 == code {
        Some(binds[i].1)
    } else {
        first_binding(binds, code, i + 1)
    }
}

/// What a key means in normal mode: its first binding, unless control is held.
pub open spec fn normal_key_spec(binds: Seq<(KeyCode, MessageView)>, key: KeyEvent) -> Option<MessageView> {
    if key.control {
        None
    } else {
        first_binding(binds, key.code, 0)
    }
}

/// What a key means in command mode: a character is typed; backspace and
/// enter edit and run the line.
pub open spec fn command_key_spec(key: KeyEvent) -> Option<MessageView> {
    if key.control {
        None
    } else {
        match key.code {
            KeyCode::Char(c) => Some(MessageView::TypedChar(c)),
            KeyCode::Backspace => Some(MessageView::Backspace),
            KeyCode::Enter => Some(MessageView::Enter),
            _ => None,
        }
    }
}

/// What a key event means: letting go means nothing; control-c and escape go
/// back to normal mode; control-r turns the redrawing of the screen on or off.
pub open spec fn key_spec(binds: Seq<(KeyCode, MessageView)>, command_mode: bool, key: KeyEvent) -> Option<MessageView> {
    if key.release {
        None
    } else if (key.control && key.code == KeyCode::Char('c')) || key.code == KeyCode::Esc {
        Some(MessageView::GotoNormalMode)
    } else if key.control && key.code == KeyCode::Char('r') {
        Some(MessageView::ToggleScreenRedraws)
    } else if command_mode {
        command_key_spec(key)
    } else {
        normal_key_spec(binds, key)
    }
}

/// The view of an optional message.
pub open spec fn opt_view(m: Option<Message>) -> Option<MessageView> {
    match m {
        Some(x) => Some(x@),
        None => None,
    }
}

fn handle_key_normal_mode(config: &Config, key: KeyEvent) -> (r: Option<Message>)
    ensures
        opt_view(r) == normal_key_spec(keybinds_view(config.keybinds@), key),
{
    if key.control {
        return None;
    }
    let ghost b = keybinds_view(config.keybinds@);
    let mut i: usize = 0;
    while i < config.keybinds.len()
        invariant
            i <= config.keybinds.len(),
            !key.control,
            b == keybinds_view(config.keybinds@),
            first_binding(b, key.code, 0) == first_binding(b, key.code, i as int),
        decreases config.keybinds.len() - i,
    {
        assert(b[i as int] == (config.keybinds@[i as int].0, config.keybinds@[i as int].1@));
        if config.keybinds[i].0 == key.code {
            assert(b[i as int].0 == key.code);
            let m = config.keybinds[i].1.copy();
            assert(first_binding(b, key.code, i as int) == Some(b[i as int].1));
            return Some(m);
        }
        i += 1;
    }
    None
}

fn handle_key_command_mode(key: KeyEvent) -> (r: Option<Message>)
    ensures
        opt_view(r) == command_key_spec(key),
{
    if key.control {
        return None;
    }
    match key.code {
        KeyCode::Char(c) => Some(Message::TypedChar(c)),
        KeyCode::Backspace => Some(Message::Backspace),
        KeyCode::Enter => Some(Message::Enter),
        _ => None,
    }
}

/// What a key event means, in command mode (a line is being typed) or in
/// normal mode.
pub fn handle_event(config: &Config, command_mode: bool, key: KeyEvent) -> (r: Option<Message>)
    ensures
        opt_view(r) == key_spec(keybinds_view(config.keybinds@), command_mode, key),
{
    if key.release {
        return None;
    }
    let is_c = match key.code {
        KeyCode::Char(c) => c == 'c',
        _ => false,
    };
    let is_r = match key.code {
        KeyCode::Char(c) => c == 'r',
        _ => false,
    };
    let is_esc = match key.code {
        KeyCode::Esc => true,
        _ => false,
    };
    if (key.control && is_c) || is_esc {
        return Some(Message::GotoNormalMode);
    }
    if key.control && is_r {
        return Some(Message::ToggleScreenRedraws);
    }
    if command_mode {
        handle_key_command_mode(key)
    } else {
        handle_key_normal_mode(config, key)
    }
}

} // verus!
