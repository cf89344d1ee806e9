//! What can go wrong in a command, and how it is told to the user.
use crate::text::{copy_str, push_char, push_str, IntErrorKind};
use vstd::prelude::*;

verus! {

/// Why a command failed. The errors of reading and writing files, and of
/// reading fractions, come from the program around the library as text.
#[derive(Debug)]
pub enum CommandError {
    /// reading or writing the saved data failed
    Data(String),
    /// a file operation failed
    Io(String),
    ParseInt(IntErrorKind),
    ParseFloat(String),
    DurationParse(String),
    UknownOrInvalidCommand(String),
    NoHelpAvailable(String),
    NoFilePlaying,
    NotInFiles(String),
    InvalidFileName(String),
    MacroAlreadyExists(String),
    MacroDoesNotExist(String),
    VolumeTooLow(String),
    VolumeTooHigh(String),
    SaveInWrongMode,
    SaveOverCurrentPlaylist,
    DeleteCurrentPlaylist,
    ListNameEmpty,
    ListNameBadChar(char),
    /// moving forward would pass the longest time there is
    ProgressOverflow,
}

pub enum CommandErrorView {
    Data(Seq<char>),
    Io(Seq<char>),
    ParseInt(IntErrorKind),
    ParseFloat(Seq<char>),
    DurationParse(Seq<char>),
    UknownOrInvalidCommand(Seq<char>),
    NoHelpAvailable(Seq<char>),
    NoFilePlaying,
    NotInFiles(Seq<char>),
    InvalidFileName(Seq<char>),
    MacroAlreadyExists(Seq<char>),
    MacroDoesNotExist(Seq<char>),
    VolumeTooLow(Seq<char>),
    VolumeTooHigh(Seq<char>),
    SaveInWrongMode,
    SaveOverCurrentPlaylist,
    DeleteCurrentPlaylist,
    ListNameEmpty,
    ListNameBadChar(char),
    ProgressOverflow,
}

impl View for CommandError {
    type V = CommandErrorView;

    open spec fn view(&self) -> CommandErrorView {
        match self {
            CommandError::Data(s) => CommandErrorView::Data(s@),
            CommandError::Io(s) => CommandErrorView::Io(s@),
            CommandError::ParseInt(k) => CommandErrorView::ParseInt(*k),
            CommandError::ParseFloat(s) => CommandErrorView::ParseFloat(s@),
            CommandError::DurationParse(s) => CommandErrorView::DurationParse(s@),
            CommandError::UknownOrInvalidCommand(s) => CommandErrorView::UknownOrInvalidCommand(s@),
            CommandError::NoHelpAvailable(s) => CommandErrorView::NoHelpAvailable(s@),
            CommandError::NoFilePlaying => CommandErrorView::NoFilePlaying,
            CommandError::NotInFiles(s) => CommandErrorView::NotInFiles(s@),
            CommandError::InvalidFileName(s) => CommandErrorView::InvalidFileName(s@),
            CommandError::MacroAlreadyExists(s) => CommandErrorView::MacroAlreadyExists(s@),
            CommandError::MacroDoesNotExist(s) => CommandErrorView::MacroDoesNotExist(s@),
            CommandError::VolumeTooLow(s) => CommandErrorView::VolumeTooLow(s@),
            CommandError::VolumeTooHigh(s) => CommandErrorView::VolumeTooHigh(s@),
            CommandError::SaveInWrongMode => CommandErrorView::SaveInWrongMode,
            CommandError::SaveOverCurrentPlaylist => CommandErrorView::SaveOverCurrentPlaylist,
            CommandError::DeleteCurrentPlaylist => CommandErrorView::DeleteCurrentPlaylist,
            CommandError::ListNameEmpty => CommandErrorView::ListNameEmpty,
            CommandError::ListNameBadChar(c) => CommandErrorView::ListNameBadChar(*c),
            CommandError::ProgressOverflow => CommandErrorView::ProgressOverflow,
        }
    }
}

/// How `ParseIntError` describes each kind.
pub open spec fn int_error_text(k: IntErrorKind) -> Seq<char> {
    match k {
        IntErrorKind::Empty => "cannot parse integer from empty string"@,
        IntErrorKind::InvalidDigit => "invalid digit found in string"@,
        IntErrorKind::PosOverflow => "number too large to fit in target type"@,
    }
}

/// The text that tells the user of an error.
pub open spec fn error_text(e: CommandErrorView) -> Seq<char> {
    match e {
        CommandErrorView::Data(s) => "data error: "@ + s,
        CommandErrorView::Io(s) => "io error: "@ + s,
        CommandErrorView::ParseInt(k) => "Failed while parsing Integer: "@ + int_error_text(k),
        CommandErrorView::ParseFloat(s) => "Failed while parsing Float: "@ + s,
        CommandErrorView::DurationParse(s) => "Failed while parsing Duration: "@ + s,
        CommandErrorView::UknownOrInvalidCommand(s) => "Uknown or Invalid command: "@ + s,
        CommandErrorView::NoHelpAvailable(s) => "No help available for: "@ + s,
        CommandErrorView::NoFilePlaying => "No File currently playing"@,
        CommandErrorView::NotInFiles(_) => "Song not in Files list"@,
        CommandErrorView::InvalidFileName(s) => "Invalid file name: "@ + s,
        CommandErrorView::MacroAlreadyExists(s) => "Macro already exists: "@ + s,
        CommandErrorView::MacroDoesNotExist(s) => "Macro does not exist: "@ + s,
        CommandErrorView::VolumeTooLow(s) => "Volume can't be less than 0%, but got: "@ + s,
        CommandErrorView::VolumeTooHigh(s) =>
            "Volume can't be more than 300%, to protect your ears, but got: "@ + s,
        CommandErrorView::SaveInWrongMode => "Can't save in this mode"@,
        CommandErrorView::SaveOverCurrentPlaylist => "Can't save over the current playlist"@,
        CommandErrorView::DeleteCurrentPlaylist => "Can't delete the current playlist"@,
        CommandErrorView::ListNameEmpty => "List name can't be empty"@,
        CommandErrorView::ListNameBadChar(c) => "List name contains a bad character: "@.push(c),
        CommandErrorView::ProgressOverflow => "Progress would pass the longest possible time"@,
    }
}

fn prefixed(prefix: &str, rest: &String) -> (r: String)
    ensures
        r@ == prefix@ + rest@,
{
    let mut r = copy_str(prefix);
    push_str(&mut r, rest.as_str());
    r
}

impl CommandError {
    /// The text that tells the user of the error.
    pub fn message(&self) -> (r: String)
        ensures
            r@ == error_text(self@),
    {
        match self {
            CommandError::Data(s) => prefixed("data error: ", s),
            CommandError::Io(s) => prefixed("io error: ", s),
            CommandError::ParseInt(k) => {
                let mut r = copy_str("Failed while parsing Integer: ");
                match k {
                    IntErrorKind::Empty => push_str(&mut r, "cannot parse integer from empty string"),
                    IntErrorKind::InvalidDigit => push_str(&mut r, "invalid digit found in string"),
                    IntErrorKind::PosOverflow => push_str(&mut r, "number too large to fit in target type"),
                }
                r
            },
            CommandError::ParseFloat(s) => prefixed("Failed while parsing Float: ", s),
            CommandError::DurationParse(s) => prefixed("Failed while parsing Duration: ", s),
            CommandError::UknownOrInvalidCommand(s) => prefixed("Uknown or Invalid command: ", s),
            CommandError::NoHelpAvailable(s) => prefixed("No help available for: ", s),
            CommandError::NoFilePlaying => copy_str("No File currently playing"),
            CommandError::NotInFiles(_) => copy_str("Song not in Files list"),
            CommandError::InvalidFileName(s) => prefixed("Invalid file name: ", s),
            CommandError::MacroAlreadyExists(s) => prefixed("Macro already exists: ", s),
            CommandError::MacroDoesNotExist(s) => prefixed("Macro does not exist: ", s),
            CommandError::VolumeTooLow(s) => prefixed("Volume can't be less than 0%, but got: ", s),
            CommandError::VolumeTooHigh(s) => prefixed(
                "Volume can't be more than 300%, to protect your ears, but got: ",
                s,
            ),
            CommandError::SaveInWrongMode => copy_str("Can't save in this mode"),
            CommandError::SaveOverCurrentPlaylist => copy_str("Can't save over the current playlist"),
            CommandError::DeleteCurrentPlaylist => copy_str("Can't delete the current playlist"),
            CommandError::ListNameEmpty => copy_str("List name can't be empty"),
            CommandError::ListNameBadChar(c) => {
                let mut r = copy_str("List name contains a bad character: ");
                push_char(&mut r, *c);
                r
            },
            CommandError::ProgressOverflow => copy_str("Progress would pass the longest possible time"),
        }
    }
}

} // verus!
