//! The arguments of the program: options start with `-`, every other
//! argument is a music file to play.
use crate::data::context::ProgramMode;
use crate::path::{is_absolute_path, join_path, joined_path, path_is_absolute};
use crate::text::{copy_str, starts_with, starts_with_str, str_eq, views};
use vstd::prelude::*;

verus! {

/// The arguments, read.
#[derive(Debug)]
pub struct ParsedCommandLineArgs {
    pub program_mode: ProgramMode,
    /// the music files to play, in order
    pub files: Vec<String>,
    pub disable_ipc: bool,
    /// the folder of the saved data, where it was given
    pub savedata_path: Option<String>,
}

pub struct ParsedView {
    pub program_mode: ProgramMode,
    pub files: Seq<Seq<char>>,
    pub disable_ipc: bool,
    pub savedata_path: Option<Seq<char>>,
}

impl View for ParsedCommandLineArgs {
    type V = ParsedView;

    open spec fn view(&self) -> ParsedView {
        ParsedView {
            program_mode: self.program_mode,
            files: views(self.files@),
            disable_ipc: self.disable_ipc,
            savedata_path: match &self.savedata_path {
                Some(p) => Some(p@),
                None => None,
            },
        }
    }
}

/// What the arguments ask for.
#[derive(Debug)]
pub enum CliAction {
    /// print the help text and stop
    Help,
    /// print the name and version and stop
    Version,
    /// run the player
    Run(ParsedCommandLineArgs),
}

pub enum CliActionView {
    Help,
    Version,
    Run(ParsedView),
}

impl View for CliAction {
    type V = CliActionView;

    open spec fn view(&self) -> CliActionView {
        match self {
            CliAction::Help => CliActionView::Help,
            CliAction::Version => CliActionView::Version,
            CliAction::Run(a) => CliActionView::Run(a@),
        }
    }
}

/// What is wrong with the arguments.
#[derive(Debug)]
pub enum CliError {
    UnknownArg(String),
    UnkownMode(String),
    NoModeSpecifier,
    NoSavedataPathSpecifier,
    /// the folder of the saved data was not given and has no default here
    CantFindSavedataPath,
}

pub enum CliErrorView {
    UnknownArg(Seq<char>),
    UnkownMode(Seq<char>),
    NoModeSpecifier,
    NoSavedataPathSpecifier,
    CantFindSavedataPath,
}

impl View for CliError {
    type V = CliErrorView;

    open spec fn view(&self) -> CliErrorView {
        match self {
            CliError::UnknownArg(s) => CliErrorView::UnknownArg(s@),
            CliError::UnkownMode(s) => CliErrorView::UnkownMode(s@),
            CliError::NoModeSpecifier => CliErrorView::NoModeSpecifier,
            CliError::NoSavedataPathSpecifier => CliErrorView::NoSavedataPathSpecifier,
            CliError::CantFindSavedataPath => CliErrorView::CantFindSavedataPath,
        }
    }
}

/// The arguments read so far.
pub struct CliState {
    pub mode: Option<ProgramMode>,
    pub files: Seq<Seq<char>>,
    pub disable_ipc: bool,
    pub savedata: Option<Seq<char>>,
}

/// The arguments once all are read: without a mode, files mean the temporary mode.
pub open spec fn finish_args(st: CliState) -> Result<CliActionView, CliErrorView> {
    Ok(
        CliActionView::Run(
            ParsedView {
                program_mode: match st.mode {
                    Some(m) => m,
                    None => if st.files.len() == 0 {
                        ProgramMode::Main
                    } else {
                        ProgramMode::Temp
                    },
                },
                files: st.files,
                disable_ipc: st.disable_ipc,
                savedata_path: st.savedata,
            },
        ),
    )
}

/// Reads the arguments `args[i..]` after the state `st`. Help and version stop
/// the reading at once; `--` makes every argument after it a file.
pub open spec fn args_spec(args: Seq<Seq<char>>, i: int, st: CliState) -> Result<CliActionView, CliErrorView>
    decreases args.len() - i,
{
    if i < 0 || i >= args.len() {
        finish_args(st)
    } else {
        let a = args[i];
        if starts_with(a, "-"@) {
            if a == "--help"@ || a == "-h"@ || a == "?"@ {
                Ok(CliActionView::Help)
            } else if a == "--version"@ || a == "-v"@ {
                Ok(CliActionView::Version)
            } else if a == "--no-ipc"@ {
                args_spec(args, i + 1, CliState { disable_ipc: true, ..st })
            } else if a == "--mode"@ || a == "-m"@ {
                if i + 1 >= args.len() {
                    Err(CliErrorView::NoModeSpecifier)
                } else {
                    let m = args[i + 1];
                    if m == "main"@ || m == "m"@ {
                        args_spec(args, i + 2, CliState { mode: Some(ProgramMode::Main), ..st })
                    } else if m == "temp"@ || m == "t"@ {
                        args_spec(args, i + 2, CliState { mode: Some(ProgramMode::Temp), ..st })
                    } else {
                        Err(CliErrorView::UnkownMode(m))
                    }
                }
            } else if a == "--path"@ || a == "-p"@ {
                if i + 1 >= args.len() {
                    Err(CliErrorView::NoSavedataPathSpecifier)
                } else {
                    args_spec(args, i + 2, CliState { savedata: Some(args[i + 1]), ..st })
                }
            } else if a == "--"@ {
                finish_args(CliState { files: st.files + args.skip(i + 1), ..st })
            } else {
                Err(CliErrorView::UnknownArg(a))
            }
        } else {
            args_spec(args, i + 1, CliState { files: st.files.push(a), ..st })
        }
    }
}

/// What the arguments `args` (without the program's own name) ask for.
pub open spec fn cli_spec(args: Seq<Seq<char>>) -> Result<CliActionView, CliErrorView> {
    args_spec(args, 0, CliState { mode: None, files: Seq::empty(), disable_ipc: false, savedata: None })
}

/// Reads the arguments of the program (without its own name).
pub fn parse_command_line_args(args: &Vec<String>) -> (r: Result<CliAction, CliError>)
    ensures
        match (r, cli_spec(views(args@))) {
            (Ok(a), Ok(b)) => a@ == b,
            (Err(a), Err(b)) => a@ == b,
            _ => false,
        },
{
    let ghost av = views(args@);
    let mut mode: Option<ProgramMode> = None;
    let mut files: Vec<String> = Vec::new();
    let mut disable_ipc = false;
    let mut savedata: Option<String> = None;
    let mut i: usize = 0;
    assert(views(files@) =~= Seq::<Seq<char>>::empty());
    while i < args.len()
        invariant
            av == views(args@),
            i <= args.len(),
            cli_spec(av) == args_spec(
                av,
                i as int,
                CliState {
                    mode,
                    files: views(files@),
                    disable_ipc,
                    savedata: match &savedata {
                        Some(p) => Some(p@),
                        None => None,
                    },
                },
            ),
        decreases args.len() - i,
    {
        let a = args[i].as_str();
        assert(av[i as int] == a@);
        if starts_with_str(a, "-") {
            if str_eq(a, "--help") || str_eq(a, "-h") || str_eq(a, "?") {
                return Ok(CliAction::Help);
            } else if str_eq(a, "--version") || str_eq(a, "-v") {
                return Ok(CliAction::Version);
            } else if str_eq(a, "--no-ipc") {
                disable_ipc = true;
                i += 1;
            } else if str_eq(a, "--mode") || str_eq(a, "-m") {
                if i + 1 >= args.len() {
                    return Err(CliError::NoModeSpecifier);
                }
                let m = args[i + 1].as_str();
                assert(av[i + 1] == m@);
                if str_eq(m, "main") || str_eq(m, "m") {
                    mode = Some(ProgramMode::Main);
                } else if str_eq(m, "temp") || str_eq(m, "t") {
                    mode = Some(ProgramMode::Temp);
                } else {
                    return Err(CliError::UnkownMode(copy_str(m)));
                }
                i += 2;
            } else if str_eq(a, "--path") || str_eq(a, "-p") {
                if i + 1 >= args.len() {
                    return Err(CliError::NoSavedataPathSpecifier);
                }
                assert(av[i + 1] == args@[i + 1]@);
                savedata = Some(args[i + 1].clone());
                i += 2;
            } else if str_eq(a, "--") {
                let ghost before = views(files@);
                let mut j: usize = i + 1;
                while j < args.len()
                    invariant
                        av == views(args@),
                        i + 1 <= j <= args.len(),
                        views(files@) == before + av.subrange(i + 1, j as int),
                    decreases args.len() - j,
                {
                    let f = args[j].clone();
                    let ghost fb = views(files@);
                    files.push(f);
                    assert(views(files@) =~= fb.push(f@));
                    assert(av.subrange(i + 1, j + 1) =~= av.subrange(i + 1, j as int).push(av[j as int]));
                    j += 1;
                }
                assert(av.subrange(i + 1, j as int) =~= av.skip(i + 1));
                let program_mode = match mode {
                    Some(m) => m,
                    None => if files.len() == 0 {
                        ProgramMode::Main
                    } else {
                        ProgramMode::Temp
                    },
                };
                return Ok(CliAction::Run(ParsedCommandLineArgs { program_mode, files, disable_ipc, savedata_path: savedata }));
            } else {
                return Err(CliError::UnknownArg(copy_str(a)));
            }
        } else {
            let ghost fb = views(files@);
            let f = args[i].clone();
            files.push(f);
            assert(views(files@) =~= fb.push(a@));
            i += 1;
        }
    }
    let program_mode = match mode {
        Some(m) => m,
        None => if files.len() == 0 {
            ProgramMode::Main
        } else {
            ProgramMode::Temp
        },
    };
    Ok(CliAction::Run(ParsedCommandLineArgs { program_mode, files, disable_ipc, savedata_path: savedata }))
}

/// Whether this process talks to other running players: as the option says,
/// or else where the first file is given by an absolute path (a player
/// started from a terminal, with a relative path, keeps to itself).
pub open spec fn ipc_enabled_spec(files: Seq<Seq<char>>, force_ipc: Option<bool>) -> bool {
    match force_ipc {
        Some(f) => f,
        None => files.len() > 0 && is_absolute_path(files[0]),
    }
}

/// Whether this process talks to other running players.
pub fn ipc_enabled(files: &Vec<String>, force_ipc: Option<bool>) -> (r: bool)
    ensures
        r == ipc_enabled_spec(views(files@), force_ipc),
{
    match force_ipc {
        Some(f) => f,
        None => {
            if files.len() == 0 {
                return false;
            }
            assert(views(files@)[0] == files@[0]@);
            path_is_absolute(files[0].as_str())
        },
    }
}

/// The folder of the saved data: the one given by `--path`, else the folder
/// `musicplayer` in the user's data folder `data_dir`, where there is one.
pub open spec fn savedata_folder_spec(given: Option<Seq<char>>, data_dir: Option<Seq<char>>) -> Result<
    Seq<char>,
    CliErrorView,
> {
    match given {
        Some(g) => Ok(g),
        None => match data_dir {
            Some(d) => Ok(joined_path(d, "musicplayer"@)),
            None => Err(CliErrorView::CantFindSavedataPath),
        },
    }
}

/// The folder of the saved data, given the argument `given` and the user's
/// data folder `data_dir`.
pub fn savedata_folder(given: &Option<String>, data_dir: &Option<String>) -> (r: Result<String, CliError>)
    ensures
        match (r, savedata_folder_spec(
            match given {
                Some(g) => Some(g@),
                None => None,
            },
            match data_dir {
                Some(d) => Some(d@),
                None => None,
            },
        )) {
            (Ok(a), Ok(b)) => a@ == b,
            (Err(a), Err(b)) => a@ == b,
            _ => false,
        },
{
    match given {
        Some(g) => Ok(g.clone()),
        None => match data_dir {
            Some(d) => Ok(join_path(d.as_str(), "musicplayer")),
            None => Err(CliError::CantFindSavedataPath),
        },
    }
}

} // verus!
