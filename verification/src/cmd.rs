//! Decisions of the control client: which request a parsed subcommand
//! maps to, and where a generated shell completion script is saved.

use vstd::prelude::*;

verus! {

/// What a play subcommand targets: the next or previous track of the
/// current playlist, or a file at a given path. At most one is meant to
/// be picked.
pub struct PlayTargetGroup {
    /// Play the next song in the current playlist.
    pub next: Option<bool>,
    /// Play the previous song in the current playlist.
    pub prev: Option<bool>,
    /// Play the music at the given file path.
    pub file: Option<String>,
}

/// Mathematical value of a [`PlayTargetGroup`].
pub struct PlayTargetGroupView {
    pub next: Option<bool>,
    pub prev: Option<bool>,
    pub file: Option<Seq<char>>,
}

impl View for PlayTargetGroup {
    type V = PlayTargetGroupView;

    open spec fn view(&self) -> PlayTargetGroupView {
        PlayTargetGroupView {
            next: self.next,
            prev: self.prev,
            file: match self.file {
                Some(ref f) => Some(f@),
                None => None,
            },
        }
    }
}

/// Arguments of the play subcommand.
pub struct PlayArgs {
    /// What to play.
    pub play_target: PlayTargetGroup,
}

impl View for PlayArgs {
    type V = PlayTargetGroupView;

    open spec fn view(&self) -> PlayTargetGroupView {
        self.play_target@
    }
}

/// Arguments of the pause subcommand; it takes none.
pub struct PauseArgs {}

/// The subcommands of the control client.
pub enum SubCommand {
    /// Play music.
    Play(PlayArgs),
    /// Pause the player.
    Pause(PauseArgs),
    /// Stop the player.
    Stop,
    /// Stop the player and let the daemon exit.
    Exit,
}

/// Mathematical value of a [`SubCommand`].
pub enum SubCommandView {
    Play(PlayTargetGroupView),
    Pause,
    Stop,
    Exit,
}

impl View for SubCommand {
    type V = SubCommandView;

    open spec fn view(&self) -> SubCommandView {
        match self {
            SubCommand::Play(args) => SubCommandView::Play(args@),
            SubCommand::Pause(_) => SubCommandView::Pause,
            SubCommand::Stop => SubCommandView::Stop,
            SubCommand::Exit => SubCommandView::Exit,
        }
    }
}

/// The request a subcommand sends to the daemon: play a file, or pause.
pub enum CtlRequest {
    /// Request the play route with the given file path.
    Play(String),
    /// Request the pause route.
    Pause,
}

/// Mathematical value of a [`CtlRequest`].
pub enum CtlRequestView {
    Play(Seq<char>),
    Pause,
}

impl View for CtlRequest {
    type V = CtlRequestView;

    open spec fn view(&self) -> CtlRequestView {
        match self {
            CtlRequest::Play(p) => CtlRequestView::Play(p@),
            CtlRequest::Pause => CtlRequestView::Pause,
        }
    }
}

/// Why a subcommand maps to no request.
#[derive(Clone, Copy, Debug, PartialEq, Eq, Structural)]
pub enum CtlError {
    /// Playing the next or previous track is not a supported target.
    UnsupportedPlayTarget,
    /// The play subcommand named no file.
    MissingFilePath,
    /// The subcommand is not a supported capability.
    NotSupported,
}

/// The request a subcommand maps to. A next/previous target is
/// unsupported; a play subcommand without a file is incomplete; the stop
/// and exit subcommands have no route on the daemon and are unsupported
/// capabilities. An absent flag counts as not picked.
pub open spec fn spec_command_request(c: SubCommandView) -> Result<CtlRequestView, CtlError> {
    match c {
        SubCommandView::Play(t) => {
            if t.next == Some(true) || t.prev == Some(true) {
                Err(CtlError::UnsupportedPlayTarget)
            } else {
                match t.file {
                    Some(f) => Ok(CtlRequestView::Play(f)),
                    None => Err(CtlError::MissingFilePath),
                }
            }
        },
        SubCommandView::Pause => Ok(CtlRequestView::Pause),
        SubCommandView::Stop => Err(CtlError::NotSupported),
        SubCommandView::Exit => Err(CtlError::NotSupported),
    }
}

/// Map a parsed subcommand to the request it sends, or to the error
/// reported to the user; see [`spec_command_request`].
pub fn command_request(cmd: &SubCommand) -> (r: Result<CtlRequest, CtlError>)
    ensures
        match spec_command_request(cmd@) {
            Ok(v) => r matches Ok(q) && q@ == v,
            Err(e) => r == Err::<CtlRequest, CtlError>(e),
        },
{
    match cmd {
        SubCommand::Play(args) => {
            let t = &args.play_target;
            let next = match t.next {
                Some(b) => b,
                None => false,
            };
            let prev = match t.prev {
                Some(b) => b,
                None => false,
            };
            if next || prev {
                Err(CtlError::UnsupportedPlayTarget)
            } else {
                match &t.file {
                    Some(f) => Ok(CtlRequest::Play(f.clone())),
                    None => Err(CtlError::MissingFilePath),
                }
            }
        },
        SubCommand::Pause(_) => Ok(CtlRequest::Pause),
        SubCommand::Stop => Err(CtlError::NotSupported),
        SubCommand::Exit => Err(CtlError::NotSupported),
    }
}

/// The shells a completion script can be generated for.
#[derive(Clone, Copy, Debug, PartialEq, Eq, Structural)]
pub enum ShellKind {
    Bash,
    Elvish,
    Fish,
    PowerShell,
    Zsh,
}

/// Where a generated completion script is saved: a fixed system path for
/// bash and zsh, standard output (`None`) for every other shell.
pub fn completion_save_path(shell: ShellKind) -> (r: Option<&'static str>)
    ensures
        match shell {
            ShellKind::Bash => r matches Some(p) && p@
                == "/usr/share/bash-completion/completions/_mpaxctl"@,
            ShellKind::Zsh => r matches Some(p) && p@
                == "/usr/share/zsh/functions/Completion/Unix/_mpaxctl"@,
            _ => r is None,
        },
{
    match shell {
        ShellKind::Bash => Some("/usr/share/bash-completion/completions/_mpaxctl"),
        ShellKind::Zsh => Some("/usr/share/zsh/functions/Completion/Unix/_mpaxctl"),
        _ => None,
    }
}

} // verus!
