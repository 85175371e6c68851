//! The player engine: a state machine owning one playlist and at most one
//! audio session, driven by commands from its action channel.
//!
//! The engine only decides; performing a device operation, opening and
//! decoding a file and rendering it are its caller's work. Each mutating
//! step returns the device operation to perform, and the caller reports
//! back how playback went (started, failed, or finished), so a command
//! that arrives mid-track can preempt rendering.

use vstd::prelude::*;
use vstd::pervasive::unreached;

use crate::channel::{ActionChannel, PlayAction, PlayActionView};
use crate::playlist::{
    add_paths, contains_path, spec_next_of, unique_paths, PathInfo, Playlist, PlaylistView,
};

verus! {

/// Status of the player; the single source of truth for what the engine
/// is doing.
#[derive(Clone, Copy, Debug, PartialEq, Eq, Structural)]
pub enum PlayerStatus {
    /// Initializing; nothing was played yet.
    Initial,
    /// Playing audio.
    Playing,
    /// Playing audio but paused.
    Paused,
    /// Stopped and waiting to play the next one.
    Stopped,
}

/// Running mode: what happens when the current track finishes naturally.
#[derive(Clone, Copy, Debug, PartialEq, Eq, Structural)]
pub enum PlayMode {
    /// Repeat the current playlist.
    RepeatPlaylist,
    /// Repeat the current track.
    RepeatSingle,
    /// Play random tracks of the playlist.
    Random,
}

/// Where an audio stream comes from.
pub enum AudioSource {
    /// An audio file, file path embedded.
    File(String),
    /// A network stream; not a supported capability.
    Network(String),
}

/// Error of resolving an [`AudioSource`].
#[derive(Clone, Copy, Debug, PartialEq, Eq, Structural)]
pub enum AudioSourceError {
    /// The source kind is not supported.
    NotSupported,
}

impl AudioSource {
    /// The playable file path of this source. A network source yields
    /// `NotSupported` instead of being an unreachable path.
    pub fn resolve(&self) -> (r: Result<&String, AudioSourceError>)
        ensures
            match self {
                AudioSource::File(p) => r == Ok::<&String, AudioSourceError>(p),
                AudioSource::Network(_) => r == Err::<&String, AudioSourceError>(
                    AudioSourceError::NotSupported,
                ),
            },
    {
        match self {
            AudioSource::File(p) => Ok(p),
            AudioSource::Network(_) => Err(AudioSourceError::NotSupported),
        }
    }
}

/// The exclusively owned handle standing for "currently loaded and
/// rendering" output for one file.
pub struct AudioSession {
    file_path: String,
}

impl View for AudioSession {
    type V = Seq<char>;

    closed spec fn view(&self) -> Seq<char> {
        self.file_path@
    }
}

impl AudioSession {
    /// The file path this session renders.
    pub fn file_path(&self) -> (r: &str)
        ensures
            r@ == self@,
    {
        self.file_path.as_str()
    }
}

/// The device operation the engine asks its caller to perform after a
/// step.
pub enum DeviceOp {
    /// Open, decode and render the file at the given path, replacing any
    /// current output, then report back how it went.
    Start(String),
    /// Suspend the output without releasing device resources.
    Pause,
    /// Resume the suspended output.
    Resume,
    /// Halt the output and release its resources.
    Stop,
    /// No device operation.
    Idle,
}

/// Mathematical value of a [`DeviceOp`].
pub enum DeviceOpView {
    Start(Seq<char>),
    Pause,
    Resume,
    Stop,
    Idle,
}

impl View for DeviceOp {
    type V = DeviceOpView;

    open spec fn view(&self) -> DeviceOpView {
        match self {
            DeviceOp::Start(p) => DeviceOpView::Start(p@),
            DeviceOp::Pause => DeviceOpView::Pause,
            DeviceOp::Resume => DeviceOpView::Resume,
            DeviceOp::Stop => DeviceOpView::Stop,
            DeviceOp::Idle => DeviceOpView::Idle,
        }
    }
}

/// What one serviced command asks of the caller: a device operation, and
/// whether the dispatch loop must end.
pub struct StepOutcome {
    /// The device operation to perform.
    pub op: DeviceOp,
    /// True exactly when the serviced command ends the dispatch loop.
    pub exit: bool,
}

/// What the engine did about the track that finished naturally.
#[derive(Clone, Copy, Debug, PartialEq, Eq, Structural)]
pub enum AdvanceOutcome {
    /// A follow-up play command was enqueued through the action channel.
    Enqueued,
    /// No follow-up track was found; the engine stays idle.
    NoNext,
    /// The running mode's policy is not a supported capability.
    NotSupported,
}

/// Mathematical value of a [`Player`].
pub struct PlayerView {
    pub status: PlayerStatus,
    pub last_played: Option<Seq<char>>,
    pub session: Option<Seq<char>>,
    pub play_mode: PlayMode,
    pub playlist: PlaylistView,
}

/// Pausing suspends only a playing engine; in every other status it is a
/// no-op that touches neither status nor session.
pub open spec fn spec_pause(v: PlayerView) -> (PlayerView, DeviceOpView) {
    if v.status == PlayerStatus::Playing {
        (PlayerView { status: PlayerStatus::Paused, ..v }, DeviceOpView::Pause)
    } else {
        (v, DeviceOpView::Idle)
    }
}

/// Resuming wakes only a paused engine; in every other status it is a
/// no-op that touches neither status nor session.
pub open spec fn spec_resume(v: PlayerView) -> (PlayerView, DeviceOpView) {
    if v.status == PlayerStatus::Paused {
        (PlayerView { status: PlayerStatus::Playing, ..v }, DeviceOpView::Resume)
    } else {
        (v, DeviceOpView::Idle)
    }
}

/// Stopping halts and releases the session unless the engine is already
/// stopped; then no device operation happens and nothing changes.
pub open spec fn spec_stop(v: PlayerView) -> (PlayerView, DeviceOpView) {
    if v.status != PlayerStatus::Stopped {
        (
            PlayerView { status: PlayerStatus::Stopped, session: None, ..v },
            DeviceOpView::Stop,
        )
    } else {
        (v, DeviceOpView::Idle)
    }
}

/// The player engine. It exclusively owns its playlist and its current
/// audio session; nothing else reads or mutates them.
pub struct Player {
    /// Current status.
    status: PlayerStatus,

    /// File path of the last track that finished rendering.
    last_played_file_path: Option<String>,

    /// The session currently loaded into the output device, if any.
    session: Option<AudioSession>,

    /// Running mode: decides the action when the current track finishes.
    play_mode: PlayMode,

    /// Current playlist.
    playlist: Playlist,
}

impl View for Player {
    type V = PlayerView;

    closed spec fn view(&self) -> PlayerView {
        PlayerView {
            status: self.status,
            last_played: match self.last_played_file_path {
                Some(ref p) => Some(p@),
                None => None,
            },
            session: match self.session {
                Some(ref s) => Some(s@),
                None => None,
            },
            play_mode: self.play_mode,
            playlist: self.playlist@,
        }
    }
}

impl Player {
    /// Validity of the engine: the playlist has unique paths, and a
    /// session is held exactly while the engine plays or is paused.
    pub open spec fn wf(&self) -> bool {
        &&& unique_paths(self@.playlist.tracks)
        &&& (self@.session is Some <==> (self@.status == PlayerStatus::Playing
            || self@.status == PlayerStatus::Paused))
    }

    /// A fresh engine: initial status, nothing played, no session, repeat
    /// the playlist named "default".
    pub fn new() -> (r: Player)
        ensures
            r@.status == PlayerStatus::Initial,
            r@.last_played is None,
            r@.session is None,
            r@.play_mode == PlayMode::RepeatPlaylist,
            r@.playlist.name == "default"@,
            r@.playlist.tracks == Seq::<crate::music::MusicView>::empty(),
            r.wf(),
    {
        Player {
            status: PlayerStatus::Initial,
            last_played_file_path: None,
            session: None,
            play_mode: PlayMode::RepeatPlaylist,
            playlist: Playlist::new(String::from_str("default")),
        }
    }

    /// Current status.
    pub fn status(&self) -> (r: PlayerStatus)
        ensures
            r == self@.status,
    {
        self.status
    }

    /// Current running mode.
    pub fn play_mode(&self) -> (r: PlayMode)
        ensures
            r == self@.play_mode,
    {
        self.play_mode
    }

    /// Choose what happens when a track finishes naturally.
    pub fn set_play_mode(&mut self, mode: PlayMode)
        ensures
            final(self)@ == (PlayerView { play_mode: mode, ..old(self)@ }),
    {
        self.play_mode = mode;
    }

    /// The engine's playlist, read-only.
    pub fn playlist(&self) -> (r: &Playlist)
        ensures
            r@ == self@.playlist,
    {
        &self.playlist
    }

    /// The session currently held, if any.
    pub fn session(&self) -> (r: &Option<AudioSession>)
        ensures
            self@.session == match r {
                Some(s) => Some(s@),
                None => None::<Seq<char>>,
            },
    {
        &self.session
    }

    /// File path of the last track that finished rendering, if any.
    pub fn last_played_file_path(&self) -> (r: &Option<String>)
        ensures
            self@.last_played == match r {
                Some(p) => Some(p@),
                None => None::<Seq<char>>,
            },
    {
        &self.last_played_file_path
    }

    /// Pause the player, keeping the session's resources.
    ///
    /// Unless the engine is playing this is a no-op: status and session
    /// stay untouched and no device operation is asked for.
    pub fn pause(&mut self) -> (op: DeviceOp)
        requires
            old(self).wf(),
        ensures
            (final(self)@, op@) == spec_pause(old(self)@),
            final(self).wf(),
    {
        match self.status {
            PlayerStatus::Playing => {
                self.status = PlayerStatus::Paused;
                DeviceOp::Pause
            },
            _ => DeviceOp::Idle,
        }
    }

    /// Resume the paused player.
    ///
    /// Unless the engine is paused this is a no-op: status and session
    /// stay untouched and no device operation is asked for.
    pub fn resume(&mut self) -> (op: DeviceOp)
        requires
            old(self).wf(),
        ensures
            (final(self)@, op@) == spec_resume(old(self)@),
            final(self).wf(),
    {
        match self.status {
            PlayerStatus::Paused => {
                self.status = PlayerStatus::Playing;
                DeviceOp::Resume
            },
            _ => DeviceOp::Idle,
        }
    }

    /// Stop the player and release the held session.
    ///
    /// When the engine is already stopped this is a no-op: nothing
    /// changes and no device operation is asked for.
    pub fn stop(&mut self) -> (op: DeviceOp)
        requires
            old(self).wf(),
        ensures
            (final(self)@, op@) == spec_stop(old(self)@),
            final(self).wf(),
    {
        match self.status {
            PlayerStatus::Stopped => DeviceOp::Idle,
            _ => {
                self.status = PlayerStatus::Stopped;
                self.session = None;
                DeviceOp::Stop
            },
        }
    }

    /// The caller reports that the directed playback of `path` was
    /// loaded into the output device and rendering began. Any previous
    /// session was replaced wholesale.
    pub fn on_playback_started(&mut self, path: &String)
        requires
            old(self).wf(),
        ensures
            final(self)@ == (PlayerView {
                status: PlayerStatus::Playing,
                session: Some(path@),
                ..old(self)@
            }),
            final(self).wf(),
    {
        self.session = Some(AudioSession { file_path: path.clone() });
        self.status = PlayerStatus::Playing;
    }

    /// The caller reports that the directed playback could not be opened
    /// or decoded. The error is recoverable: the engine falls back to an
    /// idle status, holds no half-constructed session, and keeps
    /// servicing commands.
    pub fn on_playback_failed(&mut self)
        requires
            old(self).wf(),
        ensures
            final(self)@ == (PlayerView {
                status: PlayerStatus::Stopped,
                session: None,
                ..old(self)@
            }),
            final(self).wf(),
    {
        self.session = None;
        self.status = PlayerStatus::Stopped;
    }

    /// Look up the track after the last played one and enqueue a play
    /// command for it through the action channel. Reports whether a
    /// command was enqueued: nothing is enqueued when nothing was ever
    /// played or the playlist yields no next track.
    pub fn play_next(&self, chan: &mut ActionChannel) -> (r: bool)
        requires
            self.wf(),
        ensures
            match self@.last_played {
                None => !r && final(chan)@ == old(chan)@,
                Some(p) => match spec_next_of(self@.playlist.tracks, p) {
                    None => !r && final(chan)@ == old(chan)@,
                    Some(j) => r && final(chan)@ == old(chan)@.push(
                        PlayActionView::Play(self@.playlist.tracks[j].file_path),
                    ),
                },
            },
    {
        match &self.last_played_file_path {
            None => false,
            Some(p) => {
                match self.playlist.next_of_path(p) {
                    None => false,
                    Some(j) => {
                        match self.playlist.music_at(j) {
                            None => false,
                            Some(m) => {
                                chan.send(PlayAction::Play(m.file_path));
                                true
                            },
                        }
                    },
                }
            },
        }
    }

    /// Service one command: act on the engine's own state and say which
    /// device operation the caller must perform and whether the dispatch
    /// loop ends.
    ///
    /// For a play command, `info` is what the file system shows at the
    /// command's path (so an absent track can be registered first); it is
    /// ignored for every other command.
    pub fn handle_action(&mut self, action: &PlayAction, info: &PathInfo) -> (r: StepOutcome)
        requires
            old(self).wf(),
        ensures
            final(self).wf(),
            match action@ {
                PlayActionView::Play(p) => {
                    &&& final(self)@.status == old(self)@.status
                    &&& final(self)@.last_played == old(self)@.last_played
                    &&& final(self)@.session == old(self)@.session
                    &&& final(self)@.play_mode == old(self)@.play_mode
                    &&& final(self)@.playlist.name == old(self)@.playlist.name
                    &&& final(self)@.playlist.tracks == (if contains_path(
                        old(self)@.playlist.tracks,
                        p,
                    ) {
                        old(self)@.playlist.tracks
                    } else {
                        match info {
                            PathInfo::Missing => old(self)@.playlist.tracks,
                            PathInfo::SingleFile => add_paths(old(self)@.playlist.tracks, seq![p]),
                            PathInfo::Directory(entries) => add_paths(
                                old(self)@.playlist.tracks,
                                entries.deep_view(),
                            ),
                        }
                    })
                    &&& r.op@ == DeviceOpView::Start(p)
                    &&& !r.exit
                },
                PlayActionView::Pause => (final(self)@, r.op@) == spec_pause(old(self)@)
                    && !r.exit,
                PlayActionView::Resume => (final(self)@, r.op@) == spec_resume(old(self)@)
                    && !r.exit,
                PlayActionView::Stop => (final(self)@, r.op@) == spec_stop(old(self)@) && !r.exit,
                PlayActionView::Exit => (final(self)@, r.op@) == spec_stop(old(self)@) && r.exit,
            },
    {
        match action {
            PlayAction::Play(p) => {
                // Register the track first when it is absent from the playlist.
                if !self.playlist.contains(p) {
                    let _added = self.playlist.add_music_by_path(p, info);
                }
                StepOutcome { op: DeviceOp::Start(p.clone()), exit: false }
            },
            PlayAction::Pause => StepOutcome { op: self.pause(), exit: false },
            PlayAction::Resume => StepOutcome { op: self.resume(), exit: false },
            PlayAction::Stop => StepOutcome { op: self.stop(), exit: false },
            PlayAction::Exit => StepOutcome { op: self.stop(), exit: true },
        }
    }

    /// The caller reports that the current track finished rendering to
    /// completion (not via an explicit stop). The engine records it as
    /// last played, drops the spent session, becomes idle, and consults
    /// its running mode:
    ///
    /// * repeat-playlist enqueues a play command for the next track
    ///   through the action channel, or stays idle when none is found;
    /// * repeat-single re-enqueues the finished track;
    /// * random is not a supported capability and enqueues nothing.
    pub fn on_track_finished(&mut self, chan: &mut ActionChannel) -> (r: AdvanceOutcome)
        requires
            old(self).wf(),
            old(self)@.status == PlayerStatus::Playing,
        ensures
            final(self).wf(),
            ({
                let finished = old(self)@.session.unwrap();
                &&& final(self)@ == (PlayerView {
                    status: PlayerStatus::Stopped,
                    session: None,
                    last_played: Some(finished),
                    ..old(self)@
                })
                &&& match old(self)@.play_mode {
                    PlayMode::RepeatPlaylist => match spec_next_of(
                        old(self)@.playlist.tracks,
                        finished,
                    ) {
                        Some(j) => r == AdvanceOutcome::Enqueued && final(chan)@ == old(chan)@.push(
                            PlayActionView::Play(old(self)@.playlist.tracks[j].file_path),
                        ),
                        None => r == AdvanceOutcome::NoNext && final(chan)@ == old(chan)@,
                    },
                    PlayMode::RepeatSingle => r == AdvanceOutcome::Enqueued && final(chan)@
                        == old(chan)@.push(PlayActionView::Play(finished)),
                    PlayMode::Random => r == AdvanceOutcome::NotSupported && final(chan)@
                        == old(chan)@,
                }
            }),
    {
        let finished: String = match &self.session {
            Some(s) => s.file_path.clone(),
            None => unreached(),
        };
        self.session = None;
        self.status = PlayerStatus::Stopped;
        self.last_played_file_path = Some(finished.clone());
        match self.play_mode {
            PlayMode::RepeatPlaylist => {
                if self.play_next(chan) {
                    AdvanceOutcome::Enqueued
                } else {
                    AdvanceOutcome::NoNext
                }
            },
            PlayMode::RepeatSingle => {
                chan.send(PlayAction::Play(finished));
                AdvanceOutcome::Enqueued
            },
            PlayMode::Random => AdvanceOutcome::NotSupported,
        }
    }
}

} // verus!
