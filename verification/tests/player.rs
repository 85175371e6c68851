use mpax::channel::{ActionChannel, PlayAction};
use mpax::player::{
    AdvanceOutcome, AudioSource, AudioSourceError, DeviceOp, PlayMode, Player, PlayerStatus,
};
use mpax::playlist::PathInfo;

fn file_info() -> PathInfo {
    PathInfo::SingleFile
}

#[test]
fn new_player_is_initial() {
    let p = Player::new();
    assert_eq!(p.status(), PlayerStatus::Initial);
    assert_eq!(p.play_mode(), PlayMode::RepeatPlaylist);
    assert!(p.session().is_none());
    assert!(p.last_played_file_path().is_none());
    assert_eq!(p.playlist().name(), "default");
}

#[test]
fn pause_is_noop_unless_playing() {
    let mut p = Player::new();
    // Initial
    assert!(matches!(p.pause(), DeviceOp::Idle));
    assert_eq!(p.status(), PlayerStatus::Initial);
    assert!(p.session().is_none());
    // Stopped
    p.handle_action(&PlayAction::Play(String::from("/m/a.mp3")), &file_info());
    p.on_playback_started(&String::from("/m/a.mp3"));
    p.stop();
    assert!(matches!(p.pause(), DeviceOp::Idle));
    assert_eq!(p.status(), PlayerStatus::Stopped);
    // Playing: pause suspends, session kept
    p.on_playback_started(&String::from("/m/a.mp3"));
    assert!(matches!(p.pause(), DeviceOp::Pause));
    assert_eq!(p.status(), PlayerStatus::Paused);
    assert!(p.session().is_some());
    // Paused: a second pause changes nothing
    assert!(matches!(p.pause(), DeviceOp::Idle));
    assert_eq!(p.status(), PlayerStatus::Paused);
    assert!(p.session().is_some());
}

#[test]
fn resume_is_noop_unless_paused() {
    let mut p = Player::new();
    assert!(matches!(p.resume(), DeviceOp::Idle));
    assert_eq!(p.status(), PlayerStatus::Initial);
    p.on_playback_started(&String::from("/m/a.mp3"));
    // Playing: resume changes nothing
    assert!(matches!(p.resume(), DeviceOp::Idle));
    assert_eq!(p.status(), PlayerStatus::Playing);
    // Paused: resume wakes the player
    p.pause();
    assert!(matches!(p.resume(), DeviceOp::Resume));
    assert_eq!(p.status(), PlayerStatus::Playing);
    assert!(p.session().is_some());
}

#[test]
fn stop_when_stopped_performs_no_device_operation() {
    let mut p = Player::new();
    p.on_playback_started(&String::from("/m/a.mp3"));
    assert!(matches!(p.stop(), DeviceOp::Stop));
    assert_eq!(p.status(), PlayerStatus::Stopped);
    assert!(p.session().is_none());
    // already stopped: nothing happens
    assert!(matches!(p.stop(), DeviceOp::Idle));
    assert_eq!(p.status(), PlayerStatus::Stopped);
}

#[test]
fn play_pause_resume_stop_sequence() {
    let mut p = Player::new();
    let path = String::from("/m/a.mp3");
    let mut pause_ops = 0;
    let mut resume_ops = 0;

    let step = p.handle_action(&PlayAction::Play(path.clone()), &file_info());
    assert!(!step.exit);
    let started = match step.op {
        DeviceOp::Start(target) => {
            assert_eq!(target, "/m/a.mp3");
            true
        }
        _ => false,
    };
    assert!(started);
    p.on_playback_started(&path);
    assert_eq!(p.status(), PlayerStatus::Playing);

    let step = p.handle_action(&PlayAction::Pause, &PathInfo::Missing);
    if matches!(step.op, DeviceOp::Pause) {
        pause_ops += 1;
    }
    assert_eq!(p.status(), PlayerStatus::Paused);

    let step = p.handle_action(&PlayAction::Resume, &PathInfo::Missing);
    if matches!(step.op, DeviceOp::Resume) {
        resume_ops += 1;
    }
    assert_eq!(p.status(), PlayerStatus::Playing);

    let step = p.handle_action(&PlayAction::Stop, &PathInfo::Missing);
    assert!(matches!(step.op, DeviceOp::Stop));
    assert!(!step.exit);

    assert_eq!(p.status(), PlayerStatus::Stopped);
    assert_eq!(pause_ops, 1);
    assert_eq!(resume_ops, 1);
}

#[test]
fn exit_stops_and_ends_the_loop() {
    let mut p = Player::new();
    p.on_playback_started(&String::from("/m/a.mp3"));
    let step = p.handle_action(&PlayAction::Exit, &PathInfo::Missing);
    assert!(step.exit);
    assert!(matches!(step.op, DeviceOp::Stop));
    assert_eq!(p.status(), PlayerStatus::Stopped);
    assert!(p.session().is_none());
}

#[test]
fn play_registers_absent_track() {
    let mut p = Player::new();
    let path = String::from("/m/a.mp3");
    p.handle_action(&PlayAction::Play(path.clone()), &file_info());
    assert!(p.playlist().contains(&path));
    // playing it again does not duplicate the entry
    p.handle_action(&PlayAction::Play(path.clone()), &file_info());
    assert!(p.playlist().music_at(1).is_none());
}

#[test]
fn repeat_playlist_advances_through_the_channel() {
    let mut p = Player::new();
    let mut chan = ActionChannel::new();
    let dir = String::from("/music");
    let entries = vec![String::from("/music/a.mp3"), String::from("/music/b.mp3")];
    p.handle_action(&PlayAction::Play(dir), &PathInfo::Directory(entries));
    // the directory path itself cannot be rendered
    p.on_playback_failed();
    assert_eq!(p.status(), PlayerStatus::Stopped);

    let a = String::from("/music/a.mp3");
    p.handle_action(&PlayAction::Play(a.clone()), &file_info());
    p.on_playback_started(&a);
    let outcome = p.on_track_finished(&mut chan);
    assert_eq!(outcome, AdvanceOutcome::Enqueued);
    assert_eq!(p.status(), PlayerStatus::Stopped);
    // the follow-up is a queue entry, not a direct call
    assert_eq!(chan.len(), 1);
    let next = chan.recv().unwrap();
    assert!(matches!(next, PlayAction::Play(ref q) if q.as_str() == "/music/b.mp3"));
}

#[test]
fn repeat_playlist_wraps_from_the_last_track() {
    let mut p = Player::new();
    let mut chan = ActionChannel::new();
    let entries = vec![String::from("/music/a.mp3"), String::from("/music/b.mp3")];
    p.handle_action(
        &PlayAction::Play(String::from("/music")),
        &PathInfo::Directory(entries),
    );
    p.on_playback_failed();
    let b = String::from("/music/b.mp3");
    p.handle_action(&PlayAction::Play(b.clone()), &file_info());
    p.on_playback_started(&b);
    assert_eq!(p.on_track_finished(&mut chan), AdvanceOutcome::Enqueued);
    let next = chan.recv().unwrap();
    assert!(matches!(next, PlayAction::Play(ref q) if q.as_str() == "/music/a.mp3"));
}

#[test]
fn repeat_single_reenqueues_the_same_track() {
    let mut p = Player::new();
    let mut chan = ActionChannel::new();
    p.set_play_mode(PlayMode::RepeatSingle);
    let a = String::from("/m/a.mp3");
    p.handle_action(&PlayAction::Play(a.clone()), &file_info());
    p.on_playback_started(&a);
    assert_eq!(p.on_track_finished(&mut chan), AdvanceOutcome::Enqueued);
    let next = chan.recv().unwrap();
    assert!(matches!(next, PlayAction::Play(ref q) if q.as_str() == "/m/a.mp3"));
}

#[test]
fn random_mode_is_not_supported() {
    let mut p = Player::new();
    let mut chan = ActionChannel::new();
    p.set_play_mode(PlayMode::Random);
    let a = String::from("/m/a.mp3");
    p.handle_action(&PlayAction::Play(a.clone()), &file_info());
    p.on_playback_started(&a);
    assert_eq!(p.on_track_finished(&mut chan), AdvanceOutcome::NotSupported);
    assert!(chan.is_empty());
}

#[test]
fn play_next_without_history_enqueues_nothing() {
    let p = Player::new();
    let mut chan = ActionChannel::new();
    assert!(!p.play_next(&mut chan));
    assert!(chan.is_empty());
}

#[test]
fn finishing_an_unlisted_track_stays_idle() {
    let mut p = Player::new();
    let mut chan = ActionChannel::new();
    // a track that does not qualify is played but never registered
    let odd = String::from("/m/live.flac");
    p.handle_action(&PlayAction::Play(odd.clone()), &file_info());
    assert!(!p.playlist().contains(&odd));
    p.on_playback_started(&odd);
    assert_eq!(p.on_track_finished(&mut chan), AdvanceOutcome::NoNext);
    assert!(chan.is_empty());
    assert_eq!(p.status(), PlayerStatus::Stopped);
}

#[test]
fn playback_failure_recovers_to_idle() {
    let mut p = Player::new();
    let a = String::from("/m/a.mp3");
    p.handle_action(&PlayAction::Play(a.clone()), &file_info());
    p.on_playback_failed();
    assert_eq!(p.status(), PlayerStatus::Stopped);
    assert!(p.session().is_none());
    // the failed play corrupted nothing: the playlist still has the track
    assert!(p.playlist().contains(&a));
}

#[test]
fn track_finish_records_last_played() {
    let mut p = Player::new();
    let mut chan = ActionChannel::new();
    let a = String::from("/m/a.mp3");
    p.handle_action(&PlayAction::Play(a.clone()), &file_info());
    p.on_playback_started(&a);
    p.on_track_finished(&mut chan);
    assert_eq!(p.last_played_file_path().as_deref(), Some("/m/a.mp3"));
    assert!(p.session().is_none());
}

#[test]
fn audio_source_resolution() {
    let file = AudioSource::File(String::from("/m/a.mp3"));
    assert_eq!(file.resolve().unwrap().as_str(), "/m/a.mp3");
    let net = AudioSource::Network(String::from("http://radio.example/stream"));
    assert_eq!(net.resolve(), Err(AudioSourceError::NotSupported));
}

#[test]
fn session_reports_its_file_path() {
    let mut p = Player::new();
    let a = String::from("/m/a.mp3");
    p.on_playback_started(&a);
    let session = p.session().as_ref().unwrap();
    assert_eq!(session.file_path(), "/m/a.mp3");
}
