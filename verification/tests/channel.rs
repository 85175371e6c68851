use mpax::channel::{ActionChannel, PlayAction};

#[test]
fn commands_leave_in_submission_order() {
    let mut chan = ActionChannel::new();
    assert!(chan.is_empty());
    chan.send(PlayAction::Play(String::from("/m/a.mp3")));
    chan.send(PlayAction::Pause);
    chan.send(PlayAction::Resume);
    assert_eq!(chan.len(), 3);
    assert!(matches!(chan.recv(), Some(PlayAction::Play(ref p)) if p.as_str() == "/m/a.mp3"));
    assert!(matches!(chan.recv(), Some(PlayAction::Pause)));
    assert!(matches!(chan.recv(), Some(PlayAction::Resume)));
    assert!(matches!(chan.recv(), None));
    assert!(chan.is_empty());
}

#[test]
fn receive_on_empty_queue_is_none() {
    let mut chan = ActionChannel::new();
    assert!(chan.recv().is_none());
    assert_eq!(chan.len(), 0);
}

#[test]
fn earlier_user_commands_overtake_resubmissions() {
    // A stop enqueued by a user before an auto-advance resubmission is
    // serviced first: the queue applies no priority.
    let mut chan = ActionChannel::new();
    chan.send(PlayAction::Stop);
    chan.send(PlayAction::Play(String::from("/m/b.mp3")));
    assert!(matches!(chan.recv(), Some(PlayAction::Stop)));
    assert!(matches!(chan.recv(), Some(PlayAction::Play(_))));
}

#[test]
fn clone_preserves_the_command() {
    let a = PlayAction::Play(String::from("/m/a.mp3"));
    let b = a.clone();
    assert!(matches!(b, PlayAction::Play(ref p) if p.as_str() == "/m/a.mp3"));
    assert!(matches!(PlayAction::Exit.clone(), PlayAction::Exit));
}
