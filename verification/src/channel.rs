//! The ordered command queue into the player engine.
//!
//! Commands are serviced strictly in submission order. The engine's own
//! auto-advance resubmissions are ordinary entries in the same queue, so a
//! command a user enqueued earlier is never overtaken by them.

use vstd::prelude::*;

verus! {

/// A command for the player engine.
pub enum PlayAction {
    /// Play the audio file at the given file path.
    Play(String),
    /// Pause the play process.
    Pause,
    /// Resume the play process.
    Resume,
    /// Stop the player.
    Stop,
    /// Stop the player and end the dispatch loop. Only used when the
    /// daemon is going to quit gracefully.
    Exit,
}

/// Mathematical value of a [`PlayAction`].
pub enum PlayActionView {
    Play(Seq<char>),
    Pause,
    Resume,
    Stop,
    Exit,
}

impl View for PlayAction {
    type V = PlayActionView;

    open spec fn view(&self) -> PlayActionView {
        match self {
            PlayAction::Play(p) => PlayActionView::Play(p@),
            PlayAction::Pause => PlayActionView::Pause,
            PlayAction::Resume => PlayActionView::Resume,
            PlayAction::Stop => PlayActionView::Stop,
            PlayAction::Exit => PlayActionView::Exit,
        }
    }
}

impl DeepView for PlayAction {
    type V = PlayActionView;

    open spec fn deep_view(&self) -> PlayActionView {
        self.view()
    }
}

impl Clone for PlayAction {
    fn clone(&self) -> (r: Self)
        ensures
            r@ == self@,
    {
        match self {
            PlayAction::Play(p) => PlayAction::Play(p.clone()),
            PlayAction::Pause => PlayAction::Pause,
            PlayAction::Resume => PlayAction::Resume,
            PlayAction::Stop => PlayAction::Stop,
            PlayAction::Exit => PlayAction::Exit,
        }
    }
}

/// The FIFO queue carrying commands into the engine. Producers append at
/// the back; the single consumer takes from the front, so commands leave
/// in exactly the order they were submitted.
pub struct ActionChannel {
    queue: Vec<PlayAction>,
}

impl View for ActionChannel {
    type V = Seq<PlayActionView>;

    closed spec fn view(&self) -> Seq<PlayActionView> {
        self.queue.deep_view()
    }
}

impl ActionChannel {
    /// An empty queue.
    pub fn new() -> (r: ActionChannel)
        ensures
            r@ == Seq::<PlayActionView>::empty(),
    {
        let r = ActionChannel { queue: Vec::new() };
        proof {
            assert(r@ =~= Seq::<PlayActionView>::empty());
        }
        r
    }

    /// Append a command at the back of the queue.
    pub fn send(&mut self, action: PlayAction)
        ensures
            final(self)@ == old(self)@.push(action@),
    {
        let ghost pre = self@;
        let ghost av = action@;
        self.queue.push(action);
        proof {
            assert(self@ =~= pre.push(av));
        }
    }

    /// Take the oldest command, or `None` when the queue is empty.
    pub fn recv(&mut self) -> (r: Option<PlayAction>)
        ensures
            match r {
                None => old(self)@.len() == 0 && final(self)@ == old(self)@,
                Some(a) => {
                    &&& old(self)@.len() > 0
                    &&& a@ == old(self)@[0]
                    &&& final(self)@ == old(self)@.drop_first()
                },
            },
    {
        let ghost pre = self@;
        if self.queue.len() == 0 {
            None
        } else {
            let a = self.queue.remove(0);
            proof {
                assert(self@ =~= pre.drop_first());
            }
            Some(a)
        }
    }

    /// How many commands are waiting.
    pub fn len(&self) -> (r: usize)
        ensures
            r == self@.len(),
    {
        self.queue.len()
    }

    /// Whether no command is waiting.
    pub fn is_empty(&self) -> (r: bool)
        ensures
            r == (self@.len() == 0),
    {
        self.queue.is_empty()
    }
}

} // verus!
