//! Data transfer model: the request shape clients use to control the
//! player, and its mapping to the engine's own commands.

use vstd::prelude::*;

use crate::channel::PlayAction;

verus! {

/// Operations defined for clients to use in a request.
pub enum RequestAction {
    /// Request to play an audio file with file path.
    Play(String),
    /// Request to pause the player.
    Pause,
    /// Request to resume the play process.
    Resume,
    /// Request to stop the player.
    Stop,
    /// Request to stop the player and let the server exit.
    Exit,
}

/// Mathematical value of a [`RequestAction`].
pub enum RequestActionView {
    Play(Seq<char>),
    Pause,
    Resume,
    Stop,
    Exit,
}

impl View for RequestAction {
    type V = RequestActionView;

    open spec fn view(&self) -> RequestActionView {
        match self {
            RequestAction::Play(p) => RequestActionView::Play(p@),
            RequestAction::Pause => RequestActionView::Pause,
            RequestAction::Resume => RequestActionView::Resume,
            RequestAction::Stop => RequestActionView::Stop,
            RequestAction::Exit => RequestActionView::Exit,
        }
    }
}

impl Clone for RequestAction {
    fn clone(&self) -> (r: Self)
        ensures
            r@ == self@,
    {
        match self {
            RequestAction::Play(p) => RequestAction::Play(p.clone()),
            RequestAction::Pause => RequestAction::Pause,
            RequestAction::Resume => RequestAction::Resume,
            RequestAction::Stop => RequestAction::Stop,
            RequestAction::Exit => RequestAction::Exit,
        }
    }
}

impl RequestAction {
    /// The engine command this request stands for.
    pub fn to_play_action(&self) -> (r: PlayAction)
        ensures
            r@ == match self@ {
                RequestActionView::Play(p) => crate::channel::PlayActionView::Play(p),
                RequestActionView::Pause => crate::channel::PlayActionView::Pause,
                RequestActionView::Resume => crate::channel::PlayActionView::Resume,
                RequestActionView::Stop => crate::channel::PlayActionView::Stop,
                RequestActionView::Exit => crate::channel::PlayActionView::Exit,
            },
    {
        match self {
            RequestAction::Play(p) => PlayAction::Play(p.clone()),
            RequestAction::Pause => PlayAction::Pause,
            RequestAction::Resume => PlayAction::Resume,
            RequestAction::Stop => PlayAction::Stop,
            RequestAction::Exit => PlayAction::Exit,
        }
    }
}

/// Model used by a client to send one request to the server side.
pub struct AudioRequestModel {
    action: RequestAction,
}

impl View for AudioRequestModel {
    type V = RequestActionView;

    closed spec fn view(&self) -> RequestActionView {
        self.action@
    }
}

impl AudioRequestModel {
    /// Wrap one request action.
    pub fn new(action: RequestAction) -> (r: AudioRequestModel)
        ensures
            r@ == action@,
    {
        AudioRequestModel { action }
    }

    /// The request's action.
    pub fn action(&self) -> (r: &RequestAction)
        ensures
            r@ == self@,
    {
        &self.action
    }
}

} // verus!
