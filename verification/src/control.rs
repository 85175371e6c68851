//! The control surface contract: validation of inbound requests and the
//! status codes reported back.
//!
//! The surface is fire and forget: a caller learns whether its request
//! was valid and enqueued, never the eventual playback outcome.

use vstd::prelude::*;

use crate::channel::{PlayAction, PlayActionView};

verus! {

/// Why a control request was rejected before reaching the engine.
#[derive(Clone, Copy, Debug, PartialEq, Eq, Structural)]
pub enum RequestError {
    /// The play request's required `filePath` parameter was missing or
    /// empty.
    MissingFilePath,
}

/// Validate a play request and build the command to enqueue. The
/// `filePath` parameter is required and must be non-empty; otherwise the
/// request is a client error and never reaches the engine.
pub fn parse_play_request(file_path: &Option<String>) -> (r: Result<PlayAction, RequestError>)
    ensures
        match file_path {
            Some(p) => if p@.len() > 0 {
                r matches Ok(a) && a@ == PlayActionView::Play(p@)
            } else {
                r == Err::<PlayAction, RequestError>(RequestError::MissingFilePath)
            },
            None => r == Err::<PlayAction, RequestError>(RequestError::MissingFilePath),
        },
{
    match file_path {
        Some(p) => {
            if p.as_str().is_empty() {
                Err(RequestError::MissingFilePath)
            } else {
                Ok(PlayAction::Play(p.clone()))
            }
        },
        None => Err(RequestError::MissingFilePath),
    }
}

/// HTTP status reported for a play request: client error when the
/// request was invalid, server error when enqueueing failed, success
/// otherwise.
pub fn play_status_code(request_valid: bool, enqueued: bool) -> (r: u16)
    ensures
        r == (if !request_valid {
            400u16
        } else if enqueued {
            200u16
        } else {
            500u16
        }),
{
    if !request_valid {
        400
    } else if enqueued {
        200
    } else {
        500
    }
}

/// HTTP status reported for a pause request: server error when
/// enqueueing failed, success otherwise.
pub fn pause_status_code(enqueued: bool) -> (r: u16)
    ensures
        r == (if enqueued {
            200u16
        } else {
            500u16
        }),
{
    if enqueued {
        200
    } else {
        500
    }
}

} // verus!
