//! The live session service step: the shape of a session snapshot and the
//! reading of the service's answer.
//!
//! The transport itself lives outside the library; it hands in a
//! `LiveOutcome` and this module decides what it means. The service does
//! not distinguish "offline" from "unknown" at the transport layer: any
//! status other than 200, and any unreadable body, is "no such player",
//! while a transport failure is reported distinctly.

use crate::errors::LiveError;
use vstd::prelude::*;

verus! {

/// The three balances of an in-session player.
pub struct ServerPlayerMoney {
    pub clean: i32,
    pub dirty: i32,
    pub bank: i32,
}

/// A session snapshot: the live state of a player on the running server.
/// Valid only while the originating session is live; never persisted.
pub struct ServerPlayer {
    pub id: String,
    pub active: bool,
    pub name: String,
    pub staff: i16,
    pub money: ServerPlayerMoney,
    pub items: Vec<(String, i64)>,
    pub weapons: Vec<(String, String)>,
    pub ammo: Vec<(String, i64)>,
}

/// What the live session service answered: a status code with the decoded
/// body where the payload could be read, or a transport failure.
pub enum LiveOutcome {
    Response { status: u16, body: Option<ServerPlayer> },
    TransportFailure,
}

/// Reads the answer of the live session service.
///
/// Only a 200 response with a readable body is a snapshot; every other
/// response is `PlayerNotFound`, and a transport failure is
/// `ServiceUnavailable` — the two are never conflated here.
pub fn fetch_session(outcome: LiveOutcome) -> (r: Result<ServerPlayer, LiveError>)
    ensures
        outcome matches LiveOutcome::Response { status, body } ==> ((status == 200 && body is Some
            ==> (r matches Ok(q) && q == body->0)) && (status != 200 || body is None
            ==> (r matches Err(e) && e is PlayerNotFound))),
        (outcome is TransportFailure) ==> (r matches Err(e) && e is ServiceUnavailable),
{
    match outcome {
        LiveOutcome::Response { status, body } => {
            if status == 200 {
                match body {
                    Some(p) => Ok(p),
                    None => Err(LiveError::PlayerNotFound),
                }
            } else {
                Err(LiveError::PlayerNotFound)
            }
        },
        LiveOutcome::TransportFailure => Err(LiveError::ServiceUnavailable),
    }
}

} // verus!
