//! The identity provider step: the shape of a provider response and its
//! resolution into a profile.
//!
//! The transport itself lives outside the library; it hands in a
//! `ProviderOutcome` and this module decides what it means.

use crate::errors::IdentityError;
use vstd::prelude::*;

verus! {

/// One entry of the provider's response list.
pub struct SteamResponsePlayer {
    pub steamid: String,
    pub personaname: String,
    pub avatarfull: String,
}

/// The inner object of the provider's response.
pub struct SteamResponseInner {
    pub players: Vec<SteamResponsePlayer>,
}

/// The decoded body of a successful provider response.
pub struct SteamResponse {
    pub response: SteamResponseInner,
}

/// A resolved profile: the provider's own canonical id, the display name
/// and the avatar address. The canonical id is decorative only and is never
/// used as a store key.
pub struct SteamUser {
    pub id: String,
    pub name: String,
    pub avatar: String,
}

impl SteamUser {
    /// Builds the profile from the first entry of a provider response.
    /// The response must hold at least one entry; `resolve` checks that
    /// before calling here.
    pub fn new(resp: SteamResponse) -> (r: SteamUser)
        requires
            resp.response.players@.len() > 0,
        ensures
            r.id == resp.response.players@[0].steamid,
            r.name == resp.response.players@[0].personaname,
            r.avatar == resp.response.players@[0].avatarfull,
    {
        SteamUser {
            id: resp.response.players[0].steamid.clone(),
            name: resp.response.players[0].personaname.clone(),
            avatar: resp.response.players[0].avatarfull.clone(),
        }
    }
}

/// What the identity provider answered: a decoded response body, or a
/// transport or HTTP failure.
pub enum ProviderOutcome {
    Response(SteamResponse),
    TransportFailure,
}

/// Whether a provider answer carries at least one profile.
pub open spec fn provider_has_profile(o: ProviderOutcome) -> bool {
    o matches ProviderOutcome::Response(resp) && resp.response.players@.len() > 0
}

/// The first profile of a provider answer.
pub open spec fn provider_profile(o: ProviderOutcome) -> SteamResponsePlayer
    recommends
        provider_has_profile(o),
{
    match o {
        ProviderOutcome::Response(resp) => resp.response.players@[0],
        ProviderOutcome::TransportFailure => arbitrary(),
    }
}

/// Resolves a provider answer into a profile.
///
/// An empty player list is `NotFound`; a transport failure is
/// `Unavailable`; the two are never conflated here.
pub fn resolve(outcome: ProviderOutcome) -> (r: Result<SteamUser, IdentityError>)
    ensures
        outcome matches ProviderOutcome::Response(resp) ==> ((resp.response.players@.len() > 0
            ==> (r matches Ok(u) && u.id == resp.response.players@[0].steamid && u.name
            == resp.response.players@[0].personaname && u.avatar
            == resp.response.players@[0].avatarfull)) && (resp.response.players@.len() == 0
            ==> (r matches Err(e) && e is NotFound))),
        (outcome is TransportFailure) ==> (r matches Err(e) && e is Unavailable),
{
    match outcome {
        ProviderOutcome::Response(resp) => {
            if resp.response.players.len() == 0 {
                Err(IdentityError::NotFound)
            } else {
                Ok(SteamUser::new(resp))
            }
        },
        ProviderOutcome::TransportFailure => Err(IdentityError::Unavailable),
    }
}

} // verus!
