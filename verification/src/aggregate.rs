//! The aggregator: one entry point per view.
//!
//! Each view is a straight-line pipeline over the answers of the backends,
//! handed in as plain outcome values by the transport layer. The
//! degradation policy lives here and only here: a parse or identity
//! failure collapses to `UpstreamUnavailable`, a store failure on the
//! row that confirms the player collapses to `PlayerNotFound`, and the
//! live view keeps `PlayerNotFound` and `ServiceUnavailable` distinct.

use crate::codec::{valid_steam_identifier, PlatformId};
use crate::errors::{CommandError, LiveError};
use crate::identity::{provider_has_profile, provider_profile, resolve, ProviderOutcome};
use crate::live::{fetch_session, LiveOutcome};
use crate::store::{
    get_bans, get_economy, get_inventory, get_warnings, Ban, RowOutcome, RowsOutcome, User,
    Warning,
};
use crate::views::{
    basic_embed, basic_embed_ok, inventory_embed, inventory_embed_ok, live_embed, live_embed_ok,
    record_embed, record_embed_ok, record_unavailable_embed, record_unavailable_embed_ok, Embed,
};
use vstd::prelude::*;

verus! {

/// The basic lookup view: parse, resolve the identity, read the economy
/// row, and show profile and balances.
pub fn basic_lookup(user: &String, provider: ProviderOutcome, economy: RowOutcome<User>) -> (r:
    Result<Embed, CommandError>)
    ensures
        !valid_steam_identifier(user@) ==> (r matches Err(e) && e is UpstreamUnavailable),
        valid_steam_identifier(user@) && !provider_has_profile(provider) ==> (r matches Err(e)
            && e is UpstreamUnavailable),
        valid_steam_identifier(user@) && provider_has_profile(provider) && (economy is NoRows
            || economy is Failure) ==> (r matches Err(e) && e is PlayerNotFound),
        valid_steam_identifier(user@) && provider_has_profile(provider) ==> (economy matches
            RowOutcome::Row(u) ==> (r matches Ok(e) && basic_embed_ok(
            e,
            provider_profile(provider).personaname@,
            provider_profile(provider).avatarfull@,
            user@,
            u,
        ))),
{
    if let Err(_) = PlatformId::parse(user.as_str()) {
        return Err(CommandError::UpstreamUnavailable);
    }
    let profile = match resolve(provider) {
        Ok(u) => u,
        Err(_) => {
            return Err(CommandError::UpstreamUnavailable);
        },
    };
    let row = match get_economy(economy) {
        Ok(u) => u,
        Err(_) => {
            return Err(CommandError::PlayerNotFound);
        },
    };
    Ok(basic_embed(&profile, user, &row))
}

/// The inventory view: the same prefix as the basic view, then the
/// inventory row instead of the balances.
pub fn inventory_lookup(
    user: &String,
    provider: ProviderOutcome,
    inventory: RowOutcome<Vec<(String, i64)>>,
) -> (r: Result<Embed, CommandError>)
    ensures
        !valid_steam_identifier(user@) ==> (r matches Err(e) && e is UpstreamUnavailable),
        valid_steam_identifier(user@) && !provider_has_profile(provider) ==> (r matches Err(e)
            && e is UpstreamUnavailable),
        valid_steam_identifier(user@) && provider_has_profile(provider) && (inventory is NoRows
            || inventory is Failure) ==> (r matches Err(e) && e is PlayerNotFound),
        valid_steam_identifier(user@) && provider_has_profile(provider) ==> (inventory matches
            RowOutcome::Row(items) ==> (r matches Ok(e) && inventory_embed_ok(
            e,
            provider_profile(provider).personaname@,
            user@,
            items@,
        ))),
{
    if let Err(_) = PlatformId::parse(user.as_str()) {
        return Err(CommandError::UpstreamUnavailable);
    }
    let profile = match resolve(provider) {
        Ok(u) => u,
        Err(_) => {
            return Err(CommandError::UpstreamUnavailable);
        },
    };
    let items = match get_inventory(inventory) {
        Ok(v) => v,
        Err(_) => {
            return Err(CommandError::PlayerNotFound);
        },
    };
    Ok(inventory_embed(&profile, user, &items))
}

/// The record view: the same prefix through the economy row (which only
/// confirms the player exists), then both record queries, joined.
pub fn record_lookup(
    user: &String,
    provider: ProviderOutcome,
    economy: RowOutcome<User>,
    bans: RowsOutcome<Ban>,
    warnings: RowsOutcome<Warning>,
) -> (r: Result<Embed, CommandError>)
    ensures
        !valid_steam_identifier(user@) ==> (r matches Err(e) && e is UpstreamUnavailable),
        valid_steam_identifier(user@) && !provider_has_profile(provider) ==> (r matches Err(e)
            && e is UpstreamUnavailable),
        valid_steam_identifier(user@) && provider_has_profile(provider) && (economy is NoRows
            || economy is Failure) ==> (r matches Err(e) && e is PlayerNotFound),
        valid_steam_identifier(user@) && provider_has_profile(provider) && economy is Row ==> (
        bans matches RowsOutcome::Rows(bs) ==> (warnings matches RowsOutcome::Rows(ws) ==> (
        r matches Ok(e) && record_embed_ok(
            e,
            provider_profile(provider).personaname@,
            provider_profile(provider).avatarfull@,
            user@,
            bs@,
            ws@,
        )))),
        valid_steam_identifier(user@) && provider_has_profile(provider) && economy is Row && (
        bans is Failure || warnings is Failure) ==> (r matches Ok(e)
            && record_unavailable_embed_ok(
            e,
            provider_profile(provider).personaname@,
            provider_profile(provider).avatarfull@,
            user@,
        )),
{
    if let Err(_) = PlatformId::parse(user.as_str()) {
        return Err(CommandError::UpstreamUnavailable);
    }
    let profile = match resolve(provider) {
        Ok(u) => u,
        Err(_) => {
            return Err(CommandError::UpstreamUnavailable);
        },
    };
    if let Err(_) = get_economy(economy) {
        return Err(CommandError::PlayerNotFound);
    }
    let bans_result = get_bans(bans);
    let warnings_result = get_warnings(warnings);
    match (bans_result, warnings_result) {
        (Ok(bs), Ok(ws)) => Ok(record_embed(&profile, user, &bs, &ws)),
        // A failed bans or warnings read presents as a clean record here,
        // deliberately: it conflates a store failure with "no records",
        // which hides real backend failures behind a clean-looking view.
        _ => Ok(record_unavailable_embed(&profile, user)),
    }
}

/// The live view: the session service alone, addressed by numeric id, with
/// no identity-provider or persistent-store step.
pub fn live_lookup(outcome: LiveOutcome) -> (r: Result<Embed, CommandError>)
    ensures
        outcome matches LiveOutcome::Response { status, body } ==> ((status == 200 && body is Some
            ==> (r matches Ok(e) && live_embed_ok(e, body->0))) && (status != 200 || body is None
            ==> (r matches Err(e) && e is PlayerNotFound))),
        (outcome is TransportFailure) ==> (r matches Err(e) && e is ServiceUnavailable),
{
    match fetch_session(outcome) {
        Ok(p) => Ok(live_embed(&p)),
        Err(LiveError::PlayerNotFound) => Err(CommandError::PlayerNotFound),
        Err(LiveError::ServiceUnavailable) => Err(CommandError::ServiceUnavailable),
    }
}

} // verus!
