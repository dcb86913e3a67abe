//! Error taxonomy for identifier resolution and aggregation.
//!
//! Components below the aggregator keep "not found" distinct from
//! "backend unreachable"; only the aggregator may collapse the two into a
//! coarser `CommandError` for presentation.

use vstd::prelude::*;

verus! {

/// Failure of the identity provider step.
#[derive(Debug, PartialEq, Eq, Structural, Clone, Copy)]
pub enum IdentityError {
    /// Transport or HTTP failure reaching the provider.
    Unavailable,
    /// The provider answered with an empty result list.
    NotFound,
}

/// Failure of a relational-store read.
#[derive(Debug, PartialEq, Eq, Structural, Clone, Copy)]
pub enum StoreError {
    /// The driver reported that no row matched the key.
    PlayerNotFound,
    /// Any other storage failure.
    StoreUnavailable,
}

/// Failure of the live session service step.
#[derive(Debug, PartialEq, Eq, Structural, Clone, Copy)]
pub enum LiveError {
    /// The service answered, but not with a successful status or a readable body.
    PlayerNotFound,
    /// The service could not be reached at all.
    ServiceUnavailable,
}

/// The one error type surfaced to the front-end.
#[derive(Debug, PartialEq, Eq, Structural, Clone, Copy)]
pub enum CommandError {
    /// The supplied identifier does not have the `<tag>:<hex>` shape.
    InvalidIdentifierFormat,
    /// Identifier parsing or identity resolution failed; the caller is not
    /// told which step it was.
    UpstreamUnavailable,
    /// A backend confirmed that no such player exists.
    PlayerNotFound,
    /// The live session service could not be reached.
    ServiceUnavailable,
}

/// The message each `CommandError` variant renders as.
///
/// Malformed identifiers and identity failures read the same on purpose:
/// the front-end contract does not tell the user which upstream step failed.
pub open spec fn message_seq(e: CommandError) -> Seq<char> {
    match e {
        CommandError::InvalidIdentifierFormat => "There was a problem fetching this player"@,
        CommandError::UpstreamUnavailable => "There was a problem fetching this player"@,
        CommandError::PlayerNotFound => "This player does not exist"@,
        CommandError::ServiceUnavailable => "There was a problem reaching the server"@,
    }
}

/// "No such player" and "server unreachable" always render as different
/// messages, so the front-end can tell the two live-view failures apart.
pub proof fn lemma_live_failures_render_differently()
    ensures
        message_seq(CommandError::PlayerNotFound) != message_seq(CommandError::ServiceUnavailable),
{
    reveal_strlit("This player does not exist");
    reveal_strlit("There was a problem reaching the server");
    assert(message_seq(CommandError::PlayerNotFound).len() != message_seq(
        CommandError::ServiceUnavailable,
    ).len());
}

/// The one human-readable message for a `CommandError`.
pub fn message(e: &CommandError) -> (r: &'static str)
    ensures
        r@ == message_seq(*e),
{
    match e {
        CommandError::InvalidIdentifierFormat => "There was a problem fetching this player",
        CommandError::UpstreamUnavailable => "There was a problem fetching this player",
        CommandError::PlayerNotFound => "This player does not exist",
        CommandError::ServiceUnavailable => "There was a problem reaching the server",
    }
}

} // verus!
