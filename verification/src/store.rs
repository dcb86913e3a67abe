//! The relational-store gateway: row types and the reading of driver
//! answers.
//!
//! The driver itself lives outside the library; it hands in a `RowOutcome`
//! or `RowsOutcome` and this module discriminates "no such row" from every
//! other failure — the distinction the aggregator's policy rests on.

use crate::errors::StoreError;
use vstd::prelude::*;

verus! {

/// The economy row of a player, keyed by the raw identifier string.
pub struct User {
    pub id: String,
    pub bank: i32,
    pub clean_money: i32,
    pub dirty_money: i32,
    pub staff: i16,
}

/// One ban record; `active` is false once the ban has been lifted.
pub struct Ban {
    pub id: i32,
    pub expiry: i64,
    pub reason: String,
    pub staff: String,
    pub user: String,
    pub active: bool,
}

/// One warning record.
pub struct Warning {
    pub id: i32,
    pub reason: String,
    pub staff: String,
    pub user: String,
}

/// What a single-row read answered: the row, the driver's own "no rows"
/// answer, or any other storage failure.
pub enum RowOutcome<T> {
    Row(T),
    NoRows,
    Failure,
}

/// What a multi-row read answered: every matching row — legitimately none —
/// or a storage failure.
pub enum RowsOutcome<T> {
    Rows(Vec<T>),
    Failure,
}

/// Reads the answer of the economy-row query.
///
/// "No rows" means the player does not exist; any other failure stays
/// distinct as `StoreUnavailable`.
pub fn get_economy(outcome: RowOutcome<User>) -> (r: Result<User, StoreError>)
    ensures
        outcome matches RowOutcome::Row(u) ==> (r matches Ok(v) && v == u),
        (outcome is NoRows) ==> (r matches Err(e) && e is PlayerNotFound),
        (outcome is Failure) ==> (r matches Err(e) && e is StoreUnavailable),
{
    match outcome {
        RowOutcome::Row(u) => Ok(u),
        RowOutcome::NoRows => Err(StoreError::PlayerNotFound),
        RowOutcome::Failure => Err(StoreError::StoreUnavailable),
    }
}

/// Reads the answer of the inventory query; the same not-found semantics
/// as `get_economy`.
pub fn get_inventory(outcome: RowOutcome<Vec<(String, i64)>>) -> (r: Result<
    Vec<(String, i64)>,
    StoreError,
>)
    ensures
        outcome matches RowOutcome::Row(v) ==> (r matches Ok(w) && w == v),
        (outcome is NoRows) ==> (r matches Err(e) && e is PlayerNotFound),
        (outcome is Failure) ==> (r matches Err(e) && e is StoreUnavailable),
{
    match outcome {
        RowOutcome::Row(v) => Ok(v),
        RowOutcome::NoRows => Err(StoreError::PlayerNotFound),
        RowOutcome::Failure => Err(StoreError::StoreUnavailable),
    }
}

/// Reads the answer of the bans query. An empty list is a valid answer —
/// a clean player — never an error.
pub fn get_bans(outcome: RowsOutcome<Ban>) -> (r: Result<Vec<Ban>, StoreError>)
    ensures
        outcome matches RowsOutcome::Rows(v) ==> (r matches Ok(w) && w == v),
        (outcome is Failure) ==> (r matches Err(e) && e is StoreUnavailable),
{
    match outcome {
        RowsOutcome::Rows(v) => Ok(v),
        RowsOutcome::Failure => Err(StoreError::StoreUnavailable),
    }
}

/// Reads the answer of the warnings query; the same semantics as
/// `get_bans`.
pub fn get_warnings(outcome: RowsOutcome<Warning>) -> (r: Result<Vec<Warning>, StoreError>)
    ensures
        outcome matches RowsOutcome::Rows(v) ==> (r matches Ok(w) && w == v),
        (outcome is Failure) ==> (r matches Err(e) && e is StoreUnavailable),
{
    match outcome {
        RowsOutcome::Rows(v) => Ok(v),
        RowsOutcome::Failure => Err(StoreError::StoreUnavailable),
    }
}

} // verus!
