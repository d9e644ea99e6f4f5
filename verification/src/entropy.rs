//! The random draws a record is assembled from.
//!
//! Every function here only consumes entropy: each contract states no more
//! than what holds of every possible outcome, and the verified callers do
//! the rest with the drawn values as plain arguments.

use fake::faker::boolean::raw::Boolean;
use fake::faker::internet::raw::Password;
use fake::faker::name::raw::{FirstName, LastName};
use fake::faker::phone_number::raw::CellNumber;
use fake::locales::EN;
use fake::Fake;
use vstd::prelude::*;

verus! {

/// Relies on fake's `FirstName` faker for the EN locale: it picks one
/// entry of a fixed corpus of non-empty first names.
#[verifier::external_body]
pub(crate) fn draw_first_name() -> (r: String)
    ensures
        r@.len() > 0,
{
    FirstName(EN).fake()
}

/// Relies on fake's `LastName` faker for the EN locale: it picks one
/// entry of a fixed corpus of non-empty last names.
#[verifier::external_body]
pub(crate) fn draw_last_name() -> (r: String)
    ensures
        r@.len() > 0,
{
    LastName(EN).fake()
}

/// Relies on fake's `Boolean` faker: it draws a weight below 100 and
/// returns whether it fell under `ratio`, so the result is `true` with
/// probability `ratio` per cent. Nothing is promised of one draw.
#[verifier::external_body]
pub(crate) fn draw_boolean(ratio: u8) -> bool {
    Boolean(EN, ratio).fake()
}

/// Relies on fake's `Password` faker for the EN locale: it draws a length
/// uniformly from `lo..hi` and builds a string of exactly that many
/// characters from a fixed non-empty character set. The draw panics on an
/// empty range, so `lo < hi` is required.
#[verifier::external_body]
pub(crate) fn draw_password(lo: usize, hi: usize) -> (r: String)
    requires
        lo < hi,
    ensures
        lo <= r@.len() < hi,
{
    Password(EN, lo..hi).fake()
}

/// Relies on fake's `CellNumber` faker for the EN locale: it picks one of
/// a fixed list of non-empty format templates and substitutes a digit for
/// each placeholder, one character per template character.
#[verifier::external_body]
pub(crate) fn draw_phone_number() -> (r: String)
    ensures
        r@.len() > 0,
{
    CellNumber(EN).fake()
}

/// Relies on rand's `random`: one byte drawn from the standard uniform
/// distribution. Nothing is promised of the draw.
#[verifier::external_body]
pub(crate) fn draw_byte() -> u8 {
    rand::random::<u8>()
}

} // verus!
