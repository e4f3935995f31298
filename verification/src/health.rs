//! The two answers that, once in a hundred, are a soggy picture instead.

use vstd::prelude::*;
use rand::RngExt;

verus! {

/// The text that says the service is up.
pub const HEALTH_BANNER: &'static str = "\n_//     _//           _// _//          _//\n_//     _//           _// _//          _//\n_//     _//   _//     _// _//   _//    _//\n_////// _// _/   _//  _// _// _//  _// _/ \n_//     _//_///// _// _// _//_//    _//_/ \n_//     _//_/         _// _// _//  _//    \n_//     _//  _////   _///_///   _//    _//\n        ";

/// Where the root of the service sends its visitors.
pub const ROOT_REDIRECT: &'static str = "https://senddb.dev/";

/// `rand::rng().random_range(1..=100)`: a number from 1 to 100, drawn at
/// random; nothing else is claimed of which.
#[verifier::external_body]
pub(crate) fn roll_percent() -> (roll: u32)
    ensures
        1 <= roll <= 100,
{
    rand::rng().random_range(1..=100u32)
}

/// A roll of 1 (in 100) brings the soggy picture.
pub open spec fn is_soggy(roll: u32) -> bool {
    roll == 1
}

/// The answer to the health check.
#[derive(Clone, Copy, Debug, PartialEq, Eq, Structural)]
pub enum HealthReply {
    /// The soggy picture.
    Soggy,
    /// `HEALTH_BANNER`.
    Banner,
}

/// The answer to the root of the service.
#[derive(Clone, Copy, Debug, PartialEq, Eq, Structural)]
pub enum RootReply {
    /// The soggy picture.
    Soggy,
    /// A redirect to `ROOT_REDIRECT`.
    Redirect,
}

/// The health answer for a roll: the soggy picture for a 1, else the banner.
pub open spec fn health_answer(roll: u32) -> HealthReply {
    if is_soggy(roll) {
        HealthReply::Soggy
    } else {
        HealthReply::Banner
    }
}

/// The root answer for a roll: the soggy picture for a 1, else the redirect.
pub open spec fn root_answer(roll: u32) -> RootReply {
    if is_soggy(roll) {
        RootReply::Soggy
    } else {
        RootReply::Redirect
    }
}

/// The health answer for a given roll.
pub fn health_reply(roll: u32) -> (reply: HealthReply)
    ensures
        reply == (if is_soggy(roll) { HealthReply::Soggy } else { HealthReply::Banner }),
        reply == health_answer(roll),
{
    if roll == 1 {
        HealthReply::Soggy
    } else {
        HealthReply::Banner
    }
}

/// The root answer for a given roll.
pub fn root_reply(roll: u32) -> (reply: RootReply)
    ensures
        reply == (if is_soggy(roll) { RootReply::Soggy } else { RootReply::Redirect }),
        reply == root_answer(roll),
{
    if roll == 1 {
        RootReply::Soggy
    } else {
        RootReply::Redirect
    }
}

/// Draws a roll from 1 to 100 and gives it with the health answer for it.
pub fn health_check_drawn() -> (drawn: (u32, HealthReply))
    ensures
        1 <= drawn.0 <= 100,
        drawn.1 == health_answer(drawn.0),
{
    let roll = roll_percent();
    (roll, health_reply(roll))
}

/// Draws a roll from 1 to 100 and gives it with the root answer for it.
pub fn root_drawn() -> (drawn: (u32, RootReply))
    ensures
        1 <= drawn.0 <= 100,
        drawn.1 == root_answer(drawn.0),
{
    let roll = roll_percent();
    (roll, root_reply(roll))
}

/// Answers the health check: the answer for some roll from 1 to 100.
pub fn health_check() -> (reply: HealthReply)
    ensures
        exists|roll: u32| 1 <= roll <= 100 && reply == (if is_soggy(roll) {
            HealthReply::Soggy
        } else {
            HealthReply::Banner
        }),
{
    let drawn = health_check_drawn();
    drawn.1
}

/// Answers the root of the service: the answer for some roll from 1 to 100.
pub fn root() -> (reply: RootReply)
    ensures
        exists|roll: u32| 1 <= roll <= 100 && reply == (if is_soggy(roll) {
            RootReply::Soggy
        } else {
            RootReply::Redirect
        }),
{
    let drawn = root_drawn();
    drawn.1
}

} // verus!
