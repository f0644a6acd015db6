//! What a request can fail with before any tool runs, and how the arguments
//! of a request are read.

use vstd::prelude::*;
use crate::json::lookup;
use crate::json::Json;
use crate::json::JsonObject;
use crate::json::Member;

verus! {

/// Why a request was turned down, as mathematics sees it.
pub enum RequestFailure {
    InvalidParams(Seq<char>),
    InternalError(Seq<char>),
}

/// Why a request was turned down.
#[derive(Debug, PartialEq)]
pub enum RequestError {
    /// The arguments of the request are not what the tool takes.
    InvalidParams(String),
    /// The request was in order and could not be served.
    InternalError(String),
}

impl View for RequestError {
    type V = RequestFailure;

    open spec fn view(&self) -> RequestFailure {
        match self {
            RequestError::InvalidParams(m) => RequestFailure::InvalidParams(m@),
            RequestError::InternalError(m) => RequestFailure::InternalError(m@),
        }
    }
}

/// The string under `key`, where there is one.
pub open spec fn text_under(args: Seq<Member>, key: Seq<char>) -> Option<Seq<char>> {
    match lookup(args, key) {
        Some(Json::Text(t)) => Some(t),
        _ => None,
    }
}

/// The boolean under `key`, or `default` where there is none.
pub open spec fn flag_under(args: Seq<Member>, key: Seq<char>, default: bool) -> bool {
    match lookup(args, key) {
        Some(Json::Bool(b)) => b,
        _ => default,
    }
}

/// The whole number under `key`, where there is one that is not negative and
/// fits 64 bits.
pub open spec fn number_under(args: Seq<Member>, key: Seq<char>) -> Option<u64> {
    match lookup(args, key) {
        Some(Json::Int(n)) => if 0 <= n <= u64::MAX {
            Some(n as u64)
        } else {
            None
        },
        _ => None,
    }
}

/// The string under `key`, where there is one.
pub fn text_argument<'a>(args: &'a JsonObject, key: &str) -> (r: Option<&'a str>)
    ensures
        match r {
            Some(t) => text_under(args@, key@) == Some(t@),
            None => text_under(args@, key@) is None,
        },
{
    match args.get(key) {
        Some(value) => value.as_str(),
        None => None,
    }
}

/// The boolean under `key`, or `default` where there is none.
pub fn flag_argument(args: &JsonObject, key: &str, default: bool) -> (r: bool)
    ensures
        r == flag_under(args@, key@, default),
{
    match args.get(key) {
        Some(value) => match value.as_bool() {
            Some(b) => b,
            None => default,
        },
        None => default,
    }
}

/// The whole number under `key`, where there is one that is not negative and
/// fits 64 bits.
pub fn number_argument(args: &JsonObject, key: &str) -> (r: Option<u64>)
    ensures
        r == number_under(args@, key@),
{
    match args.get(key) {
        Some(value) => value.as_u64(),
        None => None,
    }
}

} // verus!
