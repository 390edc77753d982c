//! Parsing what the user or the OS hands the client to authenticate
//! with: either a deep-link callback URL of the custom scheme, carrying
//! `code`/`state` (or `error`) query parameters, or a bare opaque token
//! to validate directly.

use vstd::prelude::*;
use vstd::string::StrSliceExecFns;

use crate::auth::CALLBACK_URL;
use crate::strutil::{char_suffix, find_char, spec_find_char, spec_split_char, spec_starts_with,
    split_char, str_starts_with};

verus! {

/// The value of the first query parameter carrying `prefix` (such as
/// `code=`), if any.
pub open spec fn spec_first_with_prefix(parts: Seq<Seq<char>>, prefix: Seq<char>) -> Option<
    Seq<char>,
>
    decreases parts.len(),
{
    if parts.len() == 0 {
        None
    } else if spec_starts_with(parts[0], prefix) {
        Some(parts[0].subrange(prefix.len() as int, parts[0].len() as int))
    } else {
        spec_first_with_prefix(parts.drop_first(), prefix)
    }
}

/// Find the first piece beginning with `prefix` and return what
/// follows the prefix in it.
pub fn first_with_prefix(parts: &Vec<String>, prefix: &str) -> (r: Option<String>)
    ensures
        match r {
            Some(v) => spec_first_with_prefix(parts@.map_values(|p: String| p@), prefix@)
                == Some(v@),
            None => spec_first_with_prefix(parts@.map_values(|p: String| p@), prefix@) is None,
        },
{
    let ghost views = parts@.map_values(|p: String| p@);
    let mut i: usize = 0;
    proof {
        assert(views.skip(0) =~= views);
    }
    while i < parts.len()
        invariant
            views == parts@.map_values(|p: String| p@),
            i <= parts.len(),
            spec_first_with_prefix(views.skip(i as int), prefix@) == spec_first_with_prefix(
                views,
                prefix@,
            ),
        decreases parts.len() - i,
    {
        proof {
            assert(views.skip(i as int)[0] == views[i as int]);
            assert(views.skip(i as int).drop_first() =~= views.skip(i as int + 1));
        }
        if str_starts_with(parts[i].as_str(), prefix) {
            let p = prefix.unicode_len();
            return Some(char_suffix(parts[i].as_str(), p));
        }
        i = i + 1;
    }
    proof {
        assert(views.skip(parts@.len() as int) =~= Seq::<Seq<char>>::empty());
    }
    None
}

/// The value of the first `prefix`-parameter of `query`, split at `&`.
pub open spec fn spec_query_param(query: Seq<char>, prefix: Seq<char>) -> Option<Seq<char>> {
    spec_first_with_prefix(spec_split_char(query, '&'), prefix)
}

/// Extract the first `prefix`-parameter of `query`.
pub fn query_param(query: &str, prefix: &str) -> (r: Option<String>)
    ensures
        match r {
            Some(v) => spec_query_param(query@, prefix@) == Some(v@),
            None => spec_query_param(query@, prefix@) is None,
        },
{
    let parts = split_char(query, '&');
    first_with_prefix(&parts, prefix)
}

/// What an authentication input turned out to be.
#[derive(Debug)]
pub enum ParsedAuthInput {
    /// Not a callback URL: treat the whole input as an opaque token.
    DirectToken,
    /// A callback URL with no query part.
    CallbackNoQuery,
    /// The authorization server reported an error.
    CallbackError { error: String },
    /// An authorization code, with the echoed state if present.
    CallbackCode { code: String, state: Option<String> },
    /// A query without an authorization code.
    CallbackMissingCode,
}

/// The query part of a callback input: everything after the first `?`.
pub open spec fn spec_callback_query(input: Seq<char>) -> Seq<char> {
    input.subrange(spec_find_char(input, '?') + 1, input.len() as int)
}

/// Classify an authentication input.
///
/// Anything that does not start with the callback scheme is an opaque
/// token. In a callback, an `error` parameter wins, then the first
/// `code` parameter, each taken from the query after the first `?`.
pub fn parse_auth_input(input: &str) -> (r: ParsedAuthInput)
    ensures
        !spec_starts_with(input@, CALLBACK_URL@) ==> r is DirectToken,
        spec_starts_with(input@, CALLBACK_URL@) && spec_find_char(input@, '?') == input@.len()
            ==> r is CallbackNoQuery,
        spec_starts_with(input@, CALLBACK_URL@) && spec_find_char(input@, '?') < input@.len()
            ==> {
            let q = spec_callback_query(input@);
            if spec_query_param(q, "error="@) is Some {
                r matches ParsedAuthInput::CallbackError { error } && Some(error@)
                    == spec_query_param(q, "error="@)
            } else if spec_query_param(q, "code="@) is Some {
                r matches ParsedAuthInput::CallbackCode { code, state } && Some(code@)
                    == spec_query_param(q, "code="@) && ((state is Some) == (spec_query_param(
                    q,
                    "state="@,
                ) is Some)) && (state matches Some(st) ==> Some(st@) == spec_query_param(
                    q,
                    "state="@,
                ))
            } else {
                r is CallbackMissingCode
            }
        },
{
    if !str_starts_with(input, CALLBACK_URL) {
        return ParsedAuthInput::DirectToken;
    }
    let n = input.unicode_len();
    match find_char(input, '?') {
        None => ParsedAuthInput::CallbackNoQuery,
        Some(qi) => {
            assert(qi < n);
            let query = char_suffix(input, qi + 1);
            match query_param(query.as_str(), "error=") {
                Some(error) => ParsedAuthInput::CallbackError { error },
                None => {
                    match query_param(query.as_str(), "code=") {
                        Some(code) => {
                            let state = query_param(query.as_str(), "state=");
                            ParsedAuthInput::CallbackCode { code, state }
                        },
                        None => ParsedAuthInput::CallbackMissingCode,
                    }
                },
            }
        },
    }
}

} // verus!
