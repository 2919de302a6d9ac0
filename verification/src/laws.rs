//! The gateway's stated laws, proved over the spec-level models that the
//! translation functions' contracts are phrased in.

use vstd::prelude::*;

use crate::chat::Role;
use crate::chat::resolved_credential;
use crate::chat::role_of;
use crate::envelope::CODE_FAILURE;
use crate::envelope::CODE_SUCCESS;
use crate::upstream::relayed_code;
use crate::upstream::relayed_message;

verus! {

/// A request with a resolvable credential is forwarded, and when the
/// upstream call succeeds with a first choice that carries text, the relayed
/// envelope is exactly that text with code 200.
pub proof fn lemma_success_relay(
    request_key: Seq<char>,
    fallback: Option<Seq<char>>,
    choices: Seq<Option<Seq<char>>>,
)
    requires
        resolved_credential(request_key, fallback) is Some,
        choices.len() > 0,
        choices[0] is Some,
    ensures
        relayed_code(Result::Ok(choices)) == CODE_SUCCESS,
        relayed_message(Result::Ok(choices)) == choices[0]->0,
{
}

/// With an empty per-request key and no process-wide credential, no
/// credential resolves: the request fails before any upstream call.
pub proof fn lemma_no_credential(request_key: Seq<char>, fallback: Option<Seq<char>>)
    requires
        request_key.len() == 0,
        fallback is None,
    ensures
        resolved_credential(request_key, fallback) is None,
{
}

/// A non-empty key in the request body takes priority over the process-wide
/// credential, whether or not one is set.
pub proof fn lemma_request_key_priority(request_key: Seq<char>, fallback: Option<Seq<char>>)
    requires
        request_key.len() > 0,
    ensures
        resolved_credential(request_key, fallback) == Option::Some(request_key),
{
}

/// A role name other than the three recognized ones normalizes to `User`
/// without error.
pub proof fn lemma_unrecognized_role(name: Seq<char>)
    requires
        name != "user"@,
        name != "assistant"@,
        name != "system"@,
    ensures
        role_of(name) == Role::User,
{
}

/// An upstream outcome with no choices is relayed as code 500 with the
/// fixed `"no choices"` message.
pub proof fn lemma_no_choices(choices: Seq<Option<Seq<char>>>)
    requires
        choices.len() == 0,
    ensures
        relayed_code(Result::Ok(choices)) == CODE_FAILURE,
        relayed_message(Result::Ok(choices)) == "no choices"@,
{
}

/// An upstream outcome whose first choice carries no text is relayed as
/// code 500 with the fixed `"no content"` message.
pub proof fn lemma_no_content(choices: Seq<Option<Seq<char>>>)
    requires
        choices.len() > 0,
        choices[0] is None,
    ensures
        relayed_code(Result::Ok(choices)) == CODE_FAILURE,
        relayed_message(Result::Ok(choices)) == "no content"@,
{
}

} // verus!
