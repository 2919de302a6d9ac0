//! Upstream outcome translation.
//!
//! The upstream chat-completion call either fails with an error description
//! or returns a list of choices, each carrying optional text content. Only
//! the first choice is read. Every outcome is translated into the fixed
//! response envelope: the first choice's text with code 200 on success; on
//! any failure, code 500 with the error's description, `"no choices"` when
//! the list is empty, or `"no content"` when the first choice carries none.

use vstd::prelude::*;
use vstd::string::StringExecFns;

use crate::chat::text_view;
use crate::envelope::CODE_FAILURE;
use crate::envelope::CODE_SUCCESS;
use crate::envelope::Envelope;

verus! {

/// What the gateway reads of an upstream outcome: an error description, or
/// the optional text content of each returned choice, in order.
pub type UpstreamOutcome = Result<Vec<Option<String>>, String>;

/// The view of an upstream outcome: each choice's content as an optional
/// character sequence.
pub open spec fn outcome_view(outcome: UpstreamOutcome) -> Result<Seq<Option<Seq<char>>>, Seq<char>> {
    match outcome {
        Result::Ok(choices) => Result::Ok(choices@.map_values(|c: Option<String>| text_view(c))),
        Result::Err(message) => Result::Err(message@),
    }
}

/// The message the envelope carries for an upstream outcome.
pub open spec fn relayed_message(outcome: Result<Seq<Option<Seq<char>>>, Seq<char>>) -> Seq<char> {
    match outcome {
        Result::Err(message) => message,
        Result::Ok(choices) => if choices.len() == 0 {
            "no choices"@
        } else {
            match choices[0] {
                Option::None => "no content"@,
                Option::Some(text) => text,
            }
        },
    }
}

/// The code the envelope carries for an upstream outcome: 200 exactly when
/// the outcome holds a first choice with text content.
pub open spec fn relayed_code(outcome: Result<Seq<Option<Seq<char>>>, Seq<char>>) -> u16 {
    match outcome {
        Result::Err(_) => CODE_FAILURE,
        Result::Ok(choices) => if choices.len() > 0 && choices[0] is Some {
            CODE_SUCCESS
        } else {
            CODE_FAILURE
        },
    }
}

/// Translate an upstream outcome into the response envelope.
pub fn translate_response(outcome: UpstreamOutcome) -> (env: Envelope)
    ensures
        env.message@ == relayed_message(outcome_view(outcome)),
        env.code == relayed_code(outcome_view(outcome)),
        env.wf(),
{
    match outcome {
        Result::Err(message) => Envelope::failure(message),
        Result::Ok(choices) => {
            if choices.len() == 0 {
                Envelope::failure(String::from_str("no choices"))
            } else {
                match &choices[0] {
                    Option::None => Envelope::failure(String::from_str("no content")),
                    Option::Some(text) => Envelope::success(text.clone()),
                }
            }
        },
    }
}

} // verus!
