//! Inbound request translation.
//!
//! An inbound chat request carries an optional per-request API key, a token
//! limit, and an ordered list of role-tagged message turns. Translation
//! normalizes each turn's role, resolves the credential (the per-request key
//! takes priority; otherwise the process-wide fallback; otherwise the request
//! fails before any upstream call), and produces the normalized request that
//! the upstream invocation is built from.

use vstd::prelude::*;
use vstd::string::StrSliceExecFns;
use vstd::string::StringExecFns;

use crate::envelope::CODE_FAILURE;
use crate::envelope::Envelope;

verus! {

/// The role of one message turn. Unrecognized role names normalize to `User`.
#[derive(Clone, Copy, Debug, PartialEq, Eq, Structural)]
pub enum Role {
    User,
    Assistant,
    System,
}

/// One role-tagged unit of conversational text, as it arrives in the
/// request body: the role still a free-form string.
pub struct Content {
    pub role: String,
    pub content: String,
}

/// The parsed body of an inbound chat request.
pub struct UserInput {
    pub api_key: String,
    pub max_tokens: u16,
    pub contents: Vec<Content>,
}

/// One message turn after translation, its role normalized.
pub struct MessageTurn {
    pub role: Role,
    pub content: String,
}

/// The normalized chat request: the resolved credential, the token limit,
/// and the translated message turns, ready for the upstream invocation.
pub struct ChatRequest {
    pub api_key: String,
    pub max_tokens: u16,
    pub messages: Vec<MessageTurn>,
}

/// The role a name denotes: `"assistant"` and `"system"` map to their
/// roles; `"user"`, and every unrecognized name, maps to `User`.
pub open spec fn role_of(name: Seq<char>) -> Role {
    if name == "assistant"@ {
        Role::Assistant
    } else if name == "system"@ {
        Role::System
    } else {
        Role::User
    }
}

/// The view of an optional text value as an optional character sequence.
pub open spec fn text_view(text: Option<String>) -> Option<Seq<char>> {
    match text {
        Option::Some(s) => Option::Some(s@),
        Option::None => Option::None,
    }
}

/// The credential a request uses: the per-request key when it is non-empty,
/// else the process-wide fallback, else none.
pub open spec fn resolved_credential(
    request_key: Seq<char>,
    fallback: Option<Seq<char>>,
) -> Option<Seq<char>> {
    if request_key.len() > 0 {
        Option::Some(request_key)
    } else {
        fallback
    }
}

/// Character-by-character string equality.
fn str_eq(a: &str, b: &str) -> (r: bool)
    ensures
        r == (a@ == b@),
{
    let a_len = a.unicode_len();
    let b_len = b.unicode_len();
    if a_len != b_len {
        proof {
            assert(a@.len() != b@.len());
        }
        return false;
    }
    let mut i: usize = 0;
    while i < a_len
        invariant
            a_len == a@.len(),
            b_len == b@.len(),
            a_len == b_len,
            i <= a_len,
            forall|j: int| 0 <= j < i ==> a@[j] == b@[j],
        decreases a_len - i,
    {
        if a.get_char(i) != b.get_char(i) {
            return false;
        }
        i += 1;
    }
    proof {
        assert(a@ =~= b@);
    }
    true
}

/// The default per-request API key when the body omits the field: empty,
/// which defers to the process-wide fallback.
pub fn default_api_key() -> (key: String)
    ensures
        key@ == Seq::<char>::empty(),
{
    String::new()
}

/// Normalize a role name. Unrecognized names are not an error: they map to
/// `User`, as `"user"` itself does.
pub fn get_role(role: String) -> (r: Role)
    ensures
        r == role_of(role@),
{
    if str_eq(role.as_str(), "assistant") {
        Role::Assistant
    } else if str_eq(role.as_str(), "system") {
        Role::System
    } else {
        Role::User
    }
}

/// Translate an inbound request: resolve the credential and normalize each
/// message turn. Fails, before any upstream call can be made, exactly when
/// no credential resolves, with the fixed `"api_key is empty"` envelope.
/// An empty `contents` list is not rejected: it translates to a request
/// with no message turns, forwarded as-is.
pub fn translate_request(input: UserInput, fallback: &Option<String>) -> (r: Result<
    ChatRequest,
    Envelope,
>)
    ensures
        r is Ok <==> resolved_credential(input.api_key@, text_view(*fallback)) is Some,
        r matches Ok(req) ==> {
            &&& Option::Some(req.api_key@) == resolved_credential(
                input.api_key@,
                text_view(*fallback),
            )
            &&& req.max_tokens == input.max_tokens
            &&& req.messages@.len() == input.contents@.len()
            &&& forall|i: int|
                0 <= i < input.contents@.len() ==> {
                    &&& (#[trigger] req.messages@[i]).role == role_of(input.contents@[i].role@)
                    &&& req.messages@[i].content@ == input.contents@[i].content@
                }
        },
        r matches Err(env) ==> env.message@ == "api_key is empty"@ && env.code == CODE_FAILURE,
{
    let UserInput { api_key: request_key, max_tokens, contents } = input;
    let api_key: String;
    if request_key.as_str().is_empty() {
        match fallback {
            Option::None => {
                return Result::Err(Envelope::failure(String::from_str("api_key is empty")));
            },
            Option::Some(key) => {
                api_key = key.clone();
            },
        }
    } else {
        api_key = request_key;
    }
    let mut messages: Vec<MessageTurn> = Vec::new();
    let mut i: usize = 0;
    while i < contents.len()
        invariant
            i <= contents.len(),
            messages@.len() == i,
            forall|j: int|
                0 <= j < i ==> {
                    &&& (#[trigger] messages@[j]).role == role_of(contents@[j].role@)
                    &&& messages@[j].content@ == contents@[j].content@
                },
        decreases contents.len() - i,
    {
        let turn = &contents[i];
        let role = get_role(turn.role.clone());
        let content = turn.content.clone();
        messages.push(MessageTurn { role, content });
        i += 1;
    }
    Result::Ok(ChatRequest { api_key, max_tokens, messages })
}

} // verus!
