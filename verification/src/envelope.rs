//! The fixed two-field response envelope.
//!
//! Every outcome of a chat request, success or failure, is reported in the
//! same shape: a text message and a logical status code. The code is `200`
//! on success and `500` on any failure; the transport status is always 200,
//! so this field alone carries the logical outcome.

use vstd::prelude::*;

verus! {

/// Logical status code of a successful request.
pub const CODE_SUCCESS: u16 = 200;

/// Logical status code of any failed request.
pub const CODE_FAILURE: u16 = 500;

/// The fixed `{message, code}` response shape returned for every outcome.
pub struct Envelope {
    pub message: String,
    pub code: u16,
}

impl Envelope {
    /// A well-formed envelope carries one of the two logical codes.
    pub open spec fn wf(self) -> bool {
        self.code == CODE_SUCCESS || self.code == CODE_FAILURE
    }

    /// Wrap a successful result text with code 200.
    pub fn success(message: String) -> (env: Envelope)
        ensures
            env.message@ == message@,
            env.code == CODE_SUCCESS,
            env.wf(),
    {
        Envelope { message, code: CODE_SUCCESS }
    }

    /// Wrap an error description with code 500.
    pub fn failure(message: String) -> (env: Envelope)
        ensures
            env.message@ == message@,
            env.code == CODE_FAILURE,
            env.wf(),
    {
        Envelope { message, code: CODE_FAILURE }
    }
}

} // verus!
