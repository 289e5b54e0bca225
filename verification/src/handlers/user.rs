//! What a client is told about an account.

use vstd::prelude::*;

verus! {

/// The answer to a successful sign-in.
pub struct LoginResponse {
    pub token: String,
}

/// The place of an uploaded file.
pub struct FilePayload {
    pub file: String,
}

/// What a session token asserts: whose it is, and until when it holds, in
/// seconds since the Unix epoch.
pub struct Claims {
    pub sub: String,
    pub exp: usize,
}

} // verus!
