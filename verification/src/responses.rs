//! Response shapes handed back to the web layer.
//!
//! Both endpoints answer with an informational success flag, a message, and
//! an optional payload. A denied or bootstrapping generation attempt is a
//! success-shaped response distinguished only by its message text.

use vstd::prelude::*;
use vstd::string::StringExecFns;

use crate::decimal::{decimal_string, spec_decimal};

verus! {

/// Inbound top-up request: an identity and the amount to credit, plus the
/// client's connection flag. Field absence drives rejection.
pub struct AddTokensRequest {
    pub is_connected: bool,
    pub public_key: Option<String>,
    pub token_addition: Option<i32>,
}

/// Outcome of a top-up request.
pub struct AddTokensResponse {
    pub success: bool,
    pub message: String,
    pub token_amount: Option<i32>,
}

impl AddTokensResponse {
    /// A failed top-up: no balance is reported.
    pub fn error(message: String) -> (r: Self)
        ensures
            !r.success,
            r.message == message,
            r.token_amount is None,
    {
        Self { success: false, message, token_amount: None }
    }

    /// A completed top-up, confirming the balance that now stands.
    pub fn success(token_amount: i32) -> (r: Self)
        requires
            token_amount >= 0,
        ensures
            r.success,
            r.message@ == "You now have "@ + spec_decimal(token_amount as nat),
            r.token_amount == Some(token_amount),
    {
        let mut message = "You now have ".to_owned();
        let rendered = decimal_string(token_amount as u32);
        message.append(rendered.as_str());
        Self { success: true, message, token_amount: Some(token_amount) }
    }
}

/// Outcome of a generation request. `image` carries the artifact encoded as
/// text; `token_amount` the balance after the request.
pub struct GenerateResponse {
    pub success: bool,
    pub message: String,
    pub image: Option<String>,
    pub token_amount: Option<i32>,
}

impl GenerateResponse {
    /// A failed generation attempt: no artifact, no balance.
    pub fn error(message: String) -> (r: Self)
        ensures
            !r.success,
            r.message == message,
            r.image is None,
            r.token_amount is None,
    {
        Self { success: false, message, image: None, token_amount: None }
    }

    /// The external job ran and produced an artifact; one token was charged.
    pub fn success(image: String, token_amount: i32) -> (r: Self)
        ensures
            r.success,
            r.message@ == "Image generated"@,
            r.image == Some(image),
            r.token_amount == Some(token_amount),
    {
        Self {
            success: true,
            message: "Image generated".to_owned(),
            image: Some(image),
            token_amount: Some(token_amount),
        }
    }

    /// The balance was empty: the placeholder artifact is returned and no
    /// job is run.
    pub fn insufficient_tokens(image: String) -> (r: Self)
        ensures
            r.success,
            r.message@ == "Insufficient token balance"@,
            r.image == Some(image),
            r.token_amount == Some(0i32),
    {
        Self {
            success: true,
            message: "Insufficient token balance".to_owned(),
            image: Some(image),
            token_amount: Some(0),
        }
    }

    /// A fresh account was just provisioned: the placeholder artifact is
    /// returned and no job is run.
    pub fn new_account(image: String, token_amount: i32) -> (r: Self)
        ensures
            r.success,
            r.message@
                == "You currently have no generation tokens. Add tokens to your balance to generate"@,
            r.image == Some(image),
            r.token_amount == Some(token_amount),
    {
        Self {
            success: true,
            message:
                "You currently have no generation tokens. Add tokens to your balance to generate".to_owned(),
            image: Some(image),
            token_amount: Some(token_amount),
        }
    }
}

} // verus!
