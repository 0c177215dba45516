//! The generation gatekeeper: orchestrates a generation request around the
//! opaque external job.
//!
//! The gatekeeper validates the request, asks the ledger to decide, and maps
//! each outcome to a response. The external job itself is invoked by the
//! caller, between [`start_generation`] and [`complete_generation`], and
//! only when the ledger authorized it; denied and bootstrapping requests are
//! answered with the placeholder artifact and never invoke the job.

use vstd::prelude::*;

use crate::encode::{base64_of, encode_base64};
use crate::identity::{invalid_public_key, valid_identity, valid_public_key};
use crate::ledger::{begin_generation, settle_generation, GenDecision, LedgerError};
use crate::responses::GenerateResponse;
use crate::store::AccountStore;

verus! {

/// What the caller must do next for one generation request.
pub enum GenerationStep {
    /// The request is settled; no job runs.
    Done(GenerateResponse),
    /// The ledger authorized the external job, once, on the strength of
    /// `balance`. The caller runs it and settles with
    /// [`complete_generation`].
    RunJob { balance: i32 },
}

/// Rejects a request whose client is not connected or whose identity is
/// absent or malformed, before any storage access.
pub fn validate_generation_request(is_connected: bool, public_key: &Option<String>) -> (r: Option<
    GenerateResponse,
>)
    ensures
        r is None <==> is_connected && valid_public_key(*public_key),
        r matches Some(resp) ==> !resp.success && resp.message@
            == "User is not connected or public key is missing"@ && resp.image is None
            && resp.token_amount is None,
{
    if !is_connected || invalid_public_key(public_key) {
        Some(
            GenerateResponse::error("User is not connected or public key is missing".to_owned()),
        )
    } else {
        None
    }
}

/// Phase one of a generation request, for a validated identity.
///
/// An unseen identity gets exactly one account, created with balance 0, and
/// the placeholder artifact; an empty balance gets the placeholder artifact
/// and no mutation; a positive balance authorizes the job. The job is never
/// invoked on the request that creates the account.
pub fn start_generation(store: &mut AccountStore, identity: &String, placeholder: &Vec<u8>) -> (r:
    GenerationStep)
    requires
        old(store).wf(),
        valid_identity(identity@),
        4 * ((placeholder@.len() + 2) / 3) <= usize::MAX,
    ensures
        final(store).wf(),
        match r {
            GenerationStep::Done(resp) => resp.success && resp.image is Some && resp.image->0@
                == base64_of(placeholder@) && if !old(store).contents().contains_key(identity@) {
                final(store).contents() == old(store).contents().insert(identity@, 0)
                    && resp.message@
                    == "You currently have no generation tokens. Add tokens to your balance to generate"@
                    && resp.token_amount == Some(0i32)
            } else {
                old(store).contents()[identity@] == 0 && *final(store) == *old(store)
                    && resp.message@ == "Insufficient token balance"@ && resp.token_amount == Some(
                    0i32,
                )
            },
            GenerationStep::RunJob { balance } => old(store).contents().contains_key(identity@)
                && old(store).contents()[identity@] == balance as int && balance > 0 && *final(store) == *old(store),
        },
{
    match begin_generation(store, identity) {
        GenDecision::Bootstrap => {
            let image = encode_base64(placeholder);
            GenerationStep::Done(GenerateResponse::new_account(image, 0))
        },
        GenDecision::Denied => {
            let image = encode_base64(placeholder);
            GenerationStep::Done(GenerateResponse::insufficient_tokens(image))
        },
        GenDecision::Authorized { balance } => GenerationStep::RunJob { balance },
    }
}

/// Phase two of a generation request: settles an authorized attempt with
/// the job's result. `job_artifact` carries the artifact bytes the job
/// produced, or `None` if it failed.
///
/// On success exactly one token is debited and the response carries the
/// encoded artifact with the new balance; on failure the balance is
/// untouched and the attempt reports [`LedgerError::Job`].
pub fn complete_generation(
    store: &mut AccountStore,
    identity: &String,
    job_artifact: Option<&Vec<u8>>,
) -> (r: Result<GenerateResponse, LedgerError>)
    requires
        old(store).wf(),
        old(store).contents().contains_key(identity@),
        old(store).contents()[identity@] > 0,
        job_artifact matches Some(bytes) ==> 4 * ((bytes@.len() + 2) / 3) <= usize::MAX,
    ensures
        final(store).wf(),
        match job_artifact {
            Some(bytes) => final(store).contents() == old(store).contents().insert(
                identity@,
                old(store).contents()[identity@] - 1,
            ) && (r matches Ok(resp) && (resp.success && resp.message@ == "Image generated"@
                && resp.image is Some && resp.image->0@ == base64_of(bytes@)
                && resp.token_amount == Some((old(store).contents()[identity@] - 1) as i32))),
            None => r == Err::<GenerateResponse, LedgerError>(LedgerError::Job) && *final(store)
                == *old(store),
        },
{
    match job_artifact {
        Some(bytes) => {
            match settle_generation(store, identity, true) {
                Ok(updated) => {
                    let image = encode_base64(bytes);
                    Ok(GenerateResponse::success(image, updated))
                },
                Err(e) => Err(e),
            }
        },
        None => {
            match settle_generation(store, identity, false) {
                Ok(_) => vstd::pervasive::unreached(),
                Err(e) => Err(e),
            }
        },
    }
}

} // verus!
