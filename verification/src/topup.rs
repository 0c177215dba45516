//! The top-up service: the administrative credit path.
//!
//! A top-up validates its input before touching storage, credits a known
//! account, and confirms by re-reading the balance it just wrote: the value
//! returned is the ground truth at read time, not the locally computed one.
//! A top-up never creates an account.

use vstd::prelude::*;
use vstd::pervasive::unreached;

use crate::identity::{invalid_public_key, valid_public_key};
use crate::ledger::LedgerError;
use crate::responses::{AddTokensRequest, AddTokensResponse};
use crate::decimal::spec_decimal;
use crate::store::AccountStore;

verus! {

/// A top-up request that is allowed to touch storage: the client is
/// connected, the identity is present and well-formed, and the amount is
/// present and positive.
pub open spec fn valid_top_up_request(request: AddTokensRequest) -> bool {
    &&& request.is_connected
    &&& valid_public_key(request.public_key)
    &&& request.token_addition is Some
    &&& request.token_addition->0 > 0
}

/// Credits `request.token_addition` tokens to the account named by
/// `request.public_key`.
///
/// Malformed requests are rejected before any storage access; a credit that
/// would push the balance past the representable range is rejected the same
/// way, with the balance untouched. An unknown identity fails with
/// [`LedgerError::AccountNotFound`] and no account is created.
pub fn process_top_up(store: &mut AccountStore, request: &AddTokensRequest) -> (r: Result<
    AddTokensResponse,
    LedgerError,
>)
    requires
        old(store).wf(),
    ensures
        final(store).wf(),
        !valid_top_up_request(*request) ==> r == Err::<AddTokensResponse, LedgerError>(
            LedgerError::Validation,
        ) && *final(store) == *old(store),
        valid_top_up_request(*request) && !old(store).contents().contains_key(
            request.public_key->0@,
        ) ==> r == Err::<AddTokensResponse, LedgerError>(LedgerError::AccountNotFound) && *final(store) == *old(store),
        valid_top_up_request(*request) && old(store).contents().contains_key(
            request.public_key->0@,
        ) && old(store).contents()[request.public_key->0@] + request.token_addition->0 > i32::MAX
            ==> r == Err::<AddTokensResponse, LedgerError>(LedgerError::Validation) && *final(store) == *old(store),
        valid_top_up_request(*request) && old(store).contents().contains_key(
            request.public_key->0@,
        ) && old(store).contents()[request.public_key->0@] + request.token_addition->0 <= i32::MAX
            ==> {
            let updated = old(store).contents()[request.public_key->0@]
                + request.token_addition->0;
            &&& final(store).contents() == old(store).contents().insert(
                request.public_key->0@,
                updated,
            )
            &&& r matches Ok(resp)
            &&& (r matches Ok(resp) ==> resp.success && resp.token_amount == Some(updated as i32)
                && resp.message@ == "You now have "@ + spec_decimal(updated as nat))
        },
{
    if !request.is_connected || invalid_public_key(&request.public_key) {
        return Err(LedgerError::Validation);
    }
    let amount = match request.token_addition {
        Some(a) => a,
        None => {
            return Err(LedgerError::Validation);
        },
    };
    if amount <= 0 {
        return Err(LedgerError::Validation);
    }
    let key = match request.public_key.as_ref() {
        Some(k) => k,
        None => unreached(),
    };
    let balance = match store.get_balance(key) {
        Some(b) => b,
        None => {
            return Err(LedgerError::AccountNotFound);
        },
    };
    if balance > i32::MAX - amount {
        return Err(LedgerError::Validation);
    }
    let updated = balance + amount;
    match store.set_balance(key, updated) {
        Ok(_) => {},
        Err(_) => {
            return unreached();
        },
    }
    // Confirmation read: report what the store holds now, not the local sum.
    match store.get_balance(key) {
        Some(confirmed) => Ok(AddTokensResponse::success(confirmed)),
        None => unreached(),
    }
}

} // verus!
