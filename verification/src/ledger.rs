//! The ledger service: read-check-debit logic around a generation attempt.
//!
//! A generation request runs in two phases around the external job. The
//! first phase reads the balance and decides: an unseen identity is
//! bootstrapped with an empty account, an empty balance is denied, a
//! positive balance authorizes the job. The second phase settles the
//! attempt: exactly one token is debited when, and only when, the job
//! reported success.

use vstd::prelude::*;
use vstd::pervasive::unreached;

use crate::store::AccountStore;

verus! {

/// Failures of the ledger, gatekeeper and top-up paths. Store-level
/// failures ([`crate::store::StoreError`]) and backend unavailability stay
/// with the store and its backend; the paths here surface only these.
#[derive(Clone, Copy, Debug, PartialEq, Eq, Structural)]
pub enum LedgerError {
    /// Client fault: missing or malformed identity or amount. Resolved
    /// before any storage access.
    Validation,
    /// Top-up against an identity that has no account.
    AccountNotFound,
    /// The external generation job failed or produced no output.
    Job,
}

/// What the ledger decided for one generation attempt, before any job runs.
#[derive(Clone, Copy, Debug, PartialEq, Eq, Structural)]
pub enum GenDecision {
    /// The identity was unseen: an account with balance 0 was just created.
    /// The job does not run on the request that creates the account.
    Bootstrap,
    /// The balance is 0: nothing changes and the job never runs, so an
    /// attempt that cannot be charged costs nothing.
    Denied,
    /// The balance was positive: the external job may run, once. `balance`
    /// is the balance that authorized it.
    Authorized { balance: i32 },
}

/// The pure decision rule of the debit path: what one balance lookup
/// authorizes. An absent account bootstraps, an empty balance is denied, a
/// positive balance authorizes the job.
pub fn decide_generation(lookup: Option<i32>) -> (r: GenDecision)
    requires
        lookup matches Some(b) ==> b >= 0,
    ensures
        match lookup {
            None => r == GenDecision::Bootstrap,
            Some(b) => if b == 0 {
                r == GenDecision::Denied
            } else {
                r == (GenDecision::Authorized { balance: b })
            },
        },
{
    match lookup {
        None => GenDecision::Bootstrap,
        Some(balance) => {
            if balance == 0 {
                GenDecision::Denied
            } else {
                GenDecision::Authorized { balance }
            }
        },
    }
}

/// Phase one of a generation attempt: look the identity up and decide.
///
/// The store changes only in the `Bootstrap` case, and there it gains
/// exactly one account, with balance 0.
pub fn begin_generation(store: &mut AccountStore, identity: &String) -> (r: GenDecision)
    requires
        old(store).wf(),
    ensures
        final(store).wf(),
        r is Bootstrap <==> !old(store).contents().contains_key(identity@),
        r is Denied <==> old(store).contents().contains_key(identity@)
            && old(store).contents()[identity@] == 0,
        match r {
            GenDecision::Bootstrap => final(store).contents() == old(store).contents().insert(
                identity@,
                0,
            ),
            GenDecision::Denied => *final(store) == *old(store),
            GenDecision::Authorized { balance } => old(store).contents()[identity@]
                == balance as int && balance > 0 && *final(store) == *old(store),
        },
{
    let lookup = store.get_balance(identity);
    match decide_generation(lookup) {
        GenDecision::Bootstrap => match store.create(identity, 0) {
            Ok(_) => GenDecision::Bootstrap,
            Err(_) => unreached(),
        },
        GenDecision::Denied => GenDecision::Denied,
        GenDecision::Authorized { balance } => GenDecision::Authorized { balance },
    }
}

/// One successful, settled generation: a single token leaves the balance,
/// which must have been positive.
pub open spec fn debit_step(
    before: Map<Seq<char>, int>,
    after: Map<Seq<char>, int>,
    key: Seq<char>,
) -> bool {
    &&& before.contains_key(key)
    &&& before[key] > 0
    &&& after == before.insert(key, before[key] - 1)
}

/// Phase two of a generation attempt, after the external job was invoked for
/// an authorized identity. On job success exactly one token is debited and
/// the new balance is returned; on job failure the balance is untouched.
/// A debit and a completed job are 1:1 — no double charge, no free job.
pub fn settle_generation(store: &mut AccountStore, identity: &String, job_succeeded: bool) -> (r:
    Result<i32, LedgerError>)
    requires
        old(store).wf(),
        old(store).contents().contains_key(identity@),
        old(store).contents()[identity@] > 0,
    ensures
        final(store).wf(),
        job_succeeded ==> r == Ok::<i32, LedgerError>(
            (old(store).contents()[identity@] - 1) as i32,
        ),
        job_succeeded ==> final(store).contents() == old(store).contents().insert(
            identity@,
            old(store).contents()[identity@] - 1,
        ),
        job_succeeded ==> debit_step(old(store).contents(), final(store).contents(), identity@),
        !job_succeeded ==> r == Err::<i32, LedgerError>(LedgerError::Job) && *final(store) == *old(
            store,
        ),
{
    if !job_succeeded {
        return Err(LedgerError::Job);
    }
    match store.get_balance(identity) {
        Some(balance) => {
            let updated = balance - 1;
            match store.set_balance(identity, updated) {
                Ok(_) => Ok(updated),
                Err(_) => unreached(),
            }
        },
        None => unreached(),
    }
}

/// Law: a serialized run of `k` successful settlements against one identity,
/// starting from balance `n >= k`, ends at exactly `n - k`. Every store
/// mutation happens inside one exclusive store operation, so any
/// interleaving of `k` concurrent successful generation requests is such a
/// run: no debit is lost.
pub proof fn lemma_no_lost_debits(
    states: Seq<Map<Seq<char>, int>>,
    key: Seq<char>,
    n: int,
    k: nat,
)
    requires
        states.len() == k + 1,
        states[0].contains_key(key),
        states[0][key] == n,
        n >= k,
        forall|i: int| 0 <= i < k ==> debit_step(#[trigger] states[i], states[i + 1], key),
    ensures
        states[k as int].contains_key(key),
        states[k as int][key] == n - k,
    decreases k,
{
    if k > 0 {
        let rest = states.subrange(1, states.len() as int);
        assert(debit_step(states[0], states[1], key));
        assert(rest[0] == states[1]);
        assert(forall|i: int| 0 <= i < k - 1 ==> debit_step(#[trigger] rest[i], rest[i + 1], key))
            by {
            assert(forall|i: int|
                0 <= i < k - 1 ==> (#[trigger] rest[i]) == states[i + 1] && rest[i + 1]
                    == states[i + 2]);
        }
        lemma_no_lost_debits(rest, key, n - 1, (k - 1) as nat);
        assert(rest[(k - 1) as int] == states[k as int]);
    }
}

} // verus!
