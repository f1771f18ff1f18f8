//! Cancellation tokens, and the record of those that were cancelled.

use std::collections::HashMap;

use tokio_util::sync::CancellationToken;
use vstd::prelude::*;

verus! {

/// `tokio_util::sync::CancellationToken`: a handle on a flag that is shared
/// with its clones and, once set, stays set.
#[verifier::external_type_specification]
#[verifier::external_body]
pub struct ExCancellationToken(CancellationToken);

/// Whether the flag behind a handle has this value, set or not, at some time,
/// now, earlier or later.
pub uninterp spec fn flag_takes(token: CancellationToken, set: bool) -> bool;

/// The tokens that were cancelled through this record. It holds nothing when the
/// program runs, and only [`cancel_token`] adds to it.
pub struct CancelRecord {
    tokens: Ghost<Set<CancellationToken>>,
}

impl View for CancelRecord {
    type V = Set<CancellationToken>;

    closed spec fn view(&self) -> Set<CancellationToken> {
        self.tokens@
    }
}

impl CancelRecord {
    /// A record before the first cancellation.
    pub fn new() -> (record: Self)
        ensures
            record@ == Set::<CancellationToken>::empty(),
    {
        CancelRecord { tokens: Ghost(Set::empty()) }
    }
}

/// `CancellationToken::new` makes a token with a flag of its own, which is not
/// set: it is none of the tokens that there are, such as those in `live`, nor one
/// that was ever cancelled.
#[verifier::external_body]
pub(crate) fn fresh_token(
    live: &HashMap<u64, CancellationToken>,
    record: &CancelRecord,
) -> (token: CancellationToken)
    ensures
        flag_takes(token, false),
        forall|id: u64| #[trigger] live@.contains_key(id) ==> live@[id] != token,
        !record@.contains(token),
{
    CancellationToken::new()
}

/// The clone of a `CancellationToken` is a handle on the same flag: the two
/// cannot be told apart.
pub assume_specification[ <CancellationToken as Clone>::clone ](
    token: &CancellationToken,
) -> (copy: CancellationToken)
    ensures
        copy == *token,
;

/// `CancellationToken::cancel` sets the flag of this token and of no token with
/// another flag, which the record keeps.
#[verifier::external_body]
pub(crate) fn cancel_token(token: &CancellationToken, record: &mut CancelRecord)
    ensures
        final(record)@ == old(record)@.insert(*token),
{
    token.cancel();
}

/// `CancellationToken::is_cancelled` reads the flag: what it gives is a value
/// that the flag has, and a flag that was set reads as set from then on. A flag
/// that is not in the record may read as set too: whoever holds the token can
/// set it.
#[verifier::external_body]
pub(crate) fn token_is_cancelled(token: &CancellationToken, record: &CancelRecord) -> (cancelled:
    bool)
    ensures
        flag_takes(*token, cancelled),
        record@.contains(*token) ==> cancelled,
{
    token.is_cancelled()
}

} // verus!
