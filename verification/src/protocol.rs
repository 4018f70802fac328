//! The update protocol: an inbound edit either replaces a whole document
//! or appends one tagged block. The edit is validated against the closed
//! block and input-kind sets first; a malformed edit is rejected before
//! any store write. The path identity is authoritative: an identity
//! embedded in a replace body is never used for addressing.

use vstd::prelude::*;

use crate::blocks::{spec_block_from_tagged, Block};
use crate::errors::{StoreError, StoreErrorV, UpdateError, UpdateErrorV, ValidationErrorV};
use crate::post::{spec_parse_post, Post, RawBlock, RawBlockV, RawPost, RawPostV};
use crate::store::{contains_id, idx_of, Store};

verus! {

/// An inbound edit: a full document representation, or one tagged block
/// payload to append.
#[derive(Debug)]
pub enum EditRequest {
    Replace(RawPost),
    Append(RawBlock),
}

/// Mathematical image of an `EditRequest`.
pub enum EditRequestV {
    Replace(RawPostV),
    Append(RawBlockV),
}

impl View for EditRequest {
    type V = EditRequestV;

    open spec fn view(&self) -> EditRequestV {
        match self {
            EditRequest::Replace(raw) => EditRequestV::Replace(raw@),
            EditRequest::Append(raw) => EditRequestV::Append(raw@),
        }
    }
}

/// A bounded retry policy for store writes: at most `max_attempts`
/// tries of one operation in all.
#[derive(Clone, Copy, Debug)]
pub struct RetryPolicy {
    pub max_attempts: u32,
}

/// Whether a failed store write is worth another try under the policy.
/// Only a transient store fault is: a validation error would fail again
/// identically, a missing document stays missing, and a rejected write
/// was refused on its content. `attempts` counts the tries already made.
pub open spec fn spec_should_retry(policy: RetryPolicy, attempts: u32, err: UpdateErrorV) -> bool {
    &&& attempts < policy.max_attempts
    &&& err matches UpdateErrorV::Store(StoreErrorV::Unavailable(_))
}

/// Decides whether to retry a failed store write: a transient store
/// fault is retried until the policy's attempt bound is reached; a
/// validation error is never retried.
pub fn should_retry(policy: RetryPolicy, attempts: u32, err: &UpdateError) -> (r: bool)
    ensures
        r == spec_should_retry(policy, attempts, err@),
{
    if attempts >= policy.max_attempts {
        return false;
    }
    match err {
        UpdateError::Store(StoreError::Unavailable(_)) => true,
        _ => false,
    }
}

/// A validation error is never retried, whatever the policy and however
/// few tries were made.
pub proof fn lemma_no_retry_on_validation_error(
    policy: RetryPolicy,
    attempts: u32,
    err: ValidationErrorV,
)
    ensures
        !spec_should_retry(policy, attempts, UpdateErrorV::Validation(err)),
{
}

/// Applies one inbound edit to the addressed document. The edit is
/// validated first and rejected, with nothing written, if its block tag
/// or an input kind lies outside the closed sets; a valid edit against
/// an absent identity fails with `NotFound`, also writing nothing; a
/// valid edit against a present identity performs the replace or the
/// append exactly as the store operations state.
pub fn apply_edit(store: &mut Store, id: u64, req: &EditRequest) -> (res: Result<
    Post,
    UpdateError,
>)
    requires
        old(store).wf(),
    ensures
        final(store).wf(),
        final(store)@.next_id == old(store)@.next_id,
        match req@ {
            EditRequestV::Replace(raw) => match spec_parse_post(raw) {
                Ok(pv) => match res {
                    Ok(p) => {
                        &&& contains_id(old(store)@.docs, id)
                        &&& p@.id == Some(id)
                        &&& p@.title == pv.title
                        &&& p@.blocks == pv.blocks
                        &&& final(store)@.docs == old(store)@.docs.update(
                            idx_of(old(store)@.docs, id),
                            p@,
                        )
                    },
                    Err(e) => {
                        &&& e@ == UpdateErrorV::Store(StoreErrorV::NotFound)
                        &&& !contains_id(old(store)@.docs, id)
                        &&& final(store)@ == old(store)@
                    },
                },
                Err(ev) => {
                    &&& res matches Err(e) && e@ == UpdateErrorV::Validation(ev)
                    &&& final(store)@ == old(store)@
                },
            },
            EditRequestV::Append(rb) => match spec_block_from_tagged(rb.block_type, rb.block_data) {
                Ok(bv) => match res {
                    Ok(p) => {
                        &&& contains_id(old(store)@.docs, id)
                        &&& p@.id == Some(id)
                        &&& p@.title == old(store)@.docs[idx_of(old(store)@.docs, id)].title
                        &&& p@.blocks == old(store)@.docs[idx_of(
                            old(store)@.docs,
                            id,
                        )].blocks.push(bv)
                        &&& final(store)@.docs == old(store)@.docs.update(
                            idx_of(old(store)@.docs, id),
                            p@,
                        )
                    },
                    Err(e) => {
                        &&& e@ == UpdateErrorV::Store(StoreErrorV::NotFound)
                        &&& !contains_id(old(store)@.docs, id)
                        &&& final(store)@ == old(store)@
                    },
                },
                Err(ev) => {
                    &&& res matches Err(e) && e@ == UpdateErrorV::Validation(ev)
                    &&& final(store)@ == old(store)@
                },
            },
        },
{
    match req {
        EditRequest::Replace(raw) => match Post::parse_raw(raw) {
            Ok(p) => match store.replace(id, &p) {
                Ok(stored) => Ok(stored),
                Err(se) => Err(UpdateError::Store(se)),
            },
            Err(ve) => Err(UpdateError::Validation(ve)),
        },
        EditRequest::Append(rb) => match Block::from_tagged_payload(
            rb.block_type.as_str(),
            &rb.block_data,
        ) {
            Ok(b) => match store.append_block(id, b) {
                Ok(stored) => Ok(stored),
                Err(se) => Err(UpdateError::Store(se)),
            },
            Err(ve) => Err(UpdateError::Validation(ve)),
        },
    }
}

} // verus!
