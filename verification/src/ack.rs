//! When a processed message is deleted from its queue.
use vstd::prelude::*;

use rsmq_async::RsmqError;

use crate::context::RedisMqContext;
use crate::rsmq::{missing_parameter, rsmq_missing_parameter};
use crate::RedisMq;

verus! {

/// Whether a processed message is done with: it succeeded, or it has been
/// tried as many times as its context allows.
pub open spec fn is_done(succeeded: bool, attempt: usize, max_attempts: usize) -> bool {
    succeeded || attempt >= max_attempts
}

/// A message that succeeded is done with; a message that failed is done
/// with exactly when its attempts have reached the limit, so one with
/// attempts left is kept, to be tried again.
pub proof fn lemma_done_when(attempt: usize, max_attempts: usize)
    ensures
        is_done(true, attempt, max_attempts),
        is_done(false, attempt, max_attempts) <==> attempt >= max_attempts,
        attempt < max_attempts ==> !is_done(false, attempt, max_attempts),
{
}

/// The text of the error for a message that Redis no longer holds.
pub open spec fn task_not_found_text() -> Seq<char> {
    seq!['T', 'a', 's', 'k', 'I', 'd', ' ', 'n', 'o', 't', ' ', 'f', 'o', 'u', 'n', 'd']
}

/// A message to delete from a queue.
pub struct DeleteRequest {
    /// The queue.
    pub namespace: String,
    /// The message's id.
    pub task_id: String,
}

/// Acknowledges a processed message of the queue `namespace`: once it is
/// done with (it succeeded, or its attempts are used up) it is to be
/// deleted from the queue, else it stays, to be received again.
pub fn ack_request(
    namespace: &str,
    succeeded: bool,
    attempt: usize,
    ctx: &RedisMqContext,
    task_id: Option<&String>,
) -> (r: Option<DeleteRequest>)
    requires
        is_done(succeeded, attempt, ctx@.max_attempts) ==> task_id is Some,
    ensures
        r is Some <==> is_done(succeeded, attempt, ctx@.max_attempts),
        succeeded ==> r is Some,
        !succeeded && attempt >= ctx@.max_attempts ==> r is Some,
        !succeeded && attempt < ctx@.max_attempts ==> r is None,
        r matches Some(d) ==> {
            &&& d.namespace@ == namespace@
            &&& d.task_id@ == task_id.unwrap()@
        },
{
    if succeeded || attempt >= ctx.max_attempts() {
        let id = match task_id {
            Some(id) => id.clone(),
            None => {
                assert(false);
                String::new()
            },
        };
        Some(DeleteRequest { namespace: namespace.to_owned(), task_id: id })
    } else {
        None
    }
}

impl<T, C> RedisMq<T, C> {
    /// Acknowledges a processed message of this queue; see [`ack_request`].
    pub fn ack(
        &self,
        succeeded: bool,
        attempt: usize,
        ctx: &RedisMqContext,
        task_id: Option<&String>,
    ) -> (r: Option<DeleteRequest>)
        requires
            is_done(succeeded, attempt, ctx@.max_attempts) ==> task_id is Some,
        ensures
            r is Some <==> is_done(succeeded, attempt, ctx@.max_attempts),
            succeeded ==> r is Some,
            !succeeded && attempt >= ctx@.max_attempts ==> r is Some,
            !succeeded && attempt < ctx@.max_attempts ==> r is None,
            r matches Some(d) ==> {
                &&& d.namespace@ == self.config()@.namespace
                &&& d.task_id@ == task_id.unwrap()@
            },
    {
        ack_request(self.config().namespace(), succeeded, attempt, ctx, task_id)
    }
}

/// What deleting a message comes to: Redis's error is handed on, a deleted
/// message is success, and a message that Redis did not hold is the error
/// `MissingParameter("TaskId not found")`.
pub fn delete_outcome(deleted: Result<bool, RsmqError>) -> (r: Result<(), RsmqError>)
    ensures
        match deleted {
            Ok(true) => r == Ok::<(), RsmqError>(()),
            Ok(false) => r == Err::<(), RsmqError>(rsmq_missing_parameter(task_not_found_text())),
            Err(e) => r == Err::<(), RsmqError>(e),
        },
{
    match deleted {
        Ok(true) => Ok(()),
        Ok(false) => {
            let text = String::from_str("TaskId not found");
            proof {
                reveal_strlit("TaskId not found");
            }
            assert(text@ =~= task_not_found_text());
            Err(missing_parameter(text))
        },
        Err(e) => Err(e),
    }
}

} // verus!
