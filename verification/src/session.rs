use vstd::prelude::*;
use crate::cursor::{clone_token, token_matches};
use crate::error::{OrientError, OrientResult};
use crate::request::Close;

verus! {

/// An opened database session: its id, the opaque token the server issued,
/// and whether teardown is deferred to a pool.  The id and token never
/// change after the open, so a session is safely shared.
#[derive(Debug)]
pub struct OSession {
    pub client_id: i32,
    pub session_id: i32,
    pub token: Option<Vec<u8>>,
    pub pooled: bool,
}

impl OSession {
    pub fn new(client_id: i32, session_id: i32, token: Option<Vec<u8>>, pooled: bool) -> (r:
        OSession)
        ensures
            r.client_id == client_id,
            r.session_id == session_id,
            r.token == token,
            r.pooled == pooled,
    {
        OSession { client_id, session_id, token, pooled }
    }

    /// What closing the session must send: a pooled session sends nothing
    /// (the pool reclaims it); a non-pooled session sends exactly one Close.
    /// The frame carries the cleared header, as the session is forgotten
    /// before the wire write.
    pub fn close_action(&self) -> (r: Option<Close>)
        ensures
            self.pooled ==> r is None,
            !self.pooled ==> (r matches Some(c) && c.session_id == -1i32 && c.token is None),
    {
        if self.pooled {
            None
        } else {
            Some(Close::new(-1, None))
        }
    }

    /// The header every request of this session carries.
    pub fn header(&self) -> (r: (i32, Option<Vec<u8>>))
        ensures
            r.0 == self.session_id,
            token_matches(&self.token, &r.1),
    {
        (self.session_id, clone_token(&self.token))
    }
}

/// Whether a failed attempt is re-dispatched: only a server-reported request
/// error with code 3 is, and only while budget is left.
pub fn retry_should_retry(e: &OrientError, remaining: u32) -> (r: bool)
    ensures
        r == (remaining > 0 && e.is_retryable()),
{
    match e {
        OrientError::Request(re) => remaining > 0 && re.code == 3,
        _ => false,
    }
}

/// Whether an attempt outcome is a retry-eligible failure.
pub open spec fn outcome_retryable<T>(outcome: &OrientResult<T>) -> bool {
    match outcome {
        Err(e) => e.is_retryable(),
        Ok(_) => false,
    }
}

/// How many attempts the retry combinator makes over the given outcome
/// sequence with the given retry budget: it stops at the first outcome that
/// is a success or a non-retryable failure, and a retry-eligible failure
/// consumes one unit of budget until none is left.
pub open spec fn retry_attempts<T>(outcomes: Seq<OrientResult<T>>, budget: int) -> int
    decreases outcomes,
{
    if outcomes.len() == 0 {
        0int
    } else if outcome_retryable(&outcomes[0]) && budget > 0 {
        1 + retry_attempts(outcomes.drop_first(), budget - 1)
    } else {
        1int
    }
}

/// The retry combinator calls its work at most budget + 1 times.
pub proof fn lemma_retry_at_most<T>(outcomes: Seq<OrientResult<T>>, budget: int)
    requires
        outcomes.len() >= budget + 1,
        budget >= 0,
    ensures
        1 <= retry_attempts(outcomes, budget) <= budget + 1,
    decreases outcomes,
{
    if outcomes.len() > 0 && outcome_retryable(&outcomes[0]) && budget > 0 {
        lemma_retry_at_most(outcomes.drop_first(), budget - 1);
    }
}

/// The retry combinator makes exactly budget + 1 attempts precisely when
/// the first budget attempts all fail with the retry-eligible error.
pub proof fn lemma_retry_exactly<T>(outcomes: Seq<OrientResult<T>>, budget: int)
    requires
        outcomes.len() >= budget + 1,
        budget >= 0,
    ensures
        (retry_attempts(outcomes, budget) == budget + 1) <==> (forall|i: int|
            0 <= i < budget ==> outcome_retryable(&outcomes[i])),
    decreases budget,
{
    lemma_retry_at_most(outcomes, budget);
    if budget > 0 {
        if outcome_retryable(&outcomes[0]) {
            lemma_retry_exactly(outcomes.drop_first(), budget - 1);
            assert forall|i: int| 0 <= i < budget - 1 implies outcomes.drop_first()[i]
                == outcomes[i + 1] by {}
            if retry_attempts(outcomes, budget) == budget + 1 {
                assert forall|i: int| 0 <= i < budget implies outcome_retryable(
                    &outcomes[i],
                ) by {
                    if i > 0 {
                        assert(outcome_retryable(&outcomes.drop_first()[i - 1]));
                    }
                }
            }
            if forall|i: int| 0 <= i < budget ==> outcome_retryable(&outcomes[i]) {
                assert forall|i: int| 0 <= i < budget - 1 implies outcome_retryable(
                    &outcomes.drop_first()[i],
                ) by {
                    assert(outcome_retryable(&outcomes[i + 1]));
                }
            }
        }
    }
}

/// Run the retry discipline over a pre-decided sequence of attempt
/// outcomes: each call of the work yields the next outcome.  Returns the
/// surfaced result and how many attempts were made.  A retry budget of
/// zero is a caller error.
pub fn run_attempts<T>(retry: u32, outcomes: Vec<OrientResult<T>>) -> (r: (OrientResult<T>, usize))
    requires
        retry >= 1,
        outcomes@.len() >= retry + 1,
    ensures
        r.1 == retry_attempts(outcomes@, retry as int),
        1 <= r.1 <= retry + 1,
        r.0 == outcomes@[r.1 - 1],
{
    proof {
        lemma_retry_at_most(outcomes@, retry as int);
        assert(outcomes@.skip(0) =~= outcomes@);
    }
    let ghost all = outcomes@;
    let total: usize = outcomes.len();
    let mut rest = outcomes;
    let mut remaining: u32 = retry;
    let mut attempts: usize = 0;
    loop
        invariant
            all == outcomes@,
            remaining <= retry,
            attempts == retry - remaining,
            attempts + rest@.len() == all.len(),
            all.len() == total,
            all.len() >= retry + 1,
            rest@ == all.skip(attempts as int),
            retry_attempts(all, retry as int) == attempts + retry_attempts(
                rest@,
                remaining as int,
            ),
            attempts < all.len(),
        decreases rest@.len(),
    {
        proof {
            assert(rest@[0] == all[attempts as int]);
        }
        let outcome = rest.remove(0);
        proof {
            assert(rest@ =~= all.skip(attempts + 1));
        }
        match outcome {
            Ok(v) => {
                proof {
                    let prev = all.skip(attempts as int);
                    assert(prev[0] == all[attempts as int]);
                    assert(!outcome_retryable(&prev[0]));
                    assert(retry_attempts(prev, remaining as int) == 1);
                }
                return (Ok(v), attempts + 1);
            },
            Err(e) => {
                if retry_should_retry(&e, remaining) {
                    remaining = remaining - 1;
                    attempts = attempts + 1;
                    proof {
                        lemma_retry_at_most(rest@, remaining as int);
                    }
                } else {
                    proof {
                        let prev = all.skip(attempts as int);
                        assert(prev[0] == all[attempts as int]);
                        assert(!(outcome_retryable(&prev[0]) && remaining > 0));
                        assert(retry_attempts(prev, remaining as int) == 1);
                    }
                    return (Err(e), attempts + 1);
                }
            },
        }
    }
}

} // verus!
