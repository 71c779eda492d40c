use vstd::prelude::*;

verus! {

/// The correlation queue of a multiplexed connection: the tickets of the
/// requests written to the socket whose responses have not yet arrived, in
/// write order.  Because a ticket joins the queue under the same lock that
/// guards its write, write order and queue order cannot diverge.
#[derive(Debug)]
pub struct PendingQueue {
    pub pending: Vec<u64>,
}

impl PendingQueue {
    pub fn new() -> (r: PendingQueue)
        ensures
            r.pending@ == Seq::<u64>::empty(),
    {
        PendingQueue { pending: Vec::new() }
    }

    /// A request frame was written: its reply ticket joins the back of the
    /// queue.
    pub fn enqueue(&mut self, ticket: u64)
        ensures
            final(self).pending@ == old(self).pending@.push(ticket),
    {
        self.pending.push(ticket);
    }

    /// A frame arrived.  A push frame is routed out of band and removes
    /// nothing from the queue; any other frame answers the request at the
    /// head, whose ticket leaves the queue.
    pub fn on_frame(&mut self, is_push: bool) -> (r: Option<u64>)
        ensures
            is_push ==> r is None && final(self).pending@ == old(self).pending@,
            !is_push && old(self).pending@.len() > 0 ==> r == Some(old(self).pending@[0])
                && final(self).pending@ == old(self).pending@.drop_first(),
            !is_push && old(self).pending@.len() == 0 ==> r is None
                && final(self).pending@ == old(self).pending@,
    {
        if is_push {
            None
        } else if self.pending.len() > 0 {
            let head = self.pending.remove(0);
            proof {
                assert(self.pending@ =~= old(self).pending@.drop_first());
            }
            Some(head)
        } else {
            None
        }
    }

    pub fn len(&self) -> (r: usize)
        ensures
            r == self.pending@.len(),
    {
        self.pending.len()
    }
}

/// The number of response frames (non-push frames) among `frames`.
pub open spec fn count_responses(frames: Seq<bool>) -> int
    decreases frames,
{
    if frames.len() == 0 {
        0int
    } else {
        count_responses(frames.drop_last()) + (if frames.last() {
            0int
        } else {
            1int
        })
    }
}

pub proof fn lemma_count_responses_bounds(frames: Seq<bool>)
    ensures
        0 <= count_responses(frames) <= frames.len(),
    decreases frames,
{
    if frames.len() > 0 {
        lemma_count_responses_bounds(frames.drop_last());
    }
}

proof fn lemma_count_responses_push(frames: Seq<bool>, f: bool)
    ensures
        count_responses(frames.push(f)) == count_responses(frames) + (if f {
            0int
        } else {
            1int
        }),
{
    assert(frames.push(f).drop_last() =~= frames);
    assert(frames.push(f).last() == f);
}

/// Responses are delivered in the order their requests were sent: with the
/// tickets of N requests enqueued in send order, processing any interleaving
/// of push frames and response frames delivers, to the k-th response frame,
/// exactly the k-th ticket.  Push frames deliver to no ticket.
pub fn deliver_in_order(tickets: Vec<u64>, frames: Vec<bool>) -> (r: Vec<u64>)
    ensures
        r@ == tickets@.take(
            if count_responses(frames@) <= tickets@.len() {
                count_responses(frames@)
            } else {
                tickets@.len() as int
            },
        ),
{
    let mut queue = PendingQueue::new();
    let mut i: usize = 0;
    proof {
        assert(queue.pending@ =~= tickets@.take(0));
    }
    while i < tickets.len()
        invariant
            i <= tickets@.len(),
            queue.pending@ == tickets@.take(i as int),
        decreases tickets@.len() - i,
    {
        queue.enqueue(tickets[i]);
        i = i + 1;
        proof {
            assert(queue.pending@ =~= tickets@.take(i as int));
        }
    }
    proof {
        assert(tickets@.take(tickets@.len() as int) =~= tickets@);
    }
    let mut delivered: Vec<u64> = Vec::new();
    let mut j: usize = 0;
    while j < frames.len()
        invariant
            j <= frames@.len(),
            0 <= count_responses(frames@.take(j as int)),
            delivered@ == tickets@.take(
                if count_responses(frames@.take(j as int)) <= tickets@.len() {
                    count_responses(frames@.take(j as int))
                } else {
                    tickets@.len() as int
                },
            ),
            queue.pending@ == tickets@.skip(
                if count_responses(frames@.take(j as int)) <= tickets@.len() {
                    count_responses(frames@.take(j as int))
                } else {
                    tickets@.len() as int
                },
            ),
        decreases frames@.len() - j,
    {
        let is_push = frames[j];
        let ghost done = count_responses(frames@.take(j as int));
        let ghost dcount: int = if done <= tickets@.len() {
            done
        } else {
            tickets@.len() as int
        };
        match queue.on_frame(is_push) {
            Some(t) => {
                delivered.push(t);
                proof {
                    assert(tickets@.skip(dcount)[0] == tickets@[dcount]);
                    assert(delivered@ =~= tickets@.take(dcount + 1));
                    assert(queue.pending@ =~= tickets@.skip(dcount + 1));
                }
            },
            None => {
            },
        }
        j = j + 1;
        proof {
            assert(frames@.take(j as int).drop_last() =~= frames@.take(j - 1));
            assert(frames@.take(j as int).last() == frames@[j - 1]);
            lemma_count_responses_push(frames@.take(j - 1), frames@[j - 1]);
            lemma_count_responses_bounds(frames@.take(j as int));
            if is_push {
                assert(delivered@ =~= tickets@.take(
                    if count_responses(frames@.take(j as int)) <= tickets@.len() {
                        count_responses(frames@.take(j as int))
                    } else {
                        tickets@.len() as int
                    },
                ));
            } else {
                if dcount < tickets@.len() {
                } else {
                    assert(tickets@.skip(dcount).len() == 0);
                }
            }
        }
    }
    proof {
        assert(frames@.take(frames@.len() as int) =~= frames@);
    }
    delivered
}

} // verus!
