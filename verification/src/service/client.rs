//! The client's side of a service: which of the replies that arrive answers a
//! given request.

use vstd::prelude::*;

use crate::service::request_id::RmwRequestId;

verus! {

/// What one look at the reply channel brought.
#[derive(Debug)]
pub enum Polled<T> {
    /// The awaited item.
    Ready(T),
    /// Nothing has arrived yet.
    Pending,
    /// Something arrived that was meant for someone else. It is dropped;
    /// look again.
    Skipped,
}

/// What a caller waiting for the reply to `req_id` makes of one look at the
/// reply channel.
pub open spec fn spec_correlate<T>(req_id: RmwRequestId, incoming: Option<(RmwRequestId, T)>) -> Polled<T> {
    match incoming {
        None => Polled::Pending,
        Some((id, response)) => if id == req_id {
            Polled::Ready(response)
        } else {
            Polled::Skipped
        },
    }
}

/// What a caller that looks at `arrivals` one by one ends up with: the
/// earliest reply to `req_id`, or nothing once the replies have run out.
pub open spec fn first_reply<T>(req_id: RmwRequestId, arrivals: Seq<(RmwRequestId, T)>) -> Option<T>
    decreases arrivals.len(),
{
    if arrivals.len() == 0 {
        None
    } else {
        match spec_correlate(req_id, Some(arrivals[0])) {
            Polled::Ready(response) => Some(response),
            _ => first_reply(req_id, arrivals.drop_first()),
        }
    }
}

/// Decides what a reply just taken from the channel means to the caller that
/// waits for the reply to `req_id`: it is the awaited one, or nothing came, or
/// it belongs to another request and is dropped.
pub fn correlate<T>(req_id: RmwRequestId, incoming: Option<(RmwRequestId, T)>) -> (polled: Polled<T>)
    ensures
        polled == spec_correlate(req_id, incoming),
{
    match incoming {
        None => Polled::Pending,
        Some((id, response)) => if id == req_id {
            Polled::Ready(response)
        } else {
            Polled::Skipped
        },
    }
}

/// Looking one by one finds a reply exactly if one with the awaited id has
/// arrived, and then it is the earliest such reply: every reply before it
/// carries another id.
pub proof fn lemma_first_reply_is_earliest<T>(req_id: RmwRequestId, arrivals: Seq<(RmwRequestId, T)>)
    ensures
        first_reply(req_id, arrivals) is None <==> forall|i: int|
            0 <= i < arrivals.len() ==> (#[trigger] arrivals[i]).0 != req_id,
        first_reply(req_id, arrivals) matches Some(response) ==> exists|i: int|
            0 <= i < arrivals.len() && #[trigger] arrivals[i] == (req_id, response) && forall|j: int|
                0 <= j < i ==> (#[trigger] arrivals[j]).0 != req_id,
    decreases arrivals.len(),
{
    if arrivals.len() > 0 {
        let rest = arrivals.drop_first();
        lemma_first_reply_is_earliest(req_id, rest);
        assert(forall|i: int| 0 <= i < rest.len() ==> rest[i] == arrivals[i + 1]);
        if arrivals[0].0 == req_id {
            assert(arrivals[0] == (req_id, arrivals[0].1));
        } else {
            if first_reply(req_id, arrivals) is None {
                assert forall|i: int| 0 <= i < arrivals.len() implies (#[trigger] arrivals[i]).0
                    != req_id by {
                    if i > 0 {
                        assert(rest[i - 1] == arrivals[i]);
                    }
                }
            } else {
                let response = first_reply(req_id, rest)->0;
                let k = choose|i: int|
                    0 <= i < rest.len() && #[trigger] rest[i] == (req_id, response) && forall|j: int|
                        0 <= j < i ==> (#[trigger] rest[j]).0 != req_id;
                assert(arrivals[k + 1] == (req_id, response));
                assert forall|j: int| 0 <= j < k + 1 implies (#[trigger] arrivals[j]).0
                    != req_id by {
                    if j > 0 {
                        assert(rest[j - 1] == arrivals[j]);
                    }
                }
            }
        }
    }
}

} // verus!
