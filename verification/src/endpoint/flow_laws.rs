//! What holds of the flow table over whole runs of requests and responses.
use vstd::prelude::*;
use crate::endpoint::types::{
    distinct_msg_tags, first_match, has_tag, lemma_first_match, lemma_first_match_is,
    matched_waiter, no_duplicate_tags, without_match, MsgFlowTag,
};

verus! {

/// The waiters woken by the packets `received`, handled one after the other, and the
/// table that is left.
pub open spec fn deliver_all<W>(flows: Seq<(MsgFlowTag, W)>, received: Seq<MsgFlowTag>) -> (
    Seq<Option<W>>,
    Seq<(MsgFlowTag, W)>,
)
    decreases received.len(),
{
    if received.len() == 0 {
        (Seq::empty(), flows)
    } else {
        let rest = deliver_all(without_match(flows, received[0]), received.skip(1));
        (seq![matched_waiter(flows, received[0])] + rest.0, rest.1)
    }
}

/// The table after each of `requests` was inserted and then answered, one request after
/// the other.
pub open spec fn round_trips<W>(flows: Seq<(MsgFlowTag, W)>, requests: Seq<(MsgFlowTag, W)>) -> Seq<
    (MsgFlowTag, W),
>
    decreases requests.len(),
{
    if requests.len() == 0 {
        flows
    } else {
        round_trips(
            without_match(flows.push(requests[0]), requests[0].0.response()),
            requests.skip(1),
        )
    }
}

/// A table without duplicate tags stays so when a request is inserted under a tag
/// that is not in it.
pub proof fn lemma_insert_keeps_tags_unique<W>(
    flows: Seq<(MsgFlowTag, W)>,
    tag: MsgFlowTag,
    waiter: W,
)
    requires
        no_duplicate_tags(flows),
        !has_tag(flows, tag),
    ensures
        no_duplicate_tags(flows.push((tag, waiter))),
{
    let more = flows.push((tag, waiter));
    assert forall|a: int, b: int| 0 <= a < b < more.len() implies (#[trigger] more[a]).0 != (
    #[trigger] more[b]).0 by {
        if b == flows.len() {
            assert(flows[a].0 != tag);
        } else {
            assert(more[a] == flows[a] && more[b] == flows[b]);
        }
    }
}

/// A table without duplicate tags stays so when a received packet takes its match out.
pub proof fn lemma_take_keeps_tags_unique<W>(flows: Seq<(MsgFlowTag, W)>, received: MsgFlowTag)
    requires
        no_duplicate_tags(flows),
    ensures
        no_duplicate_tags(without_match(flows, received)),
{
    lemma_first_match(flows, received);
    let i = first_match(flows, received);
    if i < flows.len() {
        let less = flows.remove(i);
        assert forall|a: int, b: int| 0 <= a < b < less.len() implies (#[trigger] less[a]).0 != (
        #[trigger] less[b]).0 by {
            let a2 = if a < i {
                a
            } else {
                a + 1
            };
            let b2 = if b < i {
                b
            } else {
                b + 1
            };
            assert(less[a] == flows[a2]);
            assert(less[b] == flows[b2]);
        }
    }
}

/// The response to a request matches the request.
pub proof fn lemma_response_matches(tag: MsgFlowTag)
    ensures
        tag.matches(tag.response()),
{
}

/// A request that is inserted and then answered leaves the table as large as it was.
pub proof fn lemma_round_trip_restores_len<W>(
    flows: Seq<(MsgFlowTag, W)>,
    tag: MsgFlowTag,
    waiter: W,
)
    ensures
        without_match(flows.push((tag, waiter)), tag.response()).len() == flows.len(),
        matched_waiter(flows.push((tag, waiter)), tag.response()) is Some,
{
    let after = flows.push((tag, waiter));
    lemma_first_match(after, tag.response());
    let i = first_match(after, tag.response());
    if i == after.len() {
        assert(after[flows.len() as int].0.matches(tag.response()));
    }
}

/// After any number of requests, each issued and completed in turn, the table is as
/// large as it was at the start.
pub proof fn lemma_round_trips_restore_len<W>(
    flows: Seq<(MsgFlowTag, W)>,
    requests: Seq<(MsgFlowTag, W)>,
)
    ensures
        round_trips(flows, requests).len() == flows.len(),
    decreases requests.len(),
{
    if requests.len() > 0 {
        lemma_round_trip_restores_len(flows, requests[0].0, requests[0].1);
        assert(flows.push(requests[0]) == flows.push((requests[0].0, requests[0].1)));
        lemma_round_trips_restore_len(
            without_match(flows.push(requests[0]), requests[0].0.response()),
            requests.skip(1),
        );
    }
}

/// Among requests with pairwise distinct message tags, the response to a request wakes
/// that request and no other.
pub proof fn lemma_distinct_tags_wake_own<W>(flows: Seq<(MsgFlowTag, W)>, i: int)
    requires
        distinct_msg_tags(flows),
        0 <= i < flows.len(),
    ensures
        first_match(flows, flows[i].0.response()) == i,
        matched_waiter(flows, flows[i].0.response()) == Some(flows[i].1),
        without_match(flows, flows[i].0.response()) == flows.remove(i),
{
    let received = flows[i].0.response();
    assert forall|j: int| 0 <= j < i implies !(#[trigger] flows[j]).0.matches(received) by {
        assert(flows[j].0.msg_tag != flows[i].0.msg_tag);
    }
    lemma_first_match_is(flows, received, i);
}

/// Taking an entry out of the table changes nothing for a packet that the entry does
/// not match.
pub proof fn lemma_remove_other_keeps_match<W>(
    flows: Seq<(MsgFlowTag, W)>,
    i: int,
    received: MsgFlowTag,
)
    requires
        0 <= i < flows.len(),
        !flows[i].0.matches(received),
    ensures
        matched_waiter(flows.remove(i), received) == matched_waiter(flows, received),
{
    lemma_first_match(flows, received);
    let k = first_match(flows, received);
    let less = flows.remove(i);
    let k2 = if k < i {
        k
    } else {
        k - 1
    };
    assert forall|j: int| 0 <= j < k2 implies !(#[trigger] less[j]).0.matches(received) by {
        if j < i {
            assert(less[j] == flows[j]);
        } else {
            assert(less[j] == flows[j + 1]);
        }
    }
    lemma_first_match_is(less, received, k2);
}

/// Taking an entry out of the table leaves the message tags pairwise distinct.
pub proof fn lemma_remove_keeps_distinct<W>(flows: Seq<(MsgFlowTag, W)>, i: int)
    requires
        distinct_msg_tags(flows),
        0 <= i < flows.len(),
    ensures
        distinct_msg_tags(flows.remove(i)),
{
    let less = flows.remove(i);
    assert forall|a: int, b: int| 0 <= a < b < less.len() implies (#[trigger] less[a]).0.msg_tag
        != (#[trigger] less[b]).0.msg_tag by {
        let a2 = if a < i {
            a
        } else {
            a + 1
        };
        let b2 = if b < i {
            b
        } else {
            b + 1
        };
        assert(less[a] == flows[a2]);
        assert(less[b] == flows[b2]);
    }
}

/// With pairwise distinct message tags in the table and among the packets, every
/// packet wakes the waiter it would have woken had it come first: the order in which
/// the packets come makes no difference. If every packet has a match, the table
/// shrinks by the number of packets.
pub proof fn lemma_order_makes_no_difference<W>(
    flows: Seq<(MsgFlowTag, W)>,
    received: Seq<MsgFlowTag>,
)
    requires
        distinct_msg_tags(flows),
        forall|a: int, b: int|
            0 <= a < b < received.len() ==> (#[trigger] received[a]).msg_tag != (
            #[trigger] received[b]).msg_tag,
    ensures
        deliver_all(flows, received).0.len() == received.len(),
        forall|k: int|
            0 <= k < received.len() ==> (#[trigger] deliver_all(flows, received).0[k])
                == matched_waiter(flows, received[k]),
        (forall|k: int|
            0 <= k < received.len() ==> (#[trigger] matched_waiter(flows, received[k])) is Some)
            ==> deliver_all(flows, received).1.len() == flows.len() - received.len(),
    decreases received.len(),
{
    if received.len() > 0 {
        let first = received[0];
        let later = received.skip(1);
        let left = without_match(flows, first);
        lemma_first_match(flows, first);
        let i = first_match(flows, first);
        if i < flows.len() {
            lemma_remove_keeps_distinct(flows, i);
        }
        assert forall|a: int, b: int| 0 <= a < b < later.len() implies (
        #[trigger] later[a]).msg_tag != (#[trigger] later[b]).msg_tag by {
            assert(later[a] == received[a + 1]);
            assert(later[b] == received[b + 1]);
        }
        lemma_order_makes_no_difference(left, later);
        assert forall|k: int| 0 <= k < later.len() implies matched_waiter(left, #[trigger] later[k])
            == matched_waiter(flows, later[k]) by {
            assert(later[k] == received[k + 1]);
            assert(received[0].msg_tag != received[k + 1].msg_tag);
            if i < flows.len() {
                lemma_remove_other_keeps_match(flows, i, later[k]);
            }
        }
        let all = deliver_all(flows, received);
        let rest = deliver_all(left, later);
        assert forall|k: int| 0 <= k < received.len() implies (#[trigger] all.0[k])
            == matched_waiter(flows, received[k]) by {
            if k > 0 {
                assert(all.0[k] == rest.0[k - 1]);
                assert(later[k - 1] == received[k]);
            }
        }
        if forall|k: int|
            0 <= k < received.len() ==> (#[trigger] matched_waiter(flows, received[k])) is Some {
            assert(matched_waiter(flows, received[0]) is Some);
            assert forall|k: int| 0 <= k < later.len() implies (#[trigger] matched_waiter(
                left,
                later[k],
            )) is Some by {
                assert(later[k] == received[k + 1]);
                assert(matched_waiter(flows, received[k + 1]) is Some);
            }
        }
    }
}

/// Requests with pairwise distinct message tags, answered in any order `order`, each
/// wake their own waiter; and once all of them are answered the table is empty.
pub proof fn lemma_each_request_gets_its_own_response<W>(
    flows: Seq<(MsgFlowTag, W)>,
    order: Seq<int>,
)
    requires
        distinct_msg_tags(flows),
        forall|k: int| 0 <= k < order.len() ==> 0 <= #[trigger] order[k] < flows.len(),
        forall|a: int, b: int|
            0 <= a < b < order.len() ==> #[trigger] order[a] != #[trigger] order[b],
    ensures
        ({
            let responses = Seq::new(order.len(), |k: int| flows[order[k]].0.response());
            let outcome = deliver_all(flows, responses);
            &&& outcome.0.len() == order.len()
            &&& forall|k: int|
                0 <= k < order.len() ==> (#[trigger] outcome.0[k]) == Some(flows[order[k]].1)
            &&& outcome.1.len() == flows.len() - order.len()
        }),
{
    let responses = Seq::new(order.len(), |k: int| flows[order[k]].0.response());
    assert forall|a: int, b: int| 0 <= a < b < responses.len() implies (
    #[trigger] responses[a]).msg_tag != (#[trigger] responses[b]).msg_tag by {
        let x = order[a];
        let y = order[b];
        if x < y {
            assert(flows[x].0.msg_tag != flows[y].0.msg_tag);
        } else {
            assert(flows[y].0.msg_tag != flows[x].0.msg_tag);
        }
    }
    assert forall|k: int| 0 <= k < responses.len() implies (#[trigger] matched_waiter(
        flows,
        responses[k],
    )) == Some(flows[order[k]].1) by {
        lemma_distinct_tags_wake_own(flows, order[k]);
    }
    lemma_order_makes_no_difference(flows, responses);
}

} // verus!
