//! The flow tag and the table of requests that wait for their response.
use vstd::prelude::*;
use crate::base::models::TransportHeader;

verus! {

/// The key by which a response finds the request it answers.
#[derive(Debug, Copy, Clone, PartialEq, Ord, PartialOrd, Eq, Structural)]
pub struct MsgFlowTag {
    pub dest_eid: u8,
    pub src_eid: u8,
    pub msg_tag: u8,
    pub tag_owner: bool,
}

impl Default for MsgFlowTag {
    fn default() -> (t: Self)
        ensures
            t == MsgFlowTag::spec_default(),
    {
        MsgFlowTag { dest_eid: 0, src_eid: 0, msg_tag: 0, tag_owner: false }
    }
}

impl MsgFlowTag {
    /// The tag with every field zero.
    pub open spec fn spec_default() -> Self {
        MsgFlowTag { dest_eid: 0, src_eid: 0, msg_tag: 0, tag_owner: false }
    }

    /// The tag of a packet with transport header `hdr`.
    pub open spec fn spec_of_header(hdr: TransportHeader) -> Self {
        MsgFlowTag {
            dest_eid: hdr.destination_eid,
            src_eid: hdr.source_eid,
            msg_tag: hdr.msg_tag(),
            tag_owner: hdr.tag_owner() != 0,
        }
    }

    /// The tag of a packet with transport header `hdr`.
    pub fn of_header(hdr: &TransportHeader) -> (t: Self)
        ensures
            t == Self::spec_of_header(*hdr),
    {
        MsgFlowTag {
            dest_eid: hdr.destination_eid,
            src_eid: hdr.source_eid,
            msg_tag: hdr.msg_tag(),
            tag_owner: hdr.tag_owner() != 0,
        }
    }

    /// The tag of the response to a request with tag `self`: endpoints swapped, same
    /// message tag, tag-owner bit inverted.
    pub open spec fn response(self) -> Self {
        MsgFlowTag {
            dest_eid: self.src_eid,
            src_eid: self.dest_eid,
            msg_tag: self.msg_tag,
            tag_owner: !self.tag_owner,
        }
    }

    /// Whether a packet with tag `received` answers the request stored under `self`:
    /// same message tag, opposite tag-owner bit, and sent by the endpoint that the
    /// request went to.
    pub open spec fn spec_matches(self, received: MsgFlowTag) -> bool {
        &&& self.msg_tag == received.msg_tag
        &&& self.tag_owner != received.tag_owner
        &&& self.dest_eid == received.src_eid
    }

    /// Executable form of [`MsgFlowTag::spec_matches`].
    #[verifier::when_used_as_spec(spec_matches)]
    pub fn matches(self, received: MsgFlowTag) -> (b: bool)
        ensures
            b == self.spec_matches(received),
    {
        self.msg_tag == received.msg_tag && self.tag_owner != received.tag_owner && self.dest_eid
            == received.src_eid
    }
}

/// Index of the first entry of `flows` that `received` answers; `flows.len()` if there is none.
pub open spec fn first_match<W>(flows: Seq<(MsgFlowTag, W)>, received: MsgFlowTag) -> int
    decreases flows.len(),
{
    if flows.len() == 0 {
        0
    } else if flows[0].0.matches(received) {
        0
    } else {
        1 + first_match(flows.skip(1), received)
    }
}

/// The table after `received` has taken its match out; unchanged if nothing matches.
pub open spec fn without_match<W>(flows: Seq<(MsgFlowTag, W)>, received: MsgFlowTag) -> Seq<
    (MsgFlowTag, W),
> {
    let i = first_match(flows, received);
    if i < flows.len() {
        flows.remove(i)
    } else {
        flows
    }
}

/// The waiter that `received` wakes, if any.
pub open spec fn matched_waiter<W>(flows: Seq<(MsgFlowTag, W)>, received: MsgFlowTag) -> Option<
    W,
> {
    let i = first_match(flows, received);
    if i < flows.len() {
        Some(flows[i].1)
    } else {
        None
    }
}

/// Whether some entry of `flows` is stored under `tag`.
pub open spec fn has_tag<W>(flows: Seq<(MsgFlowTag, W)>, tag: MsgFlowTag) -> bool {
    exists|i: int| 0 <= i < flows.len() && (#[trigger] flows[i]).0 == tag
}

/// Whether no two entries of `flows` are stored under the same tag.
pub open spec fn no_duplicate_tags<W>(flows: Seq<(MsgFlowTag, W)>) -> bool {
    forall|a: int, b: int|
        0 <= a < b < flows.len() ==> (#[trigger] flows[a]).0 != (#[trigger] flows[b]).0
}

/// Whether no two entries of `flows` have the same message tag.
pub open spec fn distinct_msg_tags<W>(flows: Seq<(MsgFlowTag, W)>) -> bool {
    forall|a: int, b: int|
        0 <= a < b < flows.len() ==> (#[trigger] flows[a]).0.msg_tag
            != (#[trigger] flows[b]).0.msg_tag
}

/// `first_match` is the least index that matches.
pub proof fn lemma_first_match<W>(flows: Seq<(MsgFlowTag, W)>, received: MsgFlowTag)
    ensures
        0 <= first_match(flows, received) <= flows.len(),
        first_match(flows, received) < flows.len() ==> flows[first_match(
            flows,
            received,
        )].0.matches(received),
        forall|j: int|
            0 <= j < first_match(flows, received) ==> !(#[trigger] flows[j]).0.matches(received),
    decreases flows.len(),
{
    if flows.len() > 0 && !flows[0].0.matches(received) {
        let rest = flows.skip(1);
        lemma_first_match(rest, received);
        assert forall|j: int| 0 <= j < first_match(flows, received) implies !(
        #[trigger] flows[j]).0.matches(received) by {
            if j > 0 {
                assert(flows[j] == rest[j - 1]);
            }
        }
    }
}

/// An index that matches, with no match before it, is `first_match`.
pub proof fn lemma_first_match_is<W>(flows: Seq<(MsgFlowTag, W)>, received: MsgFlowTag, i: int)
    requires
        0 <= i <= flows.len(),
        i < flows.len() ==> flows[i].0.matches(received),
        forall|j: int| 0 <= j < i ==> !(#[trigger] flows[j]).0.matches(received),
    ensures
        first_match(flows, received) == i,
{
    lemma_first_match(flows, received);
    let k = first_match(flows, received);
    if k < i {
        assert(!flows[k].0.matches(received));
    }
}

/// The requests that wait for their response, in the order in which they were sent.
#[derive(Debug)]
pub struct FlowTable<W> {
    pub flows: Vec<(MsgFlowTag, W)>,
}

impl<W> View for FlowTable<W> {
    type V = Seq<(MsgFlowTag, W)>;

    open spec fn view(&self) -> Seq<(MsgFlowTag, W)> {
        self.flows@
    }
}

impl<W> FlowTable<W> {
    /// An empty table.
    pub fn new() -> (t: Self)
        ensures
            t@ == Seq::<(MsgFlowTag, W)>::empty(),
    {
        FlowTable { flows: Vec::new() }
    }

    /// Number of requests that wait.
    pub fn len(&self) -> (n: usize)
        ensures
            n == self@.len(),
    {
        self.flows.len()
    }

    /// Whether no request waits.
    pub fn is_empty(&self) -> (b: bool)
        ensures
            b == (self@.len() == 0),
    {
        self.flows.len() == 0
    }

    /// Whether a request waits under exactly this tag. A sender that asks before it
    /// inserts keeps the table free of duplicate tags.
    pub fn contains_tag(&self, tag: MsgFlowTag) -> (b: bool)
        ensures
            b == has_tag(self@, tag),
    {
        let mut index: usize = 0;
        while index < self.flows.len()
            invariant
                index <= self.flows.len(),
                forall|j: int| 0 <= j < index ==> (#[trigger] self.flows@[j]).0 != tag,
            decreases self.flows.len() - index,
        {
            if self.flows[index].0 == tag {
                return true;
            }
            index = index + 1;
        }
        false
    }

    /// Appends a request. Tags that are already in the table are not refused: a response
    /// then wakes the request that was sent first.
    pub fn insert(&mut self, tag: MsgFlowTag, waiter: W)
        ensures
            final(self)@ == old(self)@.push((tag, waiter)),
    {
        self.flows.push((tag, waiter));
    }

    /// Takes out the first request that `received` answers and hands back its waiter.
    pub fn take_match(&mut self, received: MsgFlowTag) -> (r: Option<W>)
        ensures
            r == matched_waiter(old(self)@, received),
            final(self)@ == without_match(old(self)@, received),
    {
        let mut index: usize = 0;
        while index < self.flows.len()
            invariant
                index <= self.flows.len(),
                self.flows == old(self).flows,
                forall|j: int| 0 <= j < index ==> !(#[trigger] self.flows@[j]).0.matches(received),
            decreases self.flows.len() - index,
        {
            if self.flows[index].0.matches(received) {
                proof {
                    lemma_first_match_is(self.flows@, received, index as int);
                }
                let (_, waiter) = self.flows.remove(index);
                return Some(waiter);
            }
            index = index + 1;
        }
        proof {
            lemma_first_match_is(self.flows@, received, index as int);
        }
        None
    }
}

} // verus!
