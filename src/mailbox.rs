use vstd::prelude::*;

use crate::process::ProcessId;
use crate::tag::{issues, Tag, TagGenerator};

verus! {

/// A reply to a request, carrying the tag the request was sent with.
#[derive(Debug)]
pub struct Reply<M> {
    pub tag: Tag,
    pub payload: M,
}

/// What a server receives: a message expects no answer, a request expects a
/// reply under its tag, sent to the process that asked.
#[derive(Debug)]
pub enum Envelope<M> {
    Message(M),
    Request { tag: Tag, from: ProcessId, body: M },
}

/// Wraps `body` as a request from `from`, under a tag freshly issued by
/// `tags`; the tag is returned too, for claiming the reply.
pub fn make_request<M>(tags: &mut TagGenerator, from: ProcessId, body: M) -> (r: (Tag, Envelope<M>))
    requires
        old(tags).can_issue(),
    ensures
        issues(*old(tags), *final(tags), r.0),
        r.1 == (Envelope::Request { tag: r.0, from, body }),
{
    let tag = Tag::new(tags);
    (tag, Envelope::Request { tag, from, body })
}

/// The answer to send once a server has handled `envelope`: for a request,
/// `answer` goes back to its sender under the request's own tag; a message is
/// not answered.
pub fn reply_to<M, R>(envelope: &Envelope<M>, answer: R) -> (r: Option<(ProcessId, Reply<R>)>)
    ensures
        match *envelope {
            Envelope::Message(_) => r is None,
            Envelope::Request { tag, from, .. } => r == Some((from, Reply { tag, payload: answer })),
        },
{
    match envelope {
        Envelope::Message(_) => None,
        Envelope::Request { tag, from, .. } => Some((*from, Reply { tag: *tag, payload: answer })),
    }
}

/// Replies that have arrived and are not yet claimed, in order of arrival.
#[derive(Debug)]
pub struct ReplyBuffer<M> {
    pending: Vec<Reply<M>>,
}

/// Whether `i` is the first position in `q` that holds a reply tagged `tag`.
pub open spec fn first_tagged<M>(q: Seq<Reply<M>>, tag: Tag, i: int) -> bool {
    &&& 0 <= i < q.len()
    &&& q[i].tag == tag
    &&& forall|j: int| 0 <= j < i ==> #[trigger] q[j].tag != tag
}

/// Whether no reply in `q` is tagged `tag`.
pub open spec fn none_tagged<M>(q: Seq<Reply<M>>, tag: Tag) -> bool {
    forall|j: int| 0 <= j < q.len() ==> #[trigger] q[j].tag != tag
}

/// Claiming the reply to the request tagged `tag` from the buffered replies
/// `before` returned `r` and left `after`: the earliest reply with that tag is
/// handed out and removed, every other reply stays buffered in order; with no
/// such reply nothing changes.
pub open spec fn claims<M>(before: Seq<Reply<M>>, tag: Tag, r: Option<M>, after: Seq<Reply<M>>) -> bool {
    match r {
        Some(p) => exists|i: int|
            first_tagged(before, tag, i) && #[trigger] before[i].payload == p && after
                == before.remove(i),
        None => none_tagged(before, tag) && after == before,
    }
}

impl<M> ReplyBuffer<M> {
    /// The buffered replies, oldest first.
    pub closed spec fn view_pending(&self) -> Seq<Reply<M>> {
        self.pending@
    }

    /// An empty buffer.
    pub fn new() -> (b: ReplyBuffer<M>)
        ensures
            b.view_pending() == Seq::<Reply<M>>::empty(),
    {
        ReplyBuffer { pending: Vec::new() }
    }

    /// The number of buffered replies.
    pub fn len(&self) -> (r: usize)
        ensures
            r == self.view_pending().len(),
    {
        self.pending.len()
    }

    /// Buffers a reply that has arrived.
    pub fn deliver(&mut self, reply: Reply<M>)
        ensures
            final(self).view_pending() == old(self).view_pending().push(reply),
    {
        self.pending.push(reply);
    }

    /// Claims the reply to the request tagged `tag`, if it has arrived. Replies
    /// to other requests stay buffered.
    pub fn take_reply(&mut self, tag: Tag) -> (r: Option<M>)
        ensures
            claims(old(self).view_pending(), tag, r, final(self).view_pending()),
    {
        let n = self.pending.len();
        let mut i: usize = 0;
        while i < n
            invariant
                n == self.pending@.len(),
                self.pending@ == old(self).pending@,
                i <= n,
                forall|j: int| 0 <= j < i ==> #[trigger] self.pending@[j].tag != tag,
            decreases n - i,
        {
            if self.pending[i].tag == tag {
                let reply = self.pending.remove(i);
                assert(first_tagged(old(self).pending@, tag, i as int));
                return Some(reply.payload);
            }
            i = i + 1;
        }
        None
    }
}

/// Two outstanding requests with distinct tags each receive the reply that
/// carries their own tag, never the other's, whichever reply arrives first:
/// claiming one and then the other hands out both payloads and leaves nothing.
pub proof fn lemma_replies_correlate<M>(
    first: Reply<M>,
    second: Reply<M>,
    arrived: Seq<Reply<M>>,
    r1: Option<M>,
    rest: Seq<Reply<M>>,
    r2: Option<M>,
    left: Seq<Reply<M>>,
)
    requires
        first.tag != second.tag,
        arrived == seq![first, second] || arrived == seq![second, first],
        claims(arrived, first.tag, r1, rest),
        claims(rest, second.tag, r2, left),
    ensures
        r1 == Some(first.payload),
        rest == seq![second],
        r2 == Some(second.payload),
        left == Seq::<Reply<M>>::empty(),
{
    let k: int = if arrived == seq![first, second] { 0 } else { 1 };
    assert(arrived[k].tag == first.tag);
    assert(arrived[1 - k].tag == second.tag);
    assert(!none_tagged(arrived, first.tag));
    let p = r1->Some_0;
    let i = choose|i: int|
        first_tagged(arrived, first.tag, i) && #[trigger] arrived[i].payload == p && rest
            == arrived.remove(i);
    assert(i == k);
    assert(rest =~= seq![second]);
    assert(rest[0].tag == second.tag);
    assert(!none_tagged(rest, second.tag));
    let p2 = r2->Some_0;
    let i2 = choose|i: int|
        first_tagged(rest, second.tag, i) && #[trigger] rest[i].payload == p2 && left
            == rest.remove(i);
    assert(i2 == 0);
    assert(left =~= Seq::<Reply<M>>::empty());
}

/// A claimed reply always carries the tag it was claimed by.
pub proof fn lemma_claimed_reply_is_tagged<M>(before: Seq<Reply<M>>, tag: Tag, p: M, after: Seq<Reply<M>>)
    requires
        claims(before, tag, Some(p), after),
    ensures
        exists|i: int| 0 <= i < before.len() && #[trigger] before[i].tag == tag && before[i].payload == p,
{
    let i = choose|i: int| first_tagged(before, tag, i) && #[trigger] before[i].payload == p && after == before.remove(i);
    assert(before[i].tag == tag);
}

} // verus!
