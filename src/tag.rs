use vstd::prelude::*;

verus! {

/// A message tag: an identifier that is unique among the tags that one
/// generator has issued.
#[derive(Debug, PartialEq, Eq, Structural, Clone, Copy, Hash)]
pub struct Tag(i64);

impl Tag {
    /// The raw value, for carrying a tag inside a message.
    pub closed spec fn view_id(self) -> i64 {
        self.0
    }

    /// Rebuilds a tag from its raw value.
    pub fn from(id: i64) -> (t: Tag)
        ensures
            t.view_id() == id,
            forall|u: Tag| #[trigger] u.view_id() == id ==> u == t,
    {
        Tag(id)
    }

    /// The raw value of the tag.
    pub fn id(&self) -> (r: i64)
        ensures
            r == self.view_id(),
            forall|u: Tag| #[trigger] u.view_id() == r ==> u == *self,
    {
        self.0
    }

    /// Issues a fresh tag: the generator's counter goes up by one and the new
    /// value becomes the tag.
    pub fn new(tags: &mut TagGenerator) -> (t: Tag)
        requires
            old(tags).can_issue(),
        ensures
            issues(*old(tags), *final(tags), t),
    {
        tags.counter = tags.counter + 1;
        Tag(tags.counter)
    }

    /// The default way to obtain a tag: exactly what [`Tag::new`] does.
    pub fn default(tags: &mut TagGenerator) -> (t: Tag)
        requires
            old(tags).can_issue(),
        ensures
            issues(*old(tags), *final(tags), t),
    {
        Tag::new(tags)
    }
}

/// The per-process counter behind [`Tag::new`]. It starts at zero and every
/// issued tag takes the next value.
#[derive(Debug)]
pub struct TagGenerator {
    counter: i64,
}

impl TagGenerator {
    /// The value of the most recently issued tag, or zero before the first.
    pub closed spec fn last(self) -> int {
        self.counter as int
    }

    /// Whether one more tag can be issued without leaving the range of `i64`.
    pub open spec fn can_issue(self) -> bool {
        self.last() < i64::MAX
    }

    /// The tag carrying [`TagGenerator::last`].
    pub closed spec fn last_tag(self) -> Tag {
        Tag(self.counter)
    }

    /// A generator that has issued nothing yet.
    pub fn new() -> (g: TagGenerator)
        ensures
            g.last() == 0,
    {
        TagGenerator { counter: 0 }
    }

    /// How many tags this generator has issued.
    pub fn issued(&self) -> (r: i64)
        ensures
            r == self.last(),
    {
        self.counter
    }
}

/// One call of the tag generator: it moved from `before` to `after` and
/// returned `t`.
pub open spec fn issues(before: TagGenerator, after: TagGenerator, t: Tag) -> bool {
    &&& after.last() == before.last() + 1
    &&& t.view_id() == after.last()
    &&& t == after.last_tag()
}

/// A run of calls of the tag generator: `states[i]` is the generator before
/// call `i`, `states[i + 1]` after it, and `tags[i]` what call `i` returned.
pub open spec fn issued_run(states: Seq<TagGenerator>, tags: Seq<Tag>) -> bool {
    &&& states.len() == tags.len() + 1
    &&& forall|i: int| 0 <= i < tags.len() ==> #[trigger] issues(states[i], states[i + 1], tags[i])
}

/// Call `i` of a run returns the value the generator held when the run began,
/// plus `i + 1`.
proof fn lemma_run_bounds(states: Seq<TagGenerator>, tags: Seq<Tag>, i: int)
    requires
        issued_run(states, tags),
        0 <= i < tags.len(),
    ensures
        tags[i].view_id() == states[0].last() + i + 1,
        states[i + 1].last() == states[0].last() + i + 1,
    decreases i,
{
    assert(issues(states[i], states[i + 1], tags[i]));
    if i > 0 {
        lemma_run_bounds(states, tags, i - 1);
    }
}

/// Tags issued one after another by the same generator are pairwise distinct
/// and strictly increasing, in the order of the calls.
pub proof fn lemma_tags_strictly_increase(states: Seq<TagGenerator>, tags: Seq<Tag>)
    requires
        issued_run(states, tags),
    ensures
        forall|i: int, j: int|
            0 <= i < j < tags.len() ==> #[trigger] tags[i].view_id() < #[trigger] tags[j].view_id(),
        forall|i: int, j: int| 0 <= i < j < tags.len() ==> tags[i] != tags[j],
{
    assert forall|i: int, j: int| 0 <= i < j < tags.len() implies #[trigger] tags[i].view_id()
        < #[trigger] tags[j].view_id() by {
        lemma_run_bounds(states, tags, i);
        lemma_run_bounds(states, tags, j);
    }
    assert forall|i: int, j: int| 0 <= i < j < tags.len() implies tags[i] != tags[j] by {
        lemma_run_bounds(states, tags, i);
        lemma_run_bounds(states, tags, j);
    }
}

/// Reading the raw value of the same tag twice gives the same integer: each
/// read returns what [`Tag::id`] promises, which depends on the tag alone.
pub proof fn lemma_id_is_stable(t: Tag, first_read: i64, second_read: i64)
    requires
        first_read == t.view_id(),
        second_read == t.view_id(),
    ensures
        first_read == second_read,
{
}

/// Two tags are equal exactly when their raw values are.
pub proof fn lemma_tag_is_its_id(a: Tag, b: Tag)
    ensures
        a == b <==> a.view_id() == b.view_id(),
{
}

/// Taking the default tag is the same as issuing a new one: from the same
/// generator both give the same tag and leave the same counter, one step on.
pub proof fn lemma_default_is_new(
    before: TagGenerator,
    after_new: TagGenerator,
    by_new: Tag,
    after_default: TagGenerator,
    by_default: Tag,
)
    requires
        issues(before, after_new, by_new),
        issues(before, after_default, by_default),
    ensures
        by_new == by_default,
        after_new.last() == after_default.last(),
        after_default.last() == before.last() + 1,
{
}

} // verus!
