//! The merged list of entries, kept newest first.
use vstd::prelude::*;
use vstd::multiset::Multiset;
use vstd::seq_lib::*;
use crate::entry::FeedItem;
use crate::timestamp::{not_after, Timestamp};

verus! {

/// `a` was published strictly earlier than `b`.
pub open spec fn earlier(a: Timestamp, b: Timestamp) -> bool {
    !not_after(b, a)
}

/// Newest first: no entry is published later than one before it.
pub open spec fn sorted_desc(s: Seq<FeedItem>) -> bool {
    forall|i: int, j: int|
        0 <= i < j < s.len() ==> not_after(#[trigger] s[j].published_at, #[trigger] s[i].published_at)
}

/// Where `e` goes in `s`: after every entry published no earlier than it.
pub open spec fn insert_index(s: Seq<FeedItem>, e: FeedItem) -> nat
    decreases s.len(),
{
    if s.len() == 0 {
        0
    } else if earlier(s[0].published_at, e.published_at) {
        0
    } else {
        1 + insert_index(s.drop_first(), e)
    }
}

/// `s` with `e` inserted in its place.
pub open spec fn insert_desc(s: Seq<FeedItem>, e: FeedItem) -> Seq<FeedItem> {
    s.insert(insert_index(s, e) as int, e)
}

/// `s` with each of `new` inserted in turn.
pub open spec fn merged(s: Seq<FeedItem>, new: Seq<FeedItem>) -> Seq<FeedItem>
    decreases new.len(),
{
    if new.len() == 0 {
        s
    } else {
        insert_desc(merged(s, new.drop_last()), new.last())
    }
}

proof fn lemma_insert_index(s: Seq<FeedItem>, e: FeedItem, p: int)
    requires
        0 <= p <= s.len(),
        forall|i: int| 0 <= i < p ==> !earlier(#[trigger] s[i].published_at, e.published_at),
        p < s.len() ==> earlier(s[p].published_at, e.published_at),
    ensures
        insert_index(s, e) == p,
    decreases p,
{
    if p > 0 {
        assert(!earlier(s[0].published_at, e.published_at));
        let rest = s.drop_first();
        assert forall|i: int| 0 <= i < p - 1 implies !earlier(
            #[trigger] rest[i].published_at,
            e.published_at,
        ) by {
            assert(rest[i] == s[i + 1]);
        }
        lemma_insert_index(rest, e, p - 1);
    }
}

proof fn lemma_insert_index_bounds(s: Seq<FeedItem>, e: FeedItem)
    ensures
        insert_index(s, e) <= s.len(),
        forall|i: int|
            0 <= i < insert_index(s, e) ==> !earlier(#[trigger] s[i].published_at, e.published_at),
        insert_index(s, e) < s.len() ==> earlier(s[insert_index(s, e) as int].published_at, e.published_at),
    decreases s.len(),
{
    if s.len() > 0 && !earlier(s[0].published_at, e.published_at) {
        let rest = s.drop_first();
        lemma_insert_index_bounds(rest, e);
        assert forall|i: int| 0 <= i < insert_index(s, e) implies !earlier(
            #[trigger] s[i].published_at,
            e.published_at,
        ) by {
            if i > 0 {
                assert(s[i] == rest[i - 1]);
            }
        }
    }
}

/// Inserting in place keeps a newest-first list newest first, and adds exactly `e`.
pub proof fn lemma_insert_desc(s: Seq<FeedItem>, e: FeedItem)
    requires
        sorted_desc(s),
    ensures
        sorted_desc(insert_desc(s, e)),
        insert_desc(s, e).to_multiset() == s.to_multiset().insert(e),
{
    lemma_insert_index_bounds(s, e);
    let p = insert_index(s, e) as int;
    let t = insert_desc(s, e);
    assert forall|i: int, j: int| 0 <= i < j < t.len() implies not_after(
        #[trigger] t[j].published_at,
        #[trigger] t[i].published_at,
    ) by {
        if j < p {
            assert(t[i] == s[i] && t[j] == s[j]);
        } else if j == p {
            assert(t[i] == s[i]);
        } else if i < p {
            assert(t[i] == s[i] && t[j] == s[j - 1]);
            assert(not_after(s[j - 1].published_at, s[i].published_at));
        } else if i == p {
            assert(t[j] == s[j - 1]);
            assert(not_after(s[j - 1].published_at, s[p].published_at));
        } else {
            assert(t[i] == s[i - 1] && t[j] == s[j - 1]);
        }
    }
    to_multiset_insert(s, p, e);
}

/// Merging keeps a newest-first list newest first, and the result holds exactly
/// the entries of both.
pub proof fn lemma_merge_sorted(s: Seq<FeedItem>, new: Seq<FeedItem>)
    requires
        sorted_desc(s),
    ensures
        sorted_desc(merged(s, new)),
        merged(s, new).to_multiset() == s.to_multiset().add(new.to_multiset()),
    decreases new.len(),
{
    broadcast use group_to_multiset_ensures;
    if new.len() == 0 {
        assert(new.to_multiset() =~= Multiset::empty());
        assert(s.to_multiset().add(Multiset::empty()) =~= s.to_multiset());
    } else {
        let front = new.drop_last();
        lemma_merge_sorted(s, front);
        lemma_insert_desc(merged(s, front), new.last());
        assert(front.push(new.last()) =~= new);
        assert(merged(s, new).to_multiset() =~= s.to_multiset().add(new.to_multiset()));
    }
}

/// The list after merging each batch in turn, starting from `s`.
pub open spec fn merged_batches(s: Seq<FeedItem>, batches: Seq<Seq<FeedItem>>) -> Seq<FeedItem>
    decreases batches.len(),
{
    if batches.len() == 0 {
        s
    } else {
        merged(merged_batches(s, batches.drop_last()), batches.last())
    }
}

/// Whatever batches are merged, starting from an empty store, the list is newest first
/// after every merge.
pub proof fn lemma_merges_stay_sorted(batches: Seq<Seq<FeedItem>>)
    ensures
        forall|k: int|
            0 <= k <= batches.len() ==> sorted_desc(
                #[trigger] merged_batches(Seq::empty(), batches.take(k)),
            ),
    decreases batches.len(),
{
    if batches.len() > 0 {
        let front = batches.drop_last();
        lemma_merges_stay_sorted(front);
        assert forall|k: int| 0 <= k <= batches.len() implies sorted_desc(
            #[trigger] merged_batches(Seq::empty(), batches.take(k)),
        ) by {
            if k < batches.len() {
                assert(batches.take(k) =~= front.take(k));
            } else {
                assert(batches.take(k) =~= batches);
                assert(front.take(front.len() as int) =~= front);
                lemma_merge_sorted(merged_batches(Seq::empty(), front), batches.last());
            }
        }
    } else {
        assert forall|k: int| 0 <= k <= batches.len() implies sorted_desc(
            #[trigger] merged_batches(Seq::empty(), batches.take(k)),
        ) by {
            assert(batches.take(k).len() == 0);
        }
    }
}

/// The entries fetched so far, newest first. Entries with equal times keep the
/// order in which they arrived.
pub struct EntryStore {
    items: Vec<FeedItem>,
}

impl View for EntryStore {
    type V = Seq<FeedItem>;

    closed spec fn view(&self) -> Seq<FeedItem> {
        self.items@
    }
}

impl EntryStore {
    /// The store is newest first.
    pub open spec fn wf(&self) -> bool {
        sorted_desc(self@)
    }

    /// An empty store.
    pub fn new() -> (r: EntryStore)
        ensures
            r@ == Seq::<FeedItem>::empty(),
            r.wf(),
    {
        EntryStore { items: Vec::new() }
    }

    /// The entries, newest first.
    pub fn snapshot(&self) -> (r: &[FeedItem])
        requires
            self.wf(),
        ensures
            r@ == self@,
            sorted_desc(r@),
    {
        self.items.as_slice()
    }

    /// The number of entries.
    pub fn len(&self) -> (r: usize)
        ensures
            r == self@.len(),
    {
        self.items.len()
    }

    /// Adds a completed source's entries, each after every entry published no
    /// earlier than it, so the list stays newest first.
    pub fn merge(&mut self, new_items: Vec<FeedItem>)
        requires
            old(self).wf(),
        ensures
            final(self).wf(),
            final(self)@ == merged(old(self)@, new_items@),
            sorted_desc(final(self)@),
            final(self)@.to_multiset() == old(self)@.to_multiset().add(new_items@.to_multiset()),
    {
        proof {
            lemma_merge_sorted(self@, new_items@);
        }
        let ghost start = self@;
        let ghost all = new_items@;
        proof {
            assert(all.take(0) =~= Seq::<FeedItem>::empty());
        }
        for e in it: new_items
            invariant
                it.seq() == all,
                self@ == merged(start, all.take(it.index() as int)),
                sorted_desc(start),
        {
            proof {
                lemma_merge_sorted(start, all.take(it.index() as int));
                let k = it.index() as int;
                assert(all.take(k + 1).drop_last() =~= all.take(k));
                assert(all.take(k + 1).last() == e);
            }
            self.insert_in_place(e);
        }
        proof {
            assert(all.take(all.len() as int) =~= all);
        }
    }

    fn insert_in_place(&mut self, e: FeedItem)
        requires
            old(self).wf(),
        ensures
            final(self)@ == insert_desc(old(self)@, e),
    {
        let n = self.items.len();
        let mut p: usize = 0;
        while p < n && !self.items[p].published_at.is_before(&e.published_at)
            invariant
                p <= n,
                n == self.items@.len(),
                forall|i: int|
                    0 <= i < p ==> !earlier(#[trigger] self.items@[i].published_at, e.published_at),
            decreases n - p,
        {
            p = p + 1;
        }
        proof {
            lemma_insert_index(self.items@, e, p as int);
            lemma_insert_desc(self.items@, e);
        }
        self.items.insert(p, e);
    }
}

/// The position of the first entry with identifier `id`.
pub open spec fn position_of(s: Seq<FeedItem>, id: u64) -> Option<int>
    decreases s.len(),
{
    if s.len() == 0 {
        None
    } else if s[0].id == id {
        Some(0)
    } else {
        match position_of(s.drop_first(), id) {
            Some(i) => Some(i + 1),
            None => None,
        }
    }
}

/// A position found is a position of the list.
pub proof fn lemma_position_in_bounds(s: Seq<FeedItem>, id: u64)
    ensures
        position_of(s, id) matches Some(p) ==> 0 <= p < s.len() && s[p].id == id,
    decreases s.len(),
{
    if s.len() > 0 && s[0].id != id {
        lemma_position_in_bounds(s.drop_first(), id);
    }
}

/// Finds the position of the first entry with identifier `id`.
pub fn find_position(items: &[FeedItem], id: u64) -> (r: Option<usize>)
    ensures
        match r {
            Some(i) => position_of(items@, id) == Some(i as int),
            None => position_of(items@, id) is None,
        },
{
    let mut i: usize = 0;
    proof {
        assert(items@.skip(0) =~= items@);
    }
    while i < items.len()
        invariant
            i <= items@.len(),
            forall|k: int| 0 <= k < i ==> #[trigger] items@[k].id != id,
            match position_of(items@.skip(i as int), id) {
                Some(k) => position_of(items@, id) == Some(k + i),
                None => position_of(items@, id) is None,
            },
        decreases items@.len() - i,
    {
        let ghost rest = items@.skip(i as int);
        if items[i].id == id {
            return Some(i);
        }
        proof {
            assert(rest.drop_first() =~= items@.skip(i + 1));
        }
        i = i + 1;
    }
    None
}

} // verus!
