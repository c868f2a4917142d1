//! The detail view of one entry: its text wrapped to the view's width, cached until
//! the entry or the width changes, and a scroll offset kept within the text.
use vstd::prelude::*;
use crate::entry::FeedItem;
use crate::text::{views, wrap_all, wrapped_all};

verus! {

/// The state of the detail view.
pub struct ExpandedModel {
    /// The entry shown; `None` while the view is closed.
    pub id: Option<u64>,
    /// The wrapped text, once computed.
    pub content: Option<Seq<Seq<char>>>,
    /// The width the text was wrapped for.
    pub width: Option<nat>,
    /// The height of the text area at the last render.
    pub height: Option<nat>,
    /// The first line shown.
    pub offset: nat,
}

/// The closed view.
pub open spec fn closed_model() -> ExpandedModel {
    ExpandedModel { id: None, content: None, width: None, height: None, offset: 0 }
}

/// The view after the entry `id` is picked.
pub open spec fn opened(m: ExpandedModel, id: u64) -> ExpandedModel {
    ExpandedModel { id: Some(id), ..m }
}

/// The furthest the text can scroll: the lines that do not fit in the view.
pub open spec fn max_offset(m: ExpandedModel) -> nat {
    let total: nat = match m.content {
        Some(c) => c.len(),
        None => 0,
    };
    let h: nat = match m.height {
        Some(h) => h,
        None => 0,
    };
    if total > h {
        (total - h) as nat
    } else {
        0
    }
}

/// The offset stays within the text.
pub open spec fn expanded_wf(m: ExpandedModel) -> bool {
    m.offset <= max_offset(m)
}

/// The offset after scrolling by `delta` lines; `isize::MIN` goes to the top and
/// `isize::MAX` to the bottom.
pub open spec fn scrolled_offset(m: ExpandedModel, delta: isize) -> nat {
    if delta == isize::MIN {
        0
    } else if delta == isize::MAX {
        max_offset(m)
    } else if delta < 0 {
        if m.offset >= -delta {
            (m.offset + delta) as nat
        } else {
            0
        }
    } else if m.offset + delta <= max_offset(m) {
        (m.offset + delta) as nat
    } else {
        max_offset(m)
    }
}

pub open spec fn scrolled(m: ExpandedModel, delta: isize) -> ExpandedModel {
    ExpandedModel { offset: scrolled_offset(m, delta), ..m }
}

/// The lines an entry shows: its body where it has one, else its summary.
pub open spec fn shown_lines(item: FeedItem) -> Seq<Seq<char>> {
    match item.body {
        Some(b) => views(b@),
        None => match item.summary {
            Some(s) => views(s@),
            None => Seq::empty(),
        },
    }
}

/// The text of the view for an entry at a width.
pub open spec fn content_for(item: FeedItem, width: nat) -> Seq<Seq<char>> {
    wrapped_all(shown_lines(item), width)
}

/// The view after a render of `item` in an area of `width` by `height`: the text is
/// wrapped anew only when the entry or the width changed, and the offset is pulled
/// back within the text.
pub open spec fn synced(m: ExpandedModel, item: FeedItem, width: nat, height: nat) -> ExpandedModel {
    let rewrap = m.width != Some(width) || m.id != Some(item.id);
    let content = if rewrap {
        Some(content_for(item, width))
    } else {
        m.content
    };
    let m1 = ExpandedModel {
        id: Some(item.id),
        content,
        width: Some(width),
        height: Some(height),
        offset: m.offset,
    };
    ExpandedModel {
        offset: if m.offset <= max_offset(m1) {
            m.offset
        } else {
            max_offset(m1)
        },
        ..m1
    }
}

/// No sequence of scroll commands takes the offset past the text: scrolling keeps
/// it within `max(0, lines - height)`, and jumping to the end of an empty text stays
/// at zero.
pub proof fn lemma_scroll_stays_within(m: ExpandedModel, delta: isize)
    requires
        expanded_wf(m),
    ensures
        expanded_wf(scrolled(m, delta)),
        max_offset(scrolled(m, delta)) == max_offset(m),
        (m.content is None || m.content.unwrap().len() == 0) ==> scrolled(m, isize::MAX).offset
            == 0,
{
}

/// Closing the view and opening the same entry again at the same width gives the same
/// text as the cached one, however the view was scrolled or resized in between.
pub proof fn lemma_reopen_same_content(
    item: FeedItem,
    width: nat,
    h1: nat,
    h2: nat,
    h3: nat,
    delta: isize,
)
    ensures
        ({
            let first = synced(opened(closed_model(), item.id), item, width, h1);
            let kept = synced(scrolled(first, delta), item, width, h2);
            let again = synced(opened(closed_model(), item.id), item, width, h3);
            &&& kept.content == first.content
            &&& again.content == kept.content
            &&& again.content == Some(content_for(item, width))
        }),
{
}

/// The detail view.
pub struct ExpandedView {
    id: Option<u64>,
    content: Option<Vec<String>>,
    width: Option<usize>,
    height: Option<usize>,
    offset: usize,
}

impl View for ExpandedView {
    type V = ExpandedModel;

    closed spec fn view(&self) -> ExpandedModel {
        ExpandedModel {
            id: self.id,
            content: match self.content {
                Some(c) => Some(views(c@)),
                None => None,
            },
            width: match self.width {
                Some(w) => Some(w as nat),
                None => None,
            },
            height: match self.height {
                Some(h) => Some(h as nat),
                None => None,
            },
            offset: self.offset as nat,
        }
    }
}

impl ExpandedView {
    /// A closed view.
    pub fn new() -> (r: ExpandedView)
        ensures
            r@ == closed_model(),
    {
        ExpandedView { id: None, content: None, width: None, height: None, offset: 0 }
    }

    /// The entry shown, if the view is open.
    pub fn id(&self) -> (r: Option<u64>)
        ensures
            r == self@.id,
    {
        self.id
    }

    /// Picks the entry to show.
    pub fn open(&mut self, id: u64)
        ensures
            final(self)@ == opened(old(self)@, id),
    {
        self.id = Some(id);
    }

    /// The first line shown.
    pub fn scroll_offset(&self) -> (r: usize)
        ensures
            r == self@.offset,
    {
        self.offset
    }

    /// The number of lines of the cached text.
    pub fn content_len(&self) -> (r: usize)
        ensures
            r == match self@.content {
                Some(c) => c.len(),
                None => 0,
            },
    {
        match &self.content {
            Some(c) => c.len(),
            None => 0,
        }
    }

    /// The furthest the text can scroll.
    pub fn max_scroll_offset(&self) -> (r: usize)
        ensures
            r == max_offset(self@),
    {
        let total = self.content_len();
        let h = match self.height {
            Some(h) => h,
            None => 0,
        };
        total.saturating_sub(h)
    }

    /// Scrolls by `delta` lines, within the text.
    pub fn scroll(&mut self, delta: isize)
        ensures
            final(self)@ == scrolled(old(self)@, delta),
            expanded_wf(old(self)@) ==> expanded_wf(final(self)@),
    {
        let max = self.max_scroll_offset();
        if delta == isize::MIN {
            self.offset = 0;
        } else if delta == isize::MAX {
            self.offset = max;
        } else if delta < 0 {
            let up = (-delta) as usize;
            self.offset = self.offset.saturating_sub(up);
        } else {
            let down = delta as usize;
            let target = self.offset.saturating_add(down);
            self.offset = if target <= max {
                target
            } else {
                max
            };
        }
    }

    /// Prepares a render of `item` in an area of `width` by `height`.
    pub fn sync(&mut self, item: &FeedItem, width: usize, height: usize)
        ensures
            final(self)@ == synced(old(self)@, *item, width as nat, height as nat),
            expanded_wf(final(self)@),
    {
        let rewrap = match self.width {
            Some(w) => w != width,
            None => true,
        } || match self.id {
            Some(i) => i != item.id,
            None => true,
        };
        if rewrap {
            let lines = match &item.body {
                Some(b) => wrap_all(b, width),
                None => match &item.summary {
                    Some(s) => wrap_all(s, width),
                    None => {
                        let empty: Vec<String> = Vec::new();
                        proof {
                            assert(views(empty@) =~= Seq::<Seq<char>>::empty());
                        }
                        wrap_all(&empty, width)
                    },
                },
            };
            self.content = Some(lines);
        }
        self.id = Some(item.id);
        self.width = Some(width);
        self.height = Some(height);
        let max = self.max_scroll_offset();
        if self.offset > max {
            self.offset = max;
        }
    }

    /// The lines in view: from the offset, as many as fit.
    pub fn visible_lines(&self) -> (r: Vec<String>)
        ensures
            ({
                let c = match self@.content {
                    Some(c) => c,
                    None => Seq::empty(),
                };
                let h = match self@.height {
                    Some(h) => h,
                    None => 0,
                };
                let end = if self@.offset + h <= c.len() {
                    (self@.offset + h) as int
                } else {
                    c.len() as int
                };
                views(r@) == if self@.offset <= c.len() {
                    c.subrange(self@.offset as int, end)
                } else {
                    Seq::empty()
                }
            }),
    {
        let mut out: Vec<String> = Vec::new();
        match &self.content {
            None => {
                proof {
                    assert(views(out@) =~= Seq::<Seq<char>>::empty());
                }
            },
            Some(c) => {
                let h = match self.height {
                    Some(h) => h,
                    None => 0,
                };
                let n = c.len();
                if self.offset >= n {
                    proof {
                        assert(views(out@) =~= Seq::<Seq<char>>::empty());
                    }
                    return out;
                }
                let end = if h <= n - self.offset {
                    self.offset + h
                } else {
                    n
                };
                let mut i = self.offset;
                proof {
                    assert(views(out@) =~= views(c@).subrange(self.offset as int, i as int));
                }
                while i < end
                    invariant
                        self.offset <= i <= end <= n,
                        n == c@.len(),
                        views(out@) == views(c@).subrange(self.offset as int, i as int),
                    decreases end - i,
                {
                    let ghost before = out@;
                    out.push(c[i].clone());
                    proof {
                        assert(views(out@) =~= views(before).push(c@[i as int]@));
                        assert(views(out@) =~= views(c@).subrange(self.offset as int, i + 1));
                    }
                    i = i + 1;
                }
            },
        }
        out
    }
}

} // verus!
