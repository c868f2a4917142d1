//! The entry table's state: which row is selected, the scrollbar, and the detail view,
//! and how commands change them.
use vstd::prelude::*;
use crate::entry::FeedItem;
use crate::input::Command;
use crate::layout::{scrollbar_for, RowGeometry};
use crate::store::{find_position, position_of};
use crate::viewer::{closed_model, expanded_wf, opened, scrolled, ExpandedModel, ExpandedView};

verus! {

/// The state of the table.
pub struct FeedModel {
    pub selected: Option<usize>,
    /// The running row totals of the last layout; its length is the row count.
    pub cumulative: Seq<usize>,
    pub scrollbar: usize,
    pub content_length: usize,
    pub expanded: ExpandedModel,
}

/// The row count fits a `usize`; the selection lies within the rows and exists
/// whenever there are rows; the detail view keeps its offset within its text and holds
/// nothing while closed.
pub open spec fn feed_wf(m: FeedModel) -> bool {
    &&& m.cumulative.len() <= usize::MAX
    &&& match m.selected {
        Some(i) => i < m.cumulative.len(),
        None => m.cumulative.len() == 0,
    }
    &&& expanded_wf(m.expanded)
    &&& (m.expanded.id is None ==> m.expanded == closed_model())
}

/// `x` held within `[0, n - 1]`, for `n > 0`.
pub open spec fn clamp_row(x: int, n: nat) -> usize {
    if x < 0 {
        0
    } else if x >= n {
        (n - 1) as usize
    } else {
        x as usize
    }
}

/// The selection after moving by `delta` rows among `n`; `isize::MIN` selects the first
/// row and `isize::MAX` the last. There is no wrapping around.
pub open spec fn scrolled_selection(selected: Option<usize>, delta: isize, n: nat) -> Option<usize> {
    let base: int = match selected {
        Some(i) => i as int,
        None => 0,
    };
    if n == 0 {
        None
    } else if delta == isize::MIN {
        Some(0)
    } else if delta == isize::MAX {
        Some((n - 1) as usize)
    } else {
        Some(clamp_row(base + delta, n))
    }
}

/// Moving down from the last row, by any number of rows, stays on the last row; no
/// move ever leaves the rows or wraps around.
pub proof fn lemma_scroll_no_wraparound(selected: Option<usize>, delta: isize, n: nat)
    requires
        1 <= n <= usize::MAX,
    ensures
        scrolled_selection(selected, delta, n) matches Some(i) && i < n,
        selected == Some((n - 1) as usize) && delta >= 0 ==> scrolled_selection(
            selected,
            delta,
            n,
        ) == Some((n - 1) as usize),
{
}

/// The selection after a layout of `items` into `n` rows: the detail view's entry
/// where it is open and listed, else the current row, else the first one.
pub open spec fn laid_out_selection(
    selected: Option<usize>,
    expanded: Option<u64>,
    items: Seq<FeedItem>,
    n: nat,
) -> Option<usize> {
    let wanted: Option<int> = match expanded {
        Some(id) => match position_of(items, id) {
            Some(p) => Some(p),
            None => match selected {
                Some(i) => Some(i as int),
                None => None,
            },
        },
        None => match selected {
            Some(i) => Some(i as int),
            None => None,
        },
    };
    if n == 0 {
        None
    } else {
        match wanted {
            Some(w) => Some(clamp_row(w, n)),
            None => Some(0),
        }
    }
}

/// What the reader does after a command.
#[derive(Clone, Debug, PartialEq, Eq)]
pub enum FeedAction {
    Nothing,
    /// Leave the reader.
    Quit,
    /// Open this link in the default application.
    OpenLink(String),
    /// There was no selected entry with a link to open.
    NothingToOpen,
}

/// The table.
pub struct FeedView {
    selected: Option<usize>,
    cumulative: Vec<usize>,
    scrollbar: usize,
    content_length: usize,
    expanded: ExpandedView,
}

impl View for FeedView {
    type V = FeedModel;

    closed spec fn view(&self) -> FeedModel {
        FeedModel {
            selected: self.selected,
            cumulative: self.cumulative@,
            scrollbar: self.scrollbar,
            content_length: self.content_length,
            expanded: self.expanded@,
        }
    }
}

impl FeedView {
    /// A table with no rows laid out yet and the detail view closed.
    pub fn new() -> (r: FeedView)
        ensures
            feed_wf(r@),
            r@.selected is None,
            r@.cumulative.len() == 0,
            r@.scrollbar == 0,
            r@.expanded == closed_model(),
    {
        FeedView {
            selected: None,
            cumulative: Vec::new(),
            scrollbar: 0,
            content_length: 0,
            expanded: ExpandedView::new(),
        }
    }

    /// The selected row.
    pub fn selected(&self) -> (r: Option<usize>)
        ensures
            r == self@.selected,
    {
        self.selected
    }

    /// The scrollbar position.
    pub fn scrollbar_position(&self) -> (r: usize)
        ensures
            r == self@.scrollbar,
    {
        self.scrollbar
    }

    /// The lines taken by all rows at the last layout.
    pub fn content_length(&self) -> (r: usize)
        ensures
            r == self@.content_length,
    {
        self.content_length
    }

    /// The detail view.
    pub fn expanded(&self) -> (r: &ExpandedView)
        ensures
            r@ == self@.expanded,
    {
        &self.expanded
    }

    /// Whether the detail view is open.
    pub fn is_expanded(&self) -> (r: bool)
        ensures
            r == (self@.expanded.id is Some),
    {
        self.expanded.id().is_some()
    }

    /// Moves the selection by `delta` rows and puts the scrollbar at the lines taken
    /// by the rows above it.
    pub fn scroll_rows(&mut self, delta: isize)
        requires
            feed_wf(old(self)@),
        ensures
            feed_wf(final(self)@),
            final(self)@.selected == scrolled_selection(
                old(self)@.selected,
                delta,
                old(self)@.cumulative.len(),
            ),
            final(self)@.scrollbar == scrollbar_for(
                final(self)@.cumulative,
                match final(self)@.selected {
                    Some(i) => i as int,
                    None => 0,
                },
            ),
            final(self)@.selected == Some(0usize) ==> final(self)@.scrollbar == 0,
            final(self)@.cumulative == old(self)@.cumulative,
            final(self)@.content_length == old(self)@.content_length,
            final(self)@.expanded == old(self)@.expanded,
    {
        let n = self.cumulative.len();
        let base: usize = match self.selected {
            Some(i) => i,
            None => 0,
        };
        if n == 0 {
            self.selected = None;
        } else if delta == isize::MIN {
            self.selected = Some(0);
        } else if delta == isize::MAX {
            self.selected = Some(n - 1);
        } else if delta < 0 {
            let up = (-delta) as usize;
            self.selected = Some(base.saturating_sub(up));
        } else {
            let down = delta as usize;
            let target = base.saturating_add(down);
            self.selected = Some(
                if target < n {
                    target
                } else {
                    n - 1
                },
            );
        }
        self.scrollbar = match self.selected {
            Some(i) => if i == 0 {
                0
            } else {
                self.cumulative[i - 1]
            },
            None => 0,
        };
    }

    /// Takes a new layout of `items`: its running totals, and the selection that
    /// follows the detail view's entry, else stays, else starts at the first row.
    pub fn apply_layout(&mut self, items: &[FeedItem], geometry: &RowGeometry)
        requires
            feed_wf(old(self)@),
        ensures
            feed_wf(final(self)@),
            final(self)@.cumulative == geometry.cumulative@,
            final(self)@.content_length == geometry.total,
            final(self)@.selected == laid_out_selection(
                old(self)@.selected,
                old(self)@.expanded.id,
                items@,
                geometry.cumulative@.len(),
            ),
            final(self)@.scrollbar == old(self)@.scrollbar,
            final(self)@.expanded == old(self)@.expanded,
    {
        let mut cumulative: Vec<usize> = Vec::new();
        let mut i: usize = 0;
        while i < geometry.cumulative.len()
            invariant
                i <= geometry.cumulative@.len(),
                cumulative@ == geometry.cumulative@.take(i as int),
            decreases geometry.cumulative@.len() - i,
        {
            cumulative.push(geometry.cumulative[i]);
            proof {
                assert(cumulative@ =~= geometry.cumulative@.take(i + 1));
            }
            i = i + 1;
        }
        proof {
            assert(cumulative@ =~= geometry.cumulative@);
        }
        let n = cumulative.len();
        let wanted: Option<usize> = match self.expanded.id() {
            Some(id) => match find_position(items, id) {
                Some(p) => Some(p),
                None => self.selected,
            },
            None => self.selected,
        };
        self.selected = if n == 0 {
            None
        } else {
            match wanted {
                Some(w) => Some(
                    if w < n {
                        w
                    } else {
                        n - 1
                    },
                ),
                None => Some(0),
            }
        };
        self.cumulative = cumulative;
        self.content_length = geometry.total;
    }

    /// The position in `items` of the entry the detail view shows, if it is open and
    /// the entry is listed.
    pub fn expanded_position(&self, items: &[FeedItem]) -> (r: Option<usize>)
        ensures
            r == match self@.expanded.id {
                Some(id) => match position_of(items@, id) {
                    Some(p) => Some(p as usize),
                    None => None,
                },
                None => None,
            },
            r matches Some(p) ==> p < items@.len(),
    {
        match self.expanded.id() {
            Some(id) => {
                let r = find_position(items, id);
                proof {
                    if r is Some {
                        crate::store::lemma_position_in_bounds(items@, id);
                    }
                }
                r
            },
            None => None,
        }
    }

    /// Prepares a render of the detail view for `item` in an area of `width` by
    /// `height`.
    pub fn sync_expanded(&mut self, item: &FeedItem, width: usize, height: usize)
        requires
            feed_wf(old(self)@),
            old(self)@.expanded.id == Some(item.id),
        ensures
            feed_wf(final(self)@),
            final(self)@.expanded == crate::viewer::synced(
                old(self)@.expanded,
                *item,
                width as nat,
                height as nat,
            ),
            final(self)@.selected == old(self)@.selected,
            final(self)@.cumulative == old(self)@.cumulative,
            final(self)@.scrollbar == old(self)@.scrollbar,
            final(self)@.content_length == old(self)@.content_length,
    {
        self.expanded.sync(item, width, height);
    }

    /// Carries out a command. Scrolling moves the detail view's text while it is open
    /// and the selection otherwise. Expanding opens the selected entry. Closing closes
    /// the detail view, or quits where none is open. Opening hands back the selected
    /// entry's link. Exiting quits.
    pub fn handle_command(&mut self, cmd: Command, items: &[FeedItem]) -> (r: FeedAction)
        requires
            feed_wf(old(self)@),
        ensures
            feed_wf(final(self)@),
            final(self)@.cumulative == old(self)@.cumulative,
            final(self)@.content_length == old(self)@.content_length,
            match cmd {
                Command::Scroll(delta) => r == FeedAction::Nothing && if old(self)@.expanded.id is Some {
                    final(self)@.expanded == scrolled(old(self)@.expanded, delta)
                        && final(self)@.selected == old(self)@.selected
                        && final(self)@.scrollbar == old(self)@.scrollbar
                } else {
                    final(self)@.expanded == old(self)@.expanded && final(self)@.selected
                        == scrolled_selection(
                        old(self)@.selected,
                        delta,
                        old(self)@.cumulative.len(),
                    ) && final(self)@.scrollbar == scrollbar_for(
                        old(self)@.cumulative,
                        match final(self)@.selected {
                            Some(i) => i as int,
                            None => 0,
                        },
                    )
                },
                Command::Expand => r == FeedAction::Nothing && final(self)@.selected
                    == old(self)@.selected && final(self)@.scrollbar == old(self)@.scrollbar
                    && final(self)@.expanded == match old(self)@.selected {
                    Some(i) => if i < items@.len() {
                        opened(old(self)@.expanded, items@[i as int].id)
                    } else {
                        old(self)@.expanded
                    },
                    None => old(self)@.expanded,
                },
                Command::Close => final(self)@.selected == old(self)@.selected
                    && final(self)@.scrollbar == old(self)@.scrollbar
                    && final(self)@.expanded == closed_model() && if old(self)@.expanded.id is Some {
                    r == FeedAction::Nothing
                } else {
                    r == FeedAction::Quit
                },
                Command::Open => final(self)@ == old(self)@ && match old(self)@.selected {
                    Some(i) => if i < items@.len() && items@[i as int].url is Some {
                        r == FeedAction::OpenLink(items@[i as int].url.unwrap())
                    } else {
                        r == FeedAction::NothingToOpen
                    },
                    None => r == FeedAction::NothingToOpen,
                },
                Command::Exit => final(self)@ == old(self)@ && r == FeedAction::Quit,
            },
    {
        match cmd {
            Command::Scroll(delta) => {
                if self.expanded.id().is_some() {
                    self.expanded.scroll(delta);
                } else {
                    self.scroll_rows(delta);
                }
                FeedAction::Nothing
            },
            Command::Expand => {
                match self.selected {
                    Some(i) => {
                        if i < items.len() {
                            self.expanded.open(items[i].id);
                        }
                    },
                    None => {},
                }
                FeedAction::Nothing
            },
            Command::Close => {
                if self.expanded.id().is_some() {
                    self.expanded = ExpandedView::new();
                    FeedAction::Nothing
                } else {
                    FeedAction::Quit
                }
            },
            Command::Open => {
                match self.selected {
                    Some(i) => {
                        if i < items.len() {
                            match &items[i].url {
                                Some(u) => FeedAction::OpenLink(u.clone()),
                                None => FeedAction::NothingToOpen,
                            }
                        } else {
                            FeedAction::NothingToOpen
                        }
                    },
                    None => FeedAction::NothingToOpen,
                }
            },
            Command::Exit => FeedAction::Quit,
        }
    }
}

} // verus!
