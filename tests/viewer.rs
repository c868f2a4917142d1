use rssterm::entry::FeedItem;
use rssterm::feed_view::{FeedAction, FeedView};
use rssterm::input::Command;
use rssterm::timestamp::Timestamp;
use rssterm::viewer::ExpandedView;

fn item(id: u64, body: Option<Vec<&str>>, summary: Option<Vec<&str>>) -> FeedItem {
    FeedItem {
        id,
        title: Some("t".into()),
        url: None,
        authors: vec![],
        body: body.map(|b| b.into_iter().map(String::from).collect()),
        summary: summary.map(|s| s.into_iter().map(String::from).collect()),
        published_at: Timestamp::new(0, 0),
    }
}

#[test]
fn scroll_offset_is_clamped() {
    let e = item(1, Some(vec!["a", "b", "c", "d", "e", "f"]), None);
    let mut v = ExpandedView::new();
    v.open(1);
    v.sync(&e, 10, 4);
    assert_eq!(v.max_scroll_offset(), 2);
    v.scroll(5);
    assert_eq!(v.scroll_offset(), 2);
    v.scroll(-1);
    assert_eq!(v.scroll_offset(), 1);
    v.scroll(-10);
    assert_eq!(v.scroll_offset(), 0);
    v.scroll(isize::MAX);
    assert_eq!(v.scroll_offset(), 2);
    assert_eq!(v.visible_lines(), vec!["c", "d", "e", "f"]);
    v.scroll(isize::MIN);
    assert_eq!(v.scroll_offset(), 0);
    v.scroll(isize::MAX - 1);
    assert_eq!(v.scroll_offset(), 2);
}

#[test]
fn jump_to_end_of_empty_body() {
    let e = item(2, None, None);
    let mut v = ExpandedView::new();
    v.open(2);
    v.sync(&e, 10, 4);
    v.scroll(isize::MAX);
    assert_eq!(v.scroll_offset(), 0);
    assert!(v.visible_lines().is_empty());
}

#[test]
fn resize_rewraps_and_reclamps() {
    let e = item(3, Some(vec!["abcdefgh"]), Some(vec!["unused"]));
    let mut v = ExpandedView::new();
    v.open(3);
    v.sync(&e, 2, 1);
    assert_eq!(v.content_len(), 4);
    v.scroll(isize::MAX);
    assert_eq!(v.scroll_offset(), 3);
    v.sync(&e, 2, 3);
    assert_eq!(v.scroll_offset(), 1);
    v.sync(&e, 4, 3);
    assert_eq!(v.content_len(), 2);
    assert_eq!(v.scroll_offset(), 0);
}

#[test]
fn summary_shown_without_body() {
    let e = item(4, None, Some(vec!["sum"]));
    let mut v = ExpandedView::new();
    v.open(4);
    v.sync(&e, 10, 5);
    assert_eq!(v.visible_lines(), vec!["sum"]);
}

#[test]
fn reopening_reproduces_content() {
    let e = item(5, Some(vec!["one two three four", "five"]), None);
    let items = vec![e.clone()];
    let mut view = FeedView::new();
    let geometry = rssterm::layout::row_geometry(&vec![(1, 1)]);
    view.apply_layout(&items, &geometry);
    view.handle_command(Command::Expand, &items);
    view.sync_expanded(&items[0], 8, 2);
    let first = {
        let ex = view.expanded();
        let mut all = Vec::new();
        let mut probe = ExpandedView::new();
        probe.open(5);
        probe.sync(&e, 8, 100);
        all.extend(probe.visible_lines());
        assert_eq!(ex.content_len(), all.len());
        all
    };
    view.handle_command(Command::Scroll(1), &items);
    assert_eq!(view.handle_command(Command::Close, &items), FeedAction::Nothing);
    assert!(!view.is_expanded());
    view.handle_command(Command::Expand, &items);
    view.sync_expanded(&items[0], 8, 100);
    assert_eq!(view.expanded().scroll_offset(), 0);
    assert_eq!(view.expanded().visible_lines(), first);
    assert_eq!(first, vec!["one two", "three", "four", "five"]);
}
