use rssterm::entry::FeedItem;
use rssterm::feed_view::{FeedAction, FeedView};
use rssterm::input::Command;
use rssterm::layout::{layout_rows, row_geometry};
use rssterm::timestamp::Timestamp;

fn item(id: u64, url: Option<&str>) -> FeedItem {
    FeedItem {
        id,
        title: Some(format!("entry {id}")),
        url: url.map(String::from),
        authors: vec![],
        body: None,
        summary: None,
        published_at: Timestamp::new(1_000, 0),
    }
}

fn laid_out(items: &[FeedItem], counts: Vec<(usize, usize)>) -> FeedView {
    let mut view = FeedView::new();
    view.apply_layout(items, &row_geometry(&counts));
    view
}

#[test]
fn row_geometry_totals() {
    let g = row_geometry(&vec![(2, 1), (1, 3), (1, 1)]);
    assert_eq!(g.heights, vec![2, 3, 1]);
    assert_eq!(g.cumulative, vec![3, 7, 8]);
    assert_eq!(g.total, 8);
    let empty = row_geometry(&vec![]);
    assert!(empty.cumulative.is_empty());
    assert_eq!(empty.total, 0);
}

#[test]
fn first_row_selected_after_layout() {
    let items = vec![item(1, None), item(2, None)];
    let view = laid_out(&items, vec![(1, 1), (1, 1)]);
    assert_eq!(view.selected(), Some(0));
    assert_eq!(view.content_length(), 3);
}

#[test]
fn scrollbar_is_zero_at_first_row() {
    let items = vec![item(1, None), item(2, None), item(3, None)];
    let mut view = laid_out(&items, vec![(5, 1), (2, 9), (1, 1)]);
    view.scroll_rows(2);
    assert_eq!(view.scrollbar_position(), 16);
    view.scroll_rows(-1);
    assert_eq!(view.scrollbar_position(), 6);
    view.scroll_rows(-1);
    assert_eq!(view.selected(), Some(0));
    assert_eq!(view.scrollbar_position(), 0);
    view.scroll_rows(isize::MAX);
    view.scroll_rows(isize::MIN);
    assert_eq!(view.scrollbar_position(), 0);
}

#[test]
fn scrolling_past_last_row_stays() {
    let items: Vec<FeedItem> = (1..=4).map(|i| item(i, None)).collect();
    let mut view = laid_out(&items, vec![(1, 1); 4]);
    view.handle_command(Command::Scroll(isize::MAX), &items);
    assert_eq!(view.selected(), Some(3));
    view.handle_command(Command::Scroll(5), &items);
    assert_eq!(view.selected(), Some(3));
    view.handle_command(Command::Scroll(-10), &items);
    assert_eq!(view.selected(), Some(0));
}

#[test]
fn close_without_detail_quits() {
    let items = vec![item(1, None)];
    let mut view = laid_out(&items, vec![(1, 1)]);
    assert_eq!(view.handle_command(Command::Close, &items), FeedAction::Quit);
    assert_eq!(view.handle_command(Command::Exit, &items), FeedAction::Quit);
}

#[test]
fn open_hands_back_link() {
    let items = vec![item(1, Some("https://example.com/1")), item(2, None)];
    let mut view = laid_out(&items, vec![(1, 1), (1, 1)]);
    assert_eq!(
        view.handle_command(Command::Open, &items),
        FeedAction::OpenLink("https://example.com/1".to_string())
    );
    view.scroll_rows(1);
    assert_eq!(view.handle_command(Command::Open, &items), FeedAction::NothingToOpen);
    let mut empty = FeedView::new();
    assert_eq!(empty.handle_command(Command::Open, &[]), FeedAction::NothingToOpen);
}

#[test]
fn selection_follows_expanded_entry() {
    let items = vec![item(1, None), item(2, None)];
    let mut view = laid_out(&items, vec![(1, 1), (1, 1)]);
    view.scroll_rows(1);
    view.handle_command(Command::Expand, &items);
    assert!(view.is_expanded());
    assert_eq!(view.expanded_position(&items), Some(1));
    let resorted = vec![item(3, None), item(2, None), item(1, None)];
    view.apply_layout(&resorted, &row_geometry(&vec![(1, 1); 3]));
    assert_eq!(view.selected(), Some(1));
    view.handle_command(Command::Scroll(1), &resorted);
    assert_eq!(view.selected(), Some(1));
}

#[test]
fn layout_rows_wraps_columns() {
    let now = Timestamp::new(1_000 + 7200, 0);
    let mut a = item(1, Some("https://e.com"));
    a.title = Some("hello world".into());
    let mut b = item(2, None);
    b.title = None;
    let items = vec![a, b];
    let layout = layout_rows(&items, &now, 5, 20);
    assert_eq!(layout.rows[0].content, vec!["hello", "world", "https://e.com"]);
    assert_eq!(layout.rows[0].date, vec!["2 hours ago"]);
    assert_eq!(layout.rows[1].content, vec!["untit", "led"]);
    assert_eq!(layout.geometry.heights, vec![3, 2]);
    assert_eq!(layout.geometry.cumulative, vec![4, 6]);
}

#[test]
fn selection_follows_open_entry_after_resort() {
    let items = vec![item(1, None), item(2, None)];
    let mut view = laid_out(&items, vec![(1, 1), (1, 1)]);
    view.handle_command(Command::Expand, &items);
    let resorted = vec![item(3, None), item(4, None), item(1, None)];
    view.apply_layout(&resorted, &row_geometry(&vec![(1, 1); 3]));
    assert_eq!(view.selected(), Some(2));
    view.handle_command(Command::Close, &resorted);
    assert_eq!(view.selected(), Some(2));
}
