use rssterm::decode::{decode_feed, FetchError};
use rssterm::entry::{entry_from_record, read_time, select_authors, select_link, FeedLink, FeedRecord, Published};
use rssterm::progress::{record_outcome, LoadProgress};
use rssterm::store::EntryStore;
use rssterm::timestamp::Timestamp;

fn rss_doc(items: &str) -> String {
    format!(
        "<?xml version=\"1.0\"?><rss version=\"2.0\"><channel><title>t</title><link>https://example.com</link><description>d</description>{items}</channel></rss>"
    )
}

fn rss_item(n: u32, date: Option<&str>) -> String {
    let date = date.map(|d| format!("<pubDate>{d}</pubDate>")).unwrap_or_default();
    format!("<item><title>Item {n}</title><link>https://example.com/{n}</link><description>&lt;p&gt;Body {n}&lt;/p&gt;</description>{date}</item>")
}

#[test]
fn three_sources_one_fails_one_malformed() {
    let dates = [
        "Mon, 01 Jan 2024 12:00:00 +0000",
        "Wed, 03 Jan 2024 12:00:00 +0000",
        "Tue, 02 Jan 2024 12:00:00 +0000",
        "Fri, 05 Jan 2024 12:00:00 +0000",
        "Thu, 04 Jan 2024 12:00:00 +0000",
    ];
    let five: String = (0..5).map(|i| rss_item(i, Some(dates[i as usize]))).collect();
    let good = decode_feed(rss_doc(&five).as_bytes());
    assert_eq!(good.as_ref().map(|v| v.len()), Ok(5));
    let malformed = decode_feed(rss_doc(&rss_item(9, None)).as_bytes());
    assert_eq!(malformed.as_ref().map(|v| v.len()), Ok(0));

    let mut store = EntryStore::new();
    let mut progress = LoadProgress::start(3);
    assert!(progress.is_loading());
    assert_eq!(record_outcome(&mut store, &mut progress, good), None);
    assert!(progress.is_loading());
    assert_eq!(record_outcome(&mut store, &mut progress, Err(FetchError::Request)), Some(FetchError::Request));
    assert!(progress.is_loading());
    assert_eq!(record_outcome(&mut store, &mut progress, malformed), None);
    assert!(!progress.is_loading());
    assert_eq!(progress.remaining(), 0);

    let snap = store.snapshot();
    assert_eq!(snap.len(), 5);
    let secs: Vec<i64> = snap.iter().map(|e| e.published_at.secs).collect();
    assert_eq!(secs, vec![1704456000, 1704369600, 1704283200, 1704196800, 1704110400]);
    assert_eq!(snap[0].title.as_deref(), Some("Item 3"));
    assert_eq!(snap[0].url.as_deref(), Some("https://example.com/3"));
    assert!(snap[0].summary.as_ref().unwrap().iter().any(|l| l.contains("Body 3")));
}

#[test]
fn undecodable_body_is_an_error() {
    assert_eq!(decode_feed(b"not a feed").map(|v| v.len()), Err(FetchError::Decode));
}

#[test]
fn atom_feed_decodes() {
    let atom = "<?xml version=\"1.0\"?><feed xmlns=\"http://www.w3.org/2005/Atom\"><title>t</title><id>urn:x</id><updated>2024-01-01T00:00:00Z</updated>\
        <entry><title>A</title><id>urn:a</id><updated>2024-01-02T00:00:00Z</updated>\
        <link rel=\"self\" href=\"https://example.com/self\"/><link rel=\"alternate\" href=\"https://example.com/a\"/>\
        <author><name>Ann</name></author><author><name>Bob</name></author>\
        <summary>Short</summary></entry></feed>";
    let v = decode_feed(atom.as_bytes()).unwrap();
    assert_eq!(v.len(), 1);
    assert_eq!(v[0].title.as_deref(), Some("A"));
    assert_eq!(v[0].url.as_deref(), Some("https://example.com/a"));
    assert_eq!(v[0].authors, vec!["Ann", "Bob"]);
    assert_eq!(v[0].published_at, Timestamp::new(1704153600, 0));
}

#[test]
fn read_time_parses_text_dates() {
    assert_eq!(read_time(&Some(Published::Text("Tue, 1 Jul 2003 10:52:37 +0200".into()))), Some(Timestamp::new(1_057_049_557, 0)));
    assert_eq!(read_time(&Some(Published::At(3, 4))), Some(Timestamp::new(3, 4)));
    assert_eq!(read_time(&None), None);
}

#[test]
fn rss_item_fields_become_entry() {
    let item = "<item xmlns:dc=\"http://purl.org/dc/elements/1.1/\"><title>T</title><link>https://example.com/t</link>\
        <author>a@example.com</author><dc:creator>Dee</dc:creator><description>Plain</description>\
        <pubDate>Mon, 01 Jan 2024 12:00:00 +0000</pubDate></item>";
    let doc = format!("<?xml version=\"1.0\"?><rss version=\"2.0\" xmlns:dc=\"http://purl.org/dc/elements/1.1/\"><channel><title>t</title><link>https://example.com</link><description>d</description>{item}</channel></rss>");
    let v = decode_feed(doc.as_bytes()).unwrap();
    assert_eq!(v.len(), 1);
    assert_eq!(v[0].url.as_deref(), Some("https://example.com/t"));
    assert_eq!(v[0].authors, vec!["Dee"]);
    assert_eq!(v[0].summary, Some(vec!["Plain".to_string()]));
    assert_eq!(v[0].published_at, Timestamp::new(1704110400, 0));
}

#[test]
fn no_sources_is_not_loading() {
    let p = LoadProgress::start(0);
    assert!(p.no_sources());
    assert!(!p.is_loading());
}

#[test]
fn link_prefers_alternate() {
    let l = |rel: &str, href: &str| FeedLink { rel: Some(rel.to_string()), href: href.to_string() };
    assert_eq!(select_link(&vec![l("self", "a"), l("alternate", "b"), l("alternate", "c")]), Some("b".to_string()));
    assert_eq!(select_link(&vec![l("self", "a"), l("related", "b")]), Some("a".to_string()));
    assert_eq!(select_link(&vec![]), None);
    let bare = FeedLink { rel: None, href: "only".to_string() };
    assert_eq!(select_link(&vec![bare]), Some("only".to_string()));
}

#[test]
fn authors_prefer_rich_metadata() {
    assert_eq!(select_authors(Some(vec!["X".into(), "Y".into()]), Some("Z".into())), vec!["X", "Y"]);
    assert_eq!(select_authors(Some(vec![]), Some("Z".into())), vec!["Z"]);
    assert_eq!(select_authors(None, Some("Z".into())), vec!["Z"]);
    assert!(select_authors(None, None).is_empty());
}

#[test]
fn record_without_date_is_dropped() {
    let rec = FeedRecord {
        title: Some("t".into()),
        links: vec![],
        rich_authors: None,
        fallback_author: None,
        summary_html: None,
        body_html: Some("<b>x</b>".into()),
        published: None,
    };
    assert!(entry_from_record(rec.clone()).is_none());
    let unreadable = FeedRecord { published: Some(Published::Text("soon".into())), ..rec.clone() };
    assert!(entry_from_record(unreadable).is_none());
    let dated = FeedRecord { published: Some(Published::At(5, 0)), ..rec };
    let e = entry_from_record(dated).unwrap();
    assert_ne!(e.id, 0);
    assert!(e.summary.is_none());
    assert!(e.body.unwrap().iter().any(|l| l.contains('x')));
}
