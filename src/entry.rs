//! Feed entries and how one is built from the fields a decoder read.
use vstd::prelude::*;
use crate::identity::{entry_id, identify, opt_view};
use crate::text::{html_lines, html_lines_of, views};
use crate::timestamp::{parse_date, rfc2822_instant, Timestamp};

verus! {

/// One feed item, as the reader shows it.
#[derive(Clone, Debug)]
pub struct FeedItem {
    /// Stable, non-zero, derived from the title, the descriptive text and the time.
    pub id: u64,
    pub title: Option<String>,
    pub url: Option<String>,
    pub authors: Vec<String>,
    /// The full content as lines of text, preferred for display.
    pub body: Option<Vec<String>>,
    /// The summary as lines of text, shown when there is no body.
    pub summary: Option<Vec<String>>,
    pub published_at: Timestamp,
}

/// A link of an item, with its relation (`alternate`, `self`, ...) where the format
/// gives one.
#[derive(Clone, Debug)]
pub struct FeedLink {
    pub rel: Option<String>,
    pub href: String,
}

/// The fields a decoder read from one item of a feed, as plain values.
#[derive(Clone, Debug)]
pub struct FeedRecord {
    pub title: Option<String>,
    pub links: Vec<FeedLink>,
    /// Authors from the richer metadata (Dublin Core creators, Atom persons), where
    /// the item has such metadata.
    pub rich_authors: Option<Vec<String>>,
    /// The single author field, used only when there are no richer authors.
    pub fallback_author: Option<String>,
    /// The summary or description, as markup.
    pub summary_html: Option<String>,
    /// The full content, as markup.
    pub body_html: Option<String>,
    /// The publication time, where the item has one.
    pub published: Option<Published>,
}

/// A publication time as a decoder hands it over.
#[derive(Clone, Debug)]
pub enum Published {
    /// An RFC 2822 date-time, as written in the feed.
    Text(String),
    /// A time the decoder already read: seconds since the epoch and nanoseconds.
    At(i64, u32),
}

/// The publication time of a record, where it has one that can be read.
pub open spec fn record_time(p: Option<Published>) -> Option<Timestamp> {
    match p {
        None => None,
        Some(Published::At(secs, nanos)) => Some(Timestamp { secs, nanos }),
        Some(Published::Text(s)) => match rfc2822_instant(s@) {
            Some((secs, nanos)) => Some(Timestamp { secs, nanos }),
            None => None,
        },
    }
}

/// Reads the publication time of a record.
pub fn read_time(p: &Option<Published>) -> (r: Option<Timestamp>)
    ensures
        r == record_time(*p),
{
    match p {
        None => None,
        Some(Published::At(secs, nanos)) => Some(Timestamp::new(*secs, *nanos)),
        Some(Published::Text(s)) => parse_date(s.as_str()),
    }
}

pub open spec fn opt_string(o: Option<String>) -> Option<Seq<char>> {
    match o {
        Some(s) => Some(s@),
        None => None,
    }
}

pub open spec fn opt_lines(o: Option<Vec<String>>) -> Option<Seq<Seq<char>>> {
    match o {
        Some(v) => Some(views(v@)),
        None => None,
    }
}

/// The lines shown for optional markup.
pub open spec fn opt_html_lines(o: Option<String>) -> Option<Seq<Seq<char>>> {
    match o {
        Some(h) => Some(html_lines_of(h@)),
        None => None,
    }
}

pub open spec fn is_alternate(l: FeedLink) -> bool {
    match l.rel {
        Some(r) => r@ == "alternate"@,
        None => false,
    }
}

/// The target of the first link whose relation is `alternate`.
pub open spec fn alternate_href(links: Seq<FeedLink>) -> Option<Seq<char>>
    decreases links.len(),
{
    if links.len() == 0 {
        None
    } else if is_alternate(links[0]) {
        Some(links[0].href@)
    } else {
        alternate_href(links.drop_first())
    }
}

/// The link an entry points to: the first `alternate` one, else the first one.
pub open spec fn chosen_link(links: Seq<FeedLink>) -> Option<Seq<char>> {
    match alternate_href(links) {
        Some(h) => Some(h),
        None => if links.len() > 0 {
            Some(links[0].href@)
        } else {
            None
        },
    }
}

/// The authors of an entry: the richer list where there is one and it is not
/// empty, else the single author if there is one.
pub open spec fn chosen_authors(rich: Option<Seq<Seq<char>>>, fallback: Option<Seq<char>>) -> Seq<
    Seq<char>,
> {
    if rich is Some && rich.unwrap().len() > 0 {
        rich.unwrap()
    } else {
        match fallback {
            Some(a) => seq![a],
            None => Seq::empty(),
        }
    }
}

/// `e` is the entry built from `rec`.
pub open spec fn entry_of_record(rec: FeedRecord, e: FeedItem) -> bool {
    &&& record_time(rec.published) == Some(e.published_at)
    &&& e.id == entry_id(opt_string(rec.title), opt_string(rec.summary_html), e.published_at)
    &&& e.title == rec.title
    &&& opt_string(e.url) == chosen_link(rec.links@)
    &&& views(e.authors@) == chosen_authors(opt_lines(rec.rich_authors), opt_string(rec.fallback_author))
    &&& opt_lines(e.body) == opt_html_lines(rec.body_html)
    &&& opt_lines(e.summary) == opt_html_lines(rec.summary_html)
}

/// Picks the link an entry points to.
pub fn select_link(links: &Vec<FeedLink>) -> (r: Option<String>)
    ensures
        opt_string(r) == chosen_link(links@),
{
    let alternate = "alternate".to_owned();
    let mut i: usize = 0;
    proof {
        assert(links@.skip(0) =~= links@);
    }
    while i < links.len()
        invariant
            i <= links@.len(),
            alternate@ == "alternate"@,
            alternate_href(links@) == alternate_href(links@.skip(i as int)),
        decreases links@.len() - i,
    {
        let ghost rest = links@.skip(i as int);
        let found = match &links[i].rel {
            Some(rel) => *rel == alternate,
            None => false,
        };
        if found {
            return Some(links[i].href.clone());
        }
        proof {
            assert(rest.drop_first() =~= links@.skip(i + 1));
        }
        i = i + 1;
    }
    proof {
        assert(links@.skip(i as int).len() == 0);
    }
    if links.len() > 0 {
        Some(links[0].href.clone())
    } else {
        None
    }
}

/// Picks the authors of an entry.
pub fn select_authors(rich: Option<Vec<String>>, fallback: Option<String>) -> (r: Vec<String>)
    ensures
        views(r@) == chosen_authors(opt_lines(rich), opt_string(fallback)),
{
    let listed = match rich {
        Some(v) => if v.len() > 0 {
            Some(v)
        } else {
            None
        },
        None => None,
    };
    if let Some(v) = listed {
        v
    } else {
        match fallback {
            Some(a) => {
                let v = vec![a];
                proof {
                    assert(views(v@) =~= seq![a@]);
                }
                v
            },
            None => {
                let v: Vec<String> = Vec::new();
                proof {
                    assert(views(v@) =~= Seq::<Seq<char>>::empty());
                }
                v
            },
        }
    }
}

fn html_lines_opt(o: &Option<String>) -> (r: Option<Vec<String>>)
    ensures
        opt_lines(r) == opt_html_lines(*o),
{
    match o {
        Some(h) => Some(html_lines(h.as_str())),
        None => None,
    }
}

fn as_str_opt(o: &Option<String>) -> (r: Option<&str>)
    ensures
        opt_view(r) == opt_string(*o),
{
    match o {
        Some(s) => Some(s.as_str()),
        None => None,
    }
}

/// Builds the entry for one decoded item; an item without a readable publication
/// time is dropped.
pub fn entry_from_record(rec: FeedRecord) -> (r: Option<FeedItem>)
    ensures
        match r {
            None => record_time(rec.published) is None,
            Some(e) => entry_of_record(rec, e),
        },
{
    let ghost orig = rec;
    match read_time(&rec.published) {
        None => None,
        Some(published_at) => {
            let id = identify(as_str_opt(&rec.title), as_str_opt(&rec.summary_html), &published_at);
            let url = select_link(&rec.links);
            let body = html_lines_opt(&rec.body_html);
            let summary = html_lines_opt(&rec.summary_html);
            let authors = select_authors(rec.rich_authors, rec.fallback_author);
            Some(FeedItem { id, title: rec.title, url, authors, body, summary, published_at })
        },
    }
}

/// The records that carry a publication time, in order.
pub open spec fn dated(records: Seq<FeedRecord>) -> Seq<FeedRecord>
    decreases records.len(),
{
    if records.len() == 0 {
        Seq::empty()
    } else {
        let d = dated(records.drop_last());
        if record_time(records.last().published) is Some {
            d.push(records.last())
        } else {
            d
        }
    }
}

/// Builds the entries of a decoded feed, in the feed's order, dropping items that
/// have no readable publication time.
pub fn entries_from_records(records: Vec<FeedRecord>) -> (r: Vec<FeedItem>)
    ensures
        r@.len() == dated(records@).len(),
        forall|i: int| 0 <= i < r@.len() ==> entry_of_record(#[trigger] dated(records@)[i], r@[i]),
{
    let ghost all = records@;
    let mut out: Vec<FeedItem> = Vec::new();
    proof {
        assert(all.take(0) =~= Seq::<FeedRecord>::empty());
    }
    for rec in it: records
        invariant
            it.seq() == all,
            out@.len() == dated(all.take(it.index() as int)).len(),
            forall|j: int|
                0 <= j < out@.len() ==> entry_of_record(
                    #[trigger] dated(all.take(it.index() as int))[j],
                    out@[j],
                ),
    {
        proof {
            let i = it.index() as int;
            assert(rec == all[i]);
            assert(all.take(i + 1).drop_last() =~= all.take(i));
        }
        let made = entry_from_record(rec);
        match made {
            Some(e) => {
                out.push(e);
            },
            None => {},
        }
    }
    proof {
        assert(all.take(all.len() as int) =~= all);
    }
    out
}

} // verus!
