//! Decoding a fetched feed: RSS first, then Atom, into entries.
use vstd::prelude::*;
use crate::entry::{dated, entries_from_records, entry_of_record, FeedItem, FeedLink, FeedRecord, Published};

verus! {

/// Whether the RSS decoder accepts these bytes as a channel.
pub uninterp spec fn rss_accepts(bytes: Seq<u8>) -> bool;

/// Whether the Atom decoder accepts these bytes as a feed.
pub uninterp spec fn atom_accepts(bytes: Seq<u8>) -> bool;

/// The items of the RSS channel in these bytes, in order, each as the fields it carries.
pub uninterp spec fn rss_records_of(bytes: Seq<u8>) -> Seq<FeedRecord>;

/// The entries of the Atom feed in these bytes, in order, each as the fields it carries.
pub uninterp spec fn atom_records_of(bytes: Seq<u8>) -> Seq<FeedRecord>;

/// Relies on `rss::Channel::read_from` and the item accessors (`title`, `link`,
/// `dublin_core_ext` and its `creators`, `author`, `description`, `content`,
/// `pub_date`): whether it succeeds, and each item's fields, depend on the bytes alone.
/// The date stays text; an RSS item has at most one link, without a relation.
#[verifier::external_body]
fn read_rss(bytes: &[u8]) -> (r: Option<Vec<FeedRecord>>)
    ensures
        r is Some <==> rss_accepts(bytes@),
        r matches Some(v) ==> v@ == rss_records_of(bytes@),
{
    rss::Channel::read_from(bytes).ok().map(|ch| ch.items().iter().map(|i| FeedRecord {
        title: i.title().map(String::from),
        links: i.link().map(|l| FeedLink { rel: None, href: l.into() }).into_iter().collect(),
        rich_authors: i.dublin_core_ext().map(|d| d.creators().to_vec()),
        fallback_author: i.author().map(String::from),
        summary_html: i.description().map(String::from),
        body_html: i.content().map(String::from),
        published: i.pub_date().map(|d| Published::Text(d.into())),
    }).collect())
}

/// Relies on `atom_syndication::Feed::read_from`, whose feed and entries hold their
/// fields in public fields (the title's and summary's `value`, the links' `rel` and
/// `href`, the authors' `name`, the content's `value`, and `updated`, read as seconds
/// and nanoseconds by chrono's `timestamp` and `timestamp_subsec_nanos`): whether it
/// succeeds, and each entry's fields, depend on the bytes alone. Atom has no
/// single-author field.
#[verifier::external_body]
fn read_atom(bytes: &[u8]) -> (r: Option<Vec<FeedRecord>>)
    ensures
        r is Some <==> atom_accepts(bytes@),
        r matches Some(v) ==> v@ == atom_records_of(bytes@),
{
    atom_syndication::Feed::read_from(bytes).ok().map(|f| f.entries.into_iter().map(|e| FeedRecord {
        title: Some(e.title.value),
        links: e.links.into_iter().map(|l| FeedLink { rel: Some(l.rel), href: l.href }).collect(),
        rich_authors: Some(e.authors.into_iter().map(|p| p.name).collect()),
        fallback_author: None,
        summary_html: e.summary.map(|t| t.value),
        body_html: e.content.and_then(|c| c.value),
        published: Some(Published::At(e.updated.timestamp(), e.updated.timestamp_subsec_nanos())),
    }).collect())
}

/// Why a source contributed nothing.
#[derive(Clone, Copy, Debug, PartialEq, Eq)]
pub enum FetchError {
    /// The request failed or timed out.
    Request,
    /// The response was neither an RSS channel nor an Atom feed.
    Decode,
}

/// `entries` are the entries built, in order, from the dated ones among `records`.
pub open spec fn built_from(entries: Seq<FeedItem>, records: Seq<FeedRecord>) -> bool {
    &&& entries.len() == dated(records).len()
    &&& forall|i: int| 0 <= i < entries.len() ==> entry_of_record(#[trigger] dated(records)[i], entries[i])
}

/// Decodes a response body: as an RSS channel if the RSS decoder accepts it, else as
/// an Atom feed; fails only when neither accepts it. Each item becomes an entry in
/// the feed's order, and items without a readable publication time are dropped.
pub fn decode_feed(bytes: &[u8]) -> (r: Result<Vec<FeedItem>, FetchError>)
    ensures
        r is Err <==> (!rss_accepts(bytes@) && !atom_accepts(bytes@)),
        r is Err ==> r == Err::<Vec<FeedItem>, FetchError>(FetchError::Decode),
        r matches Ok(v) ==> built_from(
            v@,
            if rss_accepts(bytes@) {
                rss_records_of(bytes@)
            } else {
                atom_records_of(bytes@)
            },
        ),
{
    match read_rss(bytes) {
        Some(records) => Ok(entries_from_records(records)),
        None => match read_atom(bytes) {
            Some(records) => Ok(entries_from_records(records)),
            None => Err(FetchError::Decode),
        },
    }
}

} // verus!
