//! Content-derived identifiers for entries.
use vstd::prelude::*;
use crate::timestamp::Timestamp;
use std::hash::BuildHasher;

verus! {

/// The 64-bit hash that std's default hasher gives the fields of an entry.
pub uninterp spec fn content_hash(
    title: Option<Seq<char>>,
    descriptive: Option<Seq<char>>,
    secs: i64,
    nanos: u32,
) -> u64;

/// The view of an optional string.
pub open spec fn opt_view(s: Option<&str>) -> Option<Seq<char>> {
    match s {
        Some(t) => Some(t@),
        None => None,
    }
}

/// Relies on `BuildHasher::hash_one` of `BuildHasherDefault<DefaultHasher>`: every
/// hasher made that way starts from the same state, so the hash depends on the
/// fields alone.
#[verifier::external_body]
fn hash_fields(title: Option<&str>, descriptive: Option<&str>, secs: i64, nanos: u32) -> (r: u64)
    ensures
        r == content_hash(opt_view(title), opt_view(descriptive), secs, nanos),
{
    std::hash::BuildHasherDefault::<std::hash::DefaultHasher>::default().hash_one(
        (title, descriptive, secs, nanos),
    )
}

/// The identifier that stands in for a hash of zero, which would read as "unset".
pub const ZERO_HASH_ID: u64 = 0x9e37_79b9_7f4a_7c15;

/// An identifier from a hash: the hash itself, never zero.
pub open spec fn id_from_hash(h: u64) -> u64 {
    if h == 0 {
        ZERO_HASH_ID
    } else {
        h
    }
}

/// The identifier of an entry with these fields.
pub open spec fn entry_id(
    title: Option<Seq<char>>,
    descriptive: Option<Seq<char>>,
    published: Timestamp,
) -> u64 {
    id_from_hash(content_hash(title, descriptive, published.secs, published.nanos))
}

/// Derives the stable, non-zero identifier of an entry from its title, its
/// descriptive text and its publication time. An absent field hashes apart from a
/// present but empty one.
pub fn identify(title: Option<&str>, descriptive: Option<&str>, published: &Timestamp) -> (id: u64)
    ensures
        id == entry_id(opt_view(title), opt_view(descriptive), *published),
        id != 0,
{
    let h = hash_fields(title, descriptive, published.secs, published.nanos);
    if h == 0 {
        ZERO_HASH_ID
    } else {
        h
    }
}

/// `identify` depends on its fields alone: equal fields give equal identifiers,
/// whenever and in whatever order entries are fetched.
pub proof fn lemma_identify_deterministic(
    title1: Option<Seq<char>>,
    descriptive1: Option<Seq<char>>,
    published1: Timestamp,
    title2: Option<Seq<char>>,
    descriptive2: Option<Seq<char>>,
    published2: Timestamp,
)
    requires
        title1 == title2,
        descriptive1 == descriptive2,
        published1 == published2,
    ensures
        entry_id(title1, descriptive1, published1) == entry_id(title2, descriptive2, published2),
        entry_id(title1, descriptive1, published1) != 0,
{
}

} // verus!
