//! The list of configured feed sources.
use vstd::prelude::*;
use crate::text::{lines_of, split_lines, trim, trimmed, views};

verus! {

/// The serialization of `s` that the `url` crate gives where it parses `s` as an
/// absolute URL, or `None` where it does not.
pub uninterp spec fn parsed_url(s: Seq<char>) -> Option<Seq<char>>;

/// Relies on `url::Url::parse` and the URL's serialization: both depend on the text
/// alone.
#[verifier::external_body]
fn parse_url(s: &str) -> (r: Option<String>)
    ensures
        match r {
            Some(u) => parsed_url(s@) == Some(u@),
            None => parsed_url(s@) is None,
        },
{
    url::Url::parse(s).ok().map(String::from)
}

/// Normalizes `s` as an absolute URL, if it is one.
pub fn normalize_url(s: &str) -> (r: Option<String>)
    ensures
        match r {
            Some(u) => parsed_url(s@) == Some(u@),
            None => parsed_url(s@) is None,
        },
{
    parse_url(s)
}

/// The sources named by these lines: each line trimmed; blank lines and lines that
/// are not absolute URLs skipped; the others normalized.
pub open spec fn sources_of(lines: Seq<Seq<char>>) -> Seq<Seq<char>>
    decreases lines.len(),
{
    if lines.len() == 0 {
        Seq::empty()
    } else {
        let before = sources_of(lines.drop_last());
        let t = trimmed(lines.last());
        if t.len() == 0 {
            before
        } else {
            match parsed_url(t) {
                Some(u) => before.push(u),
                None => before,
            }
        }
    }
}

/// Reads the configured sources from the text of a source-list file: one URL per
/// line, in order.
pub fn parse_source_list(content: &str) -> (r: Vec<String>)
    ensures
        views(r@) == sources_of(lines_of(content@)),
{
    let lines = split_lines(content);
    let ghost all = views(lines@);
    let mut out: Vec<String> = Vec::new();
    let mut i: usize = 0;
    proof {
        assert(all.take(0) =~= Seq::<Seq<char>>::empty());
    }
    while i < lines.len()
        invariant
            i <= lines@.len(),
            all == views(lines@),
            all == lines_of(content@),
            views(out@) == sources_of(all.take(i as int)),
        decreases lines@.len() - i,
    {
        proof {
            assert(all.take(i + 1).drop_last() =~= all.take(i as int));
            assert(all.take(i + 1).last() == lines@[i as int]@);
        }
        let t = trim(lines[i].as_str());
        if !t.is_empty() {
            match parse_url(t) {
                Some(u) => {
                    let ghost old_out = out@;
                    out.push(u);
                    proof {
                        assert(views(out@) =~= views(old_out).push(u@));
                    }
                },
                None => {},
            }
        }
        i = i + 1;
    }
    proof {
        assert(all.take(lines@.len() as int) =~= all);
    }
    out
}

} // verus!
