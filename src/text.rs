//! Plain-text helpers: splitting into lines, trimming, wrapping to a width,
//! and turning HTML markup into lines of text.
use vstd::prelude::*;
use vstd::std_specs::iter::IteratorSpec;

verus! {

/// The views of a sequence of strings.
pub open spec fn views(v: Seq<String>) -> Seq<Seq<char>> {
    v.map_values(|s: String| s@)
}

/// The characters of `s`, one element each.
pub fn chars_of(s: &str) -> (r: Vec<char>)
    ensures
        r@ == s@,
{
    let mut out: Vec<char> = Vec::new();
    for c in it: s.chars()
        invariant
            it.seq() == s@,
            out@ == it.seq().take(it.index() as int),
    {
        out.push(c);
    }
    assert(out@ =~= s@);
    out
}

// ---------------------------------------------------------------------------
// Lines
// ---------------------------------------------------------------------------
/// The pieces of `s` between `'\n'` characters; there is always at least one.
pub open spec fn pieces(s: Seq<char>) -> Seq<Seq<char>>
    decreases s.len(),
{
    if s.len() == 0 {
        seq![Seq::empty()]
    } else {
        let p = pieces(s.drop_last());
        if s.last() == '\n' {
            p.push(Seq::empty())
        } else {
            p.update(p.len() - 1, p.last().push(s.last()))
        }
    }
}

/// A piece that ended at a `'\n'` loses one `'\r'` just before it.
pub open spec fn strip_cr(p: Seq<char>) -> Seq<char> {
    if p.len() > 0 && p.last() == '\r' {
        p.drop_last()
    } else {
        p
    }
}

/// The lines of `s`: split at `'\n'` or `"\r\n"`; a final line ending is optional, so
/// the empty piece after it is not a line, and the empty text has no lines.
pub open spec fn lines_of(s: Seq<char>) -> Seq<Seq<char>> {
    let p = pieces(s);
    let ended = p.drop_last().map_values(|x: Seq<char>| strip_cr(x));
    if p.last().len() == 0 {
        ended
    } else {
        ended.push(p.last())
    }
}

/// Splits `s` into its lines (see `lines_of`).
pub fn split_lines(s: &str) -> (r: Vec<String>)
    ensures
        views(r@) == lines_of(s@),
{
    let v = chars_of(s);
    let n = v.len();
    let mut out: Vec<String> = Vec::new();
    let mut start: usize = 0;
    let mut i: usize = 0;
    proof {
        assert(v@.take(0) =~= Seq::<char>::empty());
    }
    while i < n
        invariant
            n == v@.len(),
            v@ == s@,
            start <= i <= n,
            pieces(v@.take(i as int)).len() >= 1,
            views(out@) == pieces(v@.take(i as int)).drop_last().map_values(
                |x: Seq<char>| strip_cr(x),
            ),
            pieces(v@.take(i as int)).last() == v@.subrange(start as int, i as int),
        decreases n - i,
    {
        let ghost before = v@.take(i as int);
        let ghost after = v@.take(i + 1);
        proof {
            assert(after.drop_last() =~= before);
            assert(after.last() == v@[i as int]);
        }
        if v[i] == '\n' {
            let mut end = i;
            if end > start && v[end - 1] == '\r' {
                end = end - 1;
            }
            let piece = s.substring_char(start, end).to_owned();
            proof {
                let whole = v@.subrange(start as int, i as int);
                assert(strip_cr(whole) =~= v@.subrange(start as int, end as int));
            }
            let ghost old_out = out@;
            out.push(piece);
            start = i + 1;
            proof {
                let p = pieces(before);
                assert(out@ == old_out.push(piece));
                assert(views(out@) =~= views(old_out).push(piece@));
                assert(pieces(after) == p.push(Seq::empty()));
                assert(pieces(after).drop_last() =~= p);
                assert(p =~= p.drop_last().push(p.last()));
                assert(views(out@) =~= pieces(after).drop_last().map_values(
                    |x: Seq<char>| strip_cr(x),
                ));
                assert(v@.subrange(start as int, i + 1) =~= Seq::<char>::empty());
            }
        } else {
            proof {
                let p = pieces(before);
                assert(pieces(after) == p.update(p.len() - 1, p.last().push(v@[i as int])));
                assert(pieces(after).drop_last() =~= p.drop_last());
                assert(v@.subrange(start as int, i + 1) =~= v@.subrange(
                    start as int,
                    i as int,
                ).push(v@[i as int]));
            }
        }
        i = i + 1;
    }
    proof {
        assert(v@.take(n as int) =~= v@);
    }
    if start < n {
        let piece = s.substring_char(start, n).to_owned();
        out.push(piece);
        proof {
            let p = pieces(s@);
            assert(views(out@) =~= p.drop_last().map_values(|x: Seq<char>| strip_cr(x)).push(
                p.last(),
            ));
        }
    }
    out
}

// ---------------------------------------------------------------------------
// Trimming
// ---------------------------------------------------------------------------
/// Unicode's `White_Space` characters.
pub open spec fn is_white(c: char) -> bool {
    ||| ('\u{9}' <= c && c <= '\u{d}')
    ||| c == ' '
    ||| c == '\u{85}'
    ||| c == '\u{a0}'
    ||| c == '\u{1680}'
    ||| ('\u{2000}' <= c && c <= '\u{200a}')
    ||| c == '\u{2028}'
    ||| c == '\u{2029}'
    ||| c == '\u{202f}'
    ||| c == '\u{205f}'
    ||| c == '\u{3000}'
}

/// Whether `c` is a Unicode whitespace character.
pub fn white(c: char) -> (r: bool)
    ensures
        r == is_white(c),
{
    ('\u{9}' <= c && c <= '\u{d}') || c == ' ' || c == '\u{85}' || c == '\u{a0}' || c
        == '\u{1680}' || ('\u{2000}' <= c && c <= '\u{200a}') || c == '\u{2028}' || c
        == '\u{2029}' || c == '\u{202f}' || c == '\u{205f}' || c == '\u{3000}'
}

/// How many whitespace characters `s` starts with.
pub open spec fn leading_white(s: Seq<char>) -> nat
    decreases s.len(),
{
    if s.len() > 0 && is_white(s[0]) {
        1 + leading_white(s.drop_first())
    } else {
        0
    }
}

/// How many whitespace characters `s` ends with.
pub open spec fn trailing_white(s: Seq<char>) -> nat
    decreases s.len(),
{
    if s.len() > 0 && is_white(s.last()) {
        1 + trailing_white(s.drop_last())
    } else {
        0
    }
}

/// `s` without its leading and trailing whitespace.
pub open spec fn trimmed(s: Seq<char>) -> Seq<char> {
    let rest = s.skip(leading_white(s) as int);
    rest.take(rest.len() - trailing_white(rest))
}

proof fn lemma_leading_white(s: Seq<char>, k: int)
    requires
        0 <= k <= s.len(),
        forall|j: int| 0 <= j < k ==> is_white(#[trigger] s[j]),
    ensures
        leading_white(s) == k + leading_white(s.skip(k)),
    decreases k,
{
    if k > 0 {
        lemma_leading_white(s.drop_first(), k - 1);
        assert(s.drop_first().skip(k - 1) =~= s.skip(k));
    } else {
        assert(s.skip(0) =~= s);
    }
}

proof fn lemma_trailing_white(s: Seq<char>, k: int)
    requires
        0 <= k <= s.len(),
        forall|j: int| s.len() - k <= j < s.len() ==> is_white(#[trigger] s[j]),
    ensures
        trailing_white(s) == k + trailing_white(s.take(s.len() - k)),
    decreases k,
{
    if k > 0 {
        lemma_trailing_white(s.drop_last(), k - 1);
        assert(s.drop_last().take(s.len() - k) =~= s.take(s.len() - k));
    } else {
        assert(s.take(s.len() as int) =~= s);
    }
}

/// `s` without leading and trailing whitespace.
pub fn trim(s: &str) -> (r: &str)
    ensures
        r@ == trimmed(s@),
{
    let v = chars_of(s);
    let n = v.len();
    let mut a: usize = 0;
    while a < n && white(v[a])
        invariant
            a <= n,
            n == v@.len(),
            forall|j: int| 0 <= j < a ==> is_white(#[trigger] v@[j]),
        decreases n - a,
    {
        a = a + 1;
    }
    let mut b: usize = n;
    while b > a && white(v[b - 1])
        invariant
            a <= b <= n,
            n == v@.len(),
            forall|j: int| b <= j < n ==> is_white(#[trigger] v@[j]),
        decreases b,
    {
        b = b - 1;
    }
    proof {
        lemma_leading_white(v@, a as int);
        if a < n {
            assert(leading_white(v@.skip(a as int)) == 0);
        } else {
            assert(v@.skip(a as int).len() == 0);
        }
        let rest = v@.skip(a as int);
        let k = n - b;
        assert forall|j: int| rest.len() - k <= j < rest.len() implies is_white(
            #[trigger] rest[j],
        ) by {
            assert(rest[j] == v@[a + j]);
        }
        lemma_trailing_white(rest, k as int);
        let kept = rest.take(rest.len() - k);
        assert(kept =~= v@.subrange(a as int, b as int));
        if b > a {
            assert(kept.last() == v@[b - 1]);
        }
        assert(trailing_white(kept) == 0);
    }
    s.substring_char(a, b)
}

// ---------------------------------------------------------------------------
// Wrapping
// ---------------------------------------------------------------------------
/// The lines that `textwrap` breaks `text` into at `width` columns, words longer
/// than a line broken apart.
pub uninterp spec fn wrapped_lines(text: Seq<char>, width: nat) -> Seq<Seq<char>>;

/// Relies on `textwrap::wrap` with `break_words(true)`: its lines depend on the text
/// and the width alone.
#[verifier::external_body]
pub(crate) fn wrap_text(text: &str, width: usize) -> (r: Vec<String>)
    ensures
        views(r@) == wrapped_lines(text@, width as nat),
{
    textwrap::wrap(text, textwrap::Options::new(width).break_words(true))
        .into_iter()
        .map(|line| line.into_owned())
        .collect()
}

/// Wraps `text` to `width` columns.
pub fn wrap(text: &str, width: usize) -> (r: Vec<String>)
    ensures
        views(r@) == wrapped_lines(text@, width as nat),
{
    wrap_text(text, width)
}

/// Wraps every line of `lines` to `width` columns, one after the other.
pub open spec fn wrapped_all(lines: Seq<Seq<char>>, width: nat) -> Seq<Seq<char>>
    decreases lines.len(),
{
    if lines.len() == 0 {
        Seq::empty()
    } else {
        wrapped_all(lines.drop_last(), width) + wrapped_lines(lines.last(), width)
    }
}

/// Wraps each of `lines` to `width` columns and joins the results in order.
pub fn wrap_all(lines: &Vec<String>, width: usize) -> (r: Vec<String>)
    ensures
        views(r@) == wrapped_all(views(lines@), width as nat),
{
    let mut out: Vec<String> = Vec::new();
    let mut i: usize = 0;
    while i < lines.len()
        invariant
            i <= lines@.len(),
            views(out@) == wrapped_all(views(lines@).take(i as int), width as nat),
        decreases lines@.len() - i,
    {
        let mut w = wrap_text(lines[i].as_str(), width);
        proof {
            let before = views(lines@).take(i as int);
            let after = views(lines@).take(i + 1);
            assert(after.drop_last() =~= before);
            assert(after.last() == lines@[i as int]@);
        }
        let ghost old_out = out@;
        let ghost new_part = w@;
        out.append(&mut w);
        proof {
            assert(out@ == old_out + new_part);
            assert(views(out@) =~= views(old_out) + views(new_part));
        }
        i = i + 1;
    }
    proof {
        assert(views(lines@).take(lines@.len() as int) =~= views(lines@));
    }
    out
}

// ---------------------------------------------------------------------------
// HTML
// ---------------------------------------------------------------------------
/// The plain text that `html2text` renders from `html` (links as footnotes, no
/// wrapping), or `None` where it fails.
pub uninterp spec fn html_text_of(html: Seq<char>) -> Option<Seq<char>>;

/// Relies on `html2text`'s `Config::string_from_read` with the plain decorator: the
/// outcome depends on the markup alone.
#[verifier::external_body]
fn render_html(html: &str) -> (r: Option<String>)
    ensures
        match r {
            Some(t) => html_text_of(html@) == Some(t@),
            None => html_text_of(html@) is None,
        },
{
    html2text::config::plain()
        .no_link_wrapping()
        .link_footnotes(true)
        .string_from_read(html.as_bytes(), usize::MAX)
        .ok()
}

/// The lines shown for a piece of markup: its rendered text split into lines, or the
/// markup itself as one line where rendering fails.
pub open spec fn html_lines_of(html: Seq<char>) -> Seq<Seq<char>> {
    match html_text_of(html) {
        Some(t) => lines_of(t),
        None => seq![html],
    }
}

/// Converts markup to lines of plain text, falling back to the raw markup.
pub fn html_lines(html: &str) -> (r: Vec<String>)
    ensures
        views(r@) == html_lines_of(html@),
{
    match render_html(html) {
        Some(t) => split_lines(t.as_str()),
        None => {
            let v = vec![html.to_owned()];
            proof {
                assert(views(v@) =~= seq![html@]);
            }
            v
        },
    }
}

} // verus!
