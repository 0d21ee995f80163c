//! Documents written from the editor: front matter followed by the Markdown text.

use vstd::prelude::*;
use crate::front_matter::{split_char, trim_by, Strip};
use crate::highlight::opt_view;
use crate::post::join_with;
use crate::readme::{
    CLOSE_FRONT_MATTER, OPEN_DATE, OPEN_SUMMARY, OPEN_TAGS, OPEN_TITLE, OPEN_WEBSITE, QUOTE,
    TAG_SEPARATOR,
};
use crate::text::{chars_of, push_str};

verus! {

pub const OPEN_GITHUB_REPO: &'static str = "\ngithub_repo: \"";
pub const CLOSE_FRONT_MATTER_TIGHT: &'static str = "\n---\n\n";

/// A piece trimmed and put in double quotes.
pub open spec fn quoted_piece(p: Seq<char>) -> Seq<char> {
    QUOTE@ + trim_by(p, Strip::Whitespace) + QUOTE@
}

pub open spec fn quote_all(ps: Seq<Seq<char>>) -> Seq<Seq<char>> {
    ps.map_values(|p: Seq<char>| quoted_piece(p))
}

/// Each comma-separated piece, trimmed and put in double quotes, joined by `, `.
pub open spec fn quoted_pieces(csv: Seq<char>) -> Seq<char> {
    join_with(quote_all(split_char(csv, ',')), TAG_SEPARATOR@)
}

/// `prefix"value"` when there is a value.
pub open spec fn optional_line(prefix: Seq<char>, v: Option<Seq<char>>) -> Seq<char> {
    match v {
        Some(x) => prefix + x + QUOTE@,
        None => seq![],
    }
}

/// The document saved for a post: title, date, tags, summary and, when
/// known, the linked repository and website, then the Markdown text.
pub open spec fn post_document_spec(
    title: Seq<char>,
    date: Seq<char>,
    tags_csv: Seq<char>,
    summary: Seq<char>,
    github_repo: Option<Seq<char>>,
    website: Option<Seq<char>>,
    content: Seq<char>,
) -> Seq<char> {
    OPEN_TITLE@ + title + OPEN_DATE@ + date + OPEN_TAGS@ + quoted_pieces(tags_csv) + OPEN_SUMMARY@
        + summary + QUOTE@ + optional_line(OPEN_GITHUB_REPO@, github_repo) + optional_line(
        OPEN_WEBSITE@,
        website,
    ) + CLOSE_FRONT_MATTER_TIGHT@ + content
}

fn quote_pieces(csv: &str) -> (r: String)
    ensures
        r@ == quoted_pieces(csv@),
{
    let s = chars_of(csv);
    let ghost t = s@;
    let mut r = String::new();
    let ghost mut done: Seq<Seq<char>> = seq![];
    let mut any = false;
    let mut start: usize = 0;
    let mut i: usize = 0;
    assert(t.take(0) =~= Seq::<char>::empty());
    assert(split_char(t.take(0), ',') =~= done.push(t.subrange(0, 0)));
    while i < s.len()
        invariant
            start <= i <= s.len(),
            t == s@,
            split_char(t.take(i as int), ',') == done.push(t.subrange(start as int, i as int)),
            r@ == join_with(quote_all(done), TAG_SEPARATOR@),
            any == (done.len() > 0),
        decreases s.len() - i,
    {
        proof {
            crate::front_matter::lemma_split_step(t, ',', i as int, start as int, done);
        }
        if s[i] == ',' {
            push_piece(&mut r, &s, start, i, any);
            proof {
                let piece = t.subrange(start as int, i as int);
                let nd = done.push(piece);
                let x = quote_all(nd);
                assert(x.drop_last() =~= quote_all(done));
                assert(x.last() == quoted_piece(piece));
                if done.len() == 0 {
                    assert(r@ =~= x[0]);
                } else {
                    assert(r@ =~= join_with(x.drop_last(), TAG_SEPARATOR@) + TAG_SEPARATOR@ + x.last());
                }
                done = nd;
            }
            any = true;
            start = i + 1;
        }
        i = i + 1;
    }
    assert(t.take(s.len() as int) =~= t);
    push_piece(&mut r, &s, start, s.len(), any);
    proof {
        let piece = t.subrange(start as int, s.len() as int);
        let all = done.push(piece);
        let x = quote_all(all);
        assert(x.drop_last() =~= quote_all(done));
        assert(x.last() == quoted_piece(piece));
        if done.len() == 0 {
            assert(r@ =~= x[0]);
        } else {
            assert(r@ =~= join_with(x.drop_last(), TAG_SEPARATOR@) + TAG_SEPARATOR@ + x.last());
        }
        assert(all == split_char(csv@, ','));
    }
    r
}

/// Appends the separator when `more`, then the piece `s[lo..hi]` trimmed and quoted.
fn push_piece(r: &mut String, s: &Vec<char>, lo: usize, hi: usize, more: bool)
    requires
        lo <= hi <= s.len(),
    ensures
        final(r)@ == old(r)@ + (if more {
            TAG_SEPARATOR@
        } else {
            seq![]
        }) + QUOTE@ + trim_by(s@.subrange(lo as int, hi as int), Strip::Whitespace) + QUOTE@,
{
    if more {
        push_str(r, TAG_SEPARATOR);
    }
    let (a, b) = crate::front_matter::trim_range(s, lo, hi, Strip::Whitespace);
    let piece = crate::front_matter::string_of_range(s, a, b);
    push_str(r, QUOTE);
    push_str(r, piece.as_str());
    push_str(r, QUOTE);
}

fn push_optional(r: &mut String, prefix: &str, v: &Option<String>)
    ensures
        final(r)@ == old(r)@ + optional_line(prefix@, opt_view(*v)),
{
    match v {
        Some(x) => {
            push_str(r, prefix);
            push_str(r, x.as_str());
            push_str(r, QUOTE);
        },
        None => {},
    }
}

/// Writes the document of a post saved from the editor; `tags_csv` is the
/// comma-separated tag list as typed.
pub fn post_document(
    title: &str,
    date: &str,
    tags_csv: &str,
    summary: &str,
    github_repo: &Option<String>,
    website: &Option<String>,
    content: &str,
) -> (r: String)
    ensures
        r@ == post_document_spec(
            title@,
            date@,
            tags_csv@,
            summary@,
            opt_view(*github_repo),
            opt_view(*website),
            content@,
        ),
{
    let tags = quote_pieces(tags_csv);
    let mut r = String::new();
    push_str(&mut r, OPEN_TITLE);
    push_str(&mut r, title);
    push_str(&mut r, OPEN_DATE);
    push_str(&mut r, date);
    push_str(&mut r, OPEN_TAGS);
    push_str(&mut r, tags.as_str());
    push_str(&mut r, OPEN_SUMMARY);
    push_str(&mut r, summary);
    push_str(&mut r, QUOTE);
    push_optional(&mut r, OPEN_GITHUB_REPO, github_repo);
    push_optional(&mut r, OPEN_WEBSITE, website);
    push_str(&mut r, CLOSE_FRONT_MATTER_TIGHT);
    push_str(&mut r, content);
    r
}

} // verus!
