//! The post collection: every document with front matter, newest first.

use vstd::prelude::*;
use vstd::multiset::Multiset;
use crate::front_matter::{body_spec, document_body, parse_metadata, parse_metadata_spec};
use crate::highlight::Highlighter;
use crate::markdown::{render_events, run, MdEvent};
use crate::post::{
    assemble_post, is_assembled, post_dates, resolved_timestamp, written, Post, SiteConfig,
    DISPLAY_DATE_FORMAT, ISO_DATE_FORMAT,
};
use crate::text::chars_of;

verus! {

broadcast use vstd::seq_lib::group_to_multiset_ensures;

/// Lexicographic order of texts by code point, which is the byte order of UTF-8.
pub open spec fn seq_lt(a: Seq<char>, b: Seq<char>) -> bool
    decreases a.len(),
{
    if a.len() == 0 {
        b.len() > 0
    } else if b.len() == 0 {
        false
    } else if (a[0] as u32) != (b[0] as u32) {
        (a[0] as u32) < (b[0] as u32)
    } else {
        seq_lt(a.drop_first(), b.drop_first())
    }
}

proof fn lemma_seq_lt_asymmetric(a: Seq<char>, b: Seq<char>)
    ensures
        seq_lt(a, b) ==> !seq_lt(b, a),
    decreases a.len(),
{
    if a.len() > 0 && b.len() > 0 && (a[0] as u32) == (b[0] as u32) {
        lemma_seq_lt_asymmetric(a.drop_first(), b.drop_first());
    }
}

proof fn lemma_seq_ge_transitive(a: Seq<char>, b: Seq<char>, c: Seq<char>)
    requires
        !seq_lt(a, b),
        !seq_lt(b, c),
    ensures
        !seq_lt(a, c),
    decreases a.len(),
{
    if a.len() > 0 && b.len() > 0 && c.len() > 0 && (a[0] as u32) == (b[0] as u32) && (b[0]
        as u32) == (c[0] as u32) {
        lemma_seq_ge_transitive(a.drop_first(), b.drop_first(), c.drop_first());
    }
}

/// Whether `a` comes before `b` in code-point order.
pub fn text_less(a: &str, b: &str) -> (r: bool)
    ensures
        r == seq_lt(a@, b@),
{
    let x = chars_of(a);
    let y = chars_of(b);
    let mut i: usize = 0;
    assert(a@.skip(0) =~= a@);
    assert(b@.skip(0) =~= b@);
    while i < x.len() && i < y.len()
        invariant
            i <= x.len(),
            i <= y.len(),
            x@ == a@,
            y@ == b@,
            seq_lt(a@, b@) == seq_lt(a@.skip(i as int), b@.skip(i as int)),
        decreases x.len() - i,
    {
        assert(a@.skip(i as int)[0] == x@[i as int]);
        assert(b@.skip(i as int)[0] == y@[i as int]);
        let p = x[i] as u32;
        let q = y[i] as u32;
        if p != q {
            return p < q;
        }
        assert(a@.skip(i as int).drop_first() =~= a@.skip(i + 1));
        assert(b@.skip(i as int).drop_first() =~= b@.skip(i + 1));
        i = i + 1;
    }
    assert(i == x.len() ==> a@.skip(i as int).len() == 0);
    assert(i == y.len() ==> b@.skip(i as int).len() == 0);
    i == x.len() && i < y.len()
}

/// No post's `date_iso` comes before that of a post after it.
pub open spec fn sorted_by_date_desc(ps: Seq<Post>) -> bool {
    forall|i: int, k: int|
        0 <= i < k < ps.len() ==> !seq_lt(#[trigger] ps[i].date_iso@, #[trigger] ps[k].date_iso@)
}

/// Sorts posts newest first by comparing their `date_iso` texts.
pub fn sort_posts(posts: Vec<Post>) -> (r: Vec<Post>)
    ensures
        r@.to_multiset() == posts@.to_multiset(),
        sorted_by_date_desc(r@),
{
    let ghost orig = posts@;
    let mut rest = posts;
    let mut out: Vec<Post> = Vec::new();
    while rest.len() > 0
        invariant
            rest@.to_multiset().add(out@.to_multiset()) == orig.to_multiset(),
            sorted_by_date_desc(out@),
        decreases rest.len(),
    {
        let ghost before = rest@;
        let x = rest.pop().unwrap();
        assert(before == rest@.push(x));
        let mut j: usize = 0;
        while j < out.len() && text_less(x.date_iso.as_str(), out[j].date_iso.as_str())
            invariant
                j <= out.len(),
                forall|k: int| 0 <= k < j ==> seq_lt(x.date_iso@, #[trigger] out@[k].date_iso@),
            decreases out.len() - j,
        {
            j = j + 1;
        }
        let ghost o = out@;
        proof {
            if j < o.len() {
                assert(!seq_lt(x.date_iso@, o[j as int].date_iso@));
            }
            assert forall|m: int| j <= m < o.len() implies !seq_lt(x.date_iso@, #[trigger] o[m].date_iso@) by {
                if m > j {
                    assert(!seq_lt(o[j as int].date_iso@, o[m].date_iso@));
                    lemma_seq_ge_transitive(x.date_iso@, o[j as int].date_iso@, o[m].date_iso@);
                }
            }
        }
        out.insert(j, x);
        proof {
            assert forall|a: int, b: int| 0 <= a < b < out@.len() implies !seq_lt(
                #[trigger] out@[a].date_iso@,
                #[trigger] out@[b].date_iso@,
            ) by {
                let xs = x.date_iso@;
                if b < j {
                    assert(out@[a] == o[a] && out@[b] == o[b]);
                } else if b == j {
                    assert(out@[a] == o[a]);
                    lemma_seq_lt_asymmetric(xs, o[a].date_iso@);
                } else if a < j {
                    assert(out@[a] == o[a] && out@[b] == o[b - 1]);
                    lemma_seq_lt_asymmetric(xs, o[a].date_iso@);
                    assert(!seq_lt(xs, o[b - 1].date_iso@));
                    lemma_seq_ge_transitive(o[a].date_iso@, xs, o[b - 1].date_iso@);
                } else if a == j {
                    assert(out@[b] == o[b - 1]);
                    assert(!seq_lt(xs, o[b - 1].date_iso@));
                } else {
                    assert(out@[a] == o[a - 1] && out@[b] == o[b - 1]);
                }
            }
            assert(rest@.to_multiset().add(out@.to_multiset()) =~= orig.to_multiset());
        }
    }
    proof {
        assert(rest@.to_multiset() =~= Multiset::empty());
        assert(out@.to_multiset() =~= orig.to_multiset());
    }
    out
}

/// One document as the storage layer hands it over: its text, its file name,
/// its modification time if known, and the parser's events for its body.
pub struct SourceDoc {
    pub text: String,
    pub filename: String,
    pub mtime: Option<i64>,
    pub events: Vec<MdEvent>,
}

/// `p` is the post built from `d`: `d` has front matter, `p`'s content renders
/// `d`'s events, its dates write the instant resolved from the author's date,
/// the modification time and `now` at one offset from UTC, and the rest is
/// assembled from the metadata and the body.
pub open spec fn post_of_doc(d: SourceDoc, site: SiteConfig, now: i64, p: Post) -> bool {
    match parse_metadata_spec(d.text@) {
        None => false,
        Some(m) => {
            let t = resolved_timestamp(m.date, d.mtime, now);
            &&& p.content@ == run(d.events@).out
            &&& exists|off: i32|
                -86_400 < off < 86_400 && p.date@ == #[trigger] written(t, off, DISPLAY_DATE_FORMAT@)
                    && p.date_iso@ == written(t, off, ISO_DATE_FORMAT@)
            &&& is_assembled(
                p,
                m,
                p.content@,
                body_spec(d.text@),
                d.filename@,
                p.date@,
                p.date_iso@,
                site,
            )
        },
    }
}

/// `u` holds, in order, the post of each document that has front matter.
pub open spec fn posts_of_docs(docs: Seq<SourceDoc>, site: SiteConfig, now: i64, u: Seq<Post>) -> bool
    decreases docs.len(),
{
    if docs.len() == 0 {
        u.len() == 0
    } else {
        match parse_metadata_spec(docs.last().text@) {
            None => posts_of_docs(docs.drop_last(), site, now, u),
            Some(_) => {
                &&& u.len() > 0
                &&& post_of_doc(docs.last(), site, now, u.last())
                &&& posts_of_docs(docs.drop_last(), site, now, u.drop_last())
            },
        }
    }
}

/// The number of documents that have front matter.
pub open spec fn with_metadata(docs: Seq<SourceDoc>) -> nat
    decreases docs.len(),
{
    if docs.len() == 0 {
        0
    } else {
        with_metadata(docs.drop_last()) + if parse_metadata_spec(docs.last().text@) is Some {
            1nat
        } else {
            0nat
        }
    }
}

/// Builds the post of every document that has front matter, skipping the
/// others, and sorts them newest first. A document without a modification
/// time and without a readable date is dated `now`.
pub fn build_posts(docs: &Vec<SourceDoc>, site: &SiteConfig, hl: &Highlighter, now: i64) -> (r: Vec<Post>)
    ensures
        sorted_by_date_desc(r@),
        r.len() == with_metadata(docs@),
        exists|u: Seq<Post>| posts_of_docs(docs@, *site, now, u) && r@.to_multiset() == u.to_multiset(),
{
    let mut posts: Vec<Post> = Vec::new();
    let mut i: usize = 0;
    while i < docs.len()
        invariant
            i <= docs.len(),
            posts.len() == with_metadata(docs@.take(i as int)),
            posts_of_docs(docs@.take(i as int), *site, now, posts@),
        decreases docs.len() - i,
    {
        let d = &docs[i];
        assert(docs@.take(i + 1).drop_last() =~= docs@.take(i as int));
        assert(docs@.take(i + 1).last() == *d);
        match parse_metadata(d.text.as_str()) {
            None => {},
            Some(meta) => {
                let body = document_body(d.text.as_str());
                let content = render_events(&d.events, hl);
                let dates = post_dates(meta.date.as_str(), d.mtime, now);
                let p = assemble_post(meta, content, body.as_str(), d.filename.clone(), dates, site);
                assert(written(dates.timestamp, dates.offset, DISPLAY_DATE_FORMAT@) == p.date@);
                assert(post_of_doc(docs@[i as int], *site, now, p));
                let ghost before = posts@;
                posts.push(p);
                assert(posts@.drop_last() =~= before);
            },
        }
        i = i + 1;
    }
    assert(docs@.take(docs.len() as int) =~= docs@);
    let ghost unsorted = posts@;
    let r = sort_posts(posts);
    proof {
        assert(r@.len() == unsorted.len()) by {
            assert(r@.to_multiset().len() == unsorted.to_multiset().len());
        }
        assert(posts_of_docs(docs@, *site, now, unsorted) && r@.to_multiset() == unsorted.to_multiset());
    }
    r
}

} // verus!
