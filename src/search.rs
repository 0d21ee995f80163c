//! Search over posts and the tag listing.

use vstd::prelude::*;
use crate::front_matter::{strings_view, trim_by, Strip};
use crate::post::{join_with, owned, Post};
use crate::text::{chars_of, lowercase, push_char, push_str, to_lowercase};

verus! {

/// The text of `s` outside `<...>` tags, with the tag state it ends in.
pub open spec fn strip_tags_state(s: Seq<char>) -> (Seq<char>, bool)
    decreases s.len(),
{
    if s.len() == 0 {
        (seq![], false)
    } else {
        let (out, in_tag) = strip_tags_state(s.drop_last());
        let c = s.last();
        if c == '<' {
            (out, true)
        } else if c == '>' {
            (out, false)
        } else if !in_tag {
            (out.push(c), false)
        } else {
            (out, true)
        }
    }
}

pub open spec fn strip_tags_spec(s: Seq<char>) -> Seq<char> {
    strip_tags_state(s).0
}

/// Drops everything from each `<` to the next `>`, both included.
pub fn strip_html_tags(input: &str) -> (r: String)
    ensures
        r@ == strip_tags_spec(input@),
{
    let cs = chars_of(input);
    let mut out = String::new();
    let mut in_tag = false;
    let mut i: usize = 0;
    while i < cs.len()
        invariant
            i <= cs.len(),
            cs@ == input@,
            (out@, in_tag) == strip_tags_state(cs@.take(i as int)),
        decreases cs.len() - i,
    {
        let c = cs[i];
        assert(cs@.take(i + 1).drop_last() =~= cs@.take(i as int));
        if c == '<' {
            in_tag = true;
        } else if c == '>' {
            in_tag = false;
        } else if !in_tag {
            push_char(&mut out, c);
        }
        i = i + 1;
    }
    assert(cs@.take(cs.len() as int) =~= cs@);
    out
}

/// Whether `q` occurs in `s` at index `i`.
pub open spec fn occurs_at(s: Seq<char>, q: Seq<char>, i: int) -> bool {
    0 <= i && i + q.len() <= s.len() && s.subrange(i, i + q.len()) == q
}

pub open spec fn contains_seq(s: Seq<char>, q: Seq<char>) -> bool {
    exists|i: int| occurs_at(s, q, i)
}

/// Whether `q` occurs in `s`.
pub fn contains_text(s: &Vec<char>, q: &Vec<char>) -> (r: bool)
    ensures
        r == contains_seq(s@, q@),
{
    if q.len() > s.len() {
        assert forall|i: int| !occurs_at(s@, q@, i) by {}
        return false;
    }
    let mut i: usize = 0;
    while i <= s.len() - q.len()
        invariant
            q.len() <= s.len(),
            i <= s.len() - q.len() + 1,
            forall|k: int| 0 <= k < i ==> !occurs_at(s@, q@, k),
        decreases s.len() - q.len() + 1 - i,
    {
        let mut j: usize = 0;
        while j < q.len() && s[i + j] == q[j]
            invariant
                q.len() <= s.len(),
                i + q.len() <= s.len(),
                j <= q.len(),
                forall|k: int| 0 <= k < j ==> s@[i + k] == q@[k],
            decreases q.len() - j,
        {
            j = j + 1;
        }
        if j == q.len() {
            assert(s@.subrange(i as int, i + q.len()) =~= q@);
            assert(occurs_at(s@, q@, i as int));
            return true;
        }
        assert(s@.subrange(i as int, i + q.len())[j as int] != q@[j as int]);
        i = i + 1;
    }
    assert forall|k: int| !occurs_at(s@, q@, k) by {
        if 0 <= k && k + q.len() <= s.len() {
            assert(k < i);
        }
    }
    false
}

/// The text a post is searched in: title, summary, tags and the body without
/// markup, separated by spaces.
pub open spec fn search_text(p: Post) -> Seq<char> {
    p.title@ + seq![' '] + p.summary@ + seq![' '] + join_with(strings_view(p.tags@), seq![' '])
        + seq![' '] + strip_tags_spec(p.content@)
}

/// A query as matched: trimmed and lowercased.
pub open spec fn normalized_query(q: Seq<char>) -> Seq<char> {
    lowercase(trim_by(q, Strip::Whitespace))
}

/// Whether the post's lowercased search text contains the normalized query.
pub open spec fn post_matches_spec(p: Post, query: Seq<char>) -> bool {
    contains_seq(lowercase(search_text(p)), query)
}

/// Whether the post's lowercased search text contains `query`, which is
/// expected in normalized form.
pub fn post_matches(p: &Post, query: &str) -> (r: bool)
    ensures
        r == post_matches_spec(*p, query@),
{
    let mut text = String::new();
    push_str(&mut text, p.title.as_str());
    push_char(&mut text, ' ');
    push_str(&mut text, p.summary.as_str());
    push_char(&mut text, ' ');
    let tags = crate::post::join_first(&p.tags, p.tags.len(), " ");
    proof {
        reveal_strlit(" ");
        assert(" "@ =~= seq![' ']);
        assert(strings_view(p.tags@).take(p.tags.len() as int) =~= strings_view(p.tags@));
    }
    push_str(&mut text, tags.as_str());
    push_char(&mut text, ' ');
    let stripped = strip_html_tags(p.content.as_str());
    push_str(&mut text, stripped.as_str());
    assert(text@ =~= search_text(*p));
    let lowered = to_lowercase(text.as_str());
    let hay = chars_of(lowered.as_str());
    let q = chars_of(query);
    contains_text(&hay, &q)
}

/// A post as listed in search results: everything but the rendered HTML.
pub struct SearchResult {
    pub title: String,
    pub slug: String,
    pub summary: String,
    pub date: String,
    pub date_iso: String,
    pub tags: Vec<String>,
    pub reading_time: u32,
}

pub open spec fn is_result_of(r: SearchResult, p: Post) -> bool {
    &&& r.title@ == p.title@
    &&& r.slug@ == p.slug@
    &&& r.summary@ == p.summary@
    &&& r.date@ == p.date@
    &&& r.date_iso@ == p.date_iso@
    &&& strings_view(r.tags@) == strings_view(p.tags@)
    &&& r.reading_time == p.reading_time
}

/// The posts that match, in order.
pub open spec fn matching_posts(ps: Seq<Post>, query: Seq<char>) -> Seq<Post>
    decreases ps.len(),
{
    if ps.len() == 0 {
        seq![]
    } else {
        let r = matching_posts(ps.drop_last(), query);
        if post_matches_spec(ps.last(), query) {
            r.push(ps.last())
        } else {
            r
        }
    }
}

fn copy_strings(v: &Vec<String>) -> (out: Vec<String>)
    ensures
        strings_view(out@) == strings_view(v@),
{
    let mut out: Vec<String> = Vec::new();
    let mut i: usize = 0;
    while i < v.len()
        invariant
            i <= v.len(),
            out.len() == i,
            forall|k: int| 0 <= k < i ==> (#[trigger] out@[k])@ == v@[k]@,
        decreases v.len() - i,
    {
        let c = v[i].clone();
        out.push(c);
        i = i + 1;
    }
    assert(strings_view(out@) =~= strings_view(v@));
    out
}

fn result_of(p: &Post) -> (r: SearchResult)
    ensures
        is_result_of(r, *p),
{
    SearchResult {
        title: p.title.clone(),
        slug: p.slug.clone(),
        summary: p.summary.clone(),
        date: p.date.clone(),
        date_iso: p.date_iso.clone(),
        tags: copy_strings(&p.tags),
        reading_time: p.reading_time,
    }
}

/// Searches posts by title, summary, tags and text, ignoring case and the
/// query's surrounding whitespace; an empty query finds nothing.
pub fn search_posts(posts: &Vec<Post>, query: &str) -> (r: Vec<SearchResult>)
    ensures
        normalized_query(query@).len() == 0 ==> r.len() == 0,
        normalized_query(query@).len() > 0 ==> {
            let m = matching_posts(posts@, normalized_query(query@));
            &&& r.len() == m.len()
            &&& forall|k: int| 0 <= k < r.len() ==> is_result_of(#[trigger] r@[k], m[k])
        },
{
    let qs = chars_of(query);
    let (a, b) = crate::front_matter::trim_range(&qs, 0, qs.len(), Strip::Whitespace);
    assert(qs@.subrange(0, qs.len() as int) =~= query@);
    let trimmed = crate::front_matter::string_of_range(&qs, a, b);
    let q = to_lowercase(trimmed.as_str());
    let mut results: Vec<SearchResult> = Vec::new();
    if q.as_str().is_empty() {
        return results;
    }
    let ghost nq = normalized_query(query@);
    let mut i: usize = 0;
    while i < posts.len()
        invariant
            i <= posts.len(),
            q@ == nq,
            results.len() == matching_posts(posts@.take(i as int), nq).len(),
            forall|k: int|
                0 <= k < results.len() ==> is_result_of(
                    #[trigger] results@[k],
                    matching_posts(posts@.take(i as int), nq)[k],
                ),
        decreases posts.len() - i,
    {
        assert(posts@.take(i + 1).drop_last() =~= posts@.take(i as int));
        if post_matches(&posts[i], q.as_str()) {
            let res = result_of(&posts[i]);
            results.push(res);
        }
        i = i + 1;
    }
    assert(posts@.take(posts.len() as int) =~= posts@);
    results
}

/// Whether one of the post's tags equals `tag` once both are lowercased.
pub open spec fn has_tag(p: Post, tag: Seq<char>) -> bool {
    exists|i: int| 0 <= i < p.tags.len() && lowercase(#[trigger] p.tags@[i]@) == lowercase(tag)
}

/// The posts carrying the tag, in order.
pub open spec fn tagged_posts(ps: Seq<Post>, tag: Seq<char>) -> Seq<Post>
    decreases ps.len(),
{
    if ps.len() == 0 {
        seq![]
    } else {
        let r = tagged_posts(ps.drop_last(), tag);
        if has_tag(ps.last(), tag) {
            r.push(ps.last())
        } else {
            r
        }
    }
}

/// Whether one of the post's tags equals `wanted` once lowercased; `wanted` is
/// expected lowercased.
fn tagged(p: &Post, wanted: &String, tag: Ghost<Seq<char>>) -> (r: bool)
    requires
        wanted@ == lowercase(tag@),
    ensures
        r == has_tag(*p, tag@),
{
    let mut found = false;
    let mut j: usize = 0;
    while j < p.tags.len()
        invariant
            j <= p.tags.len(),
            wanted@ == lowercase(tag@),
            found == exists|t: int| 0 <= t < j && lowercase(#[trigger] p.tags@[t]@) == lowercase(tag@),
        decreases p.tags.len() - j,
    {
        let t = to_lowercase(p.tags[j].as_str());
        if t == *wanted {
            found = true;
        }
        j = j + 1;
    }
    found
}

/// Keeps the posts with a tag equal to `tag`, ignoring case.
pub fn posts_with_tag(posts: Vec<Post>, tag: &str) -> (r: Vec<Post>)
    ensures
        r@ == tagged_posts(posts@, tag@),
{
    let wanted = to_lowercase(tag);
    let ghost all = posts@;
    let mut rest = posts;
    let mut kept: Vec<Post> = Vec::new();
    let ghost mut done: int = 0;
    while rest.len() > 0
        invariant
            0 <= done <= all.len(),
            rest@ == all.skip(done),
            kept@ == tagged_posts(all.take(done), tag@),
            wanted@ == lowercase(tag@),
        decreases rest.len(),
    {
        let p = rest.remove(0);
        assert(all.take(done + 1).drop_last() =~= all.take(done));
        assert(all.take(done + 1).last() == p);
        if tagged(&p, &wanted, Ghost(tag@)) {
            kept.push(p);
        }
        proof {
            assert(rest@ =~= all.skip(done + 1));
            done = done + 1;
        }
    }
    assert(all.take(done) =~= all);
    kept
}

} // verus!
