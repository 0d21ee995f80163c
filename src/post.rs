//! Post assembly: derived attributes and defaults for one document.

use vstd::prelude::*;
use crate::front_matter::{strings_view, Metadata};
use crate::highlight::opt_view;
use crate::slug::{slug_of, slugify};
use crate::text::{char_is_whitespace, chars_of, is_white_space, push_char, push_str};
use std::fmt::Write;

verus! {

/// The number of words of `s`: its maximal runs of non-whitespace characters.
pub open spec fn word_count_spec(s: Seq<char>) -> nat
    decreases s.len(),
{
    if s.len() == 0 {
        0
    } else {
        let n = s.len() - 1;
        word_count_spec(s.drop_last()) + if !is_white_space(s[n]) && (n == 0 || is_white_space(
            s[n - 1],
        )) {
            1nat
        } else {
            0nat
        }
    }
}

/// Words read per minute.
pub const WORDS_PER_MINUTE: u32 = 200;

/// Reading time in whole minutes, at least one.
pub open spec fn reading_minutes(words: nat) -> nat {
    if words / (WORDS_PER_MINUTE as nat) >= 1 {
        words / (WORDS_PER_MINUTE as nat)
    } else {
        1
    }
}

/// The word count as a `u32`, saturating at `u32::MAX`.
pub open spec fn capped_count(n: nat) -> u32 {
    if n <= u32::MAX {
        n as u32
    } else {
        u32::MAX
    }
}

/// Trailing whitespace does not change the word count.
pub proof fn lemma_word_count_trailing_space(b: Seq<char>)
    ensures
        word_count_spec(b + seq![' ']) == word_count_spec(b),
{
    let s = b + seq![' '];
    assert(s.drop_last() =~= b);
    assert(is_white_space(s[s.len() - 1]));
}

/// Counts the whitespace-delimited words of `content`.
pub fn word_count(content: &str) -> (r: u32)
    ensures
        r == capped_count(word_count_spec(content@)),
{
    let cs = chars_of(content);
    let mut count: u32 = 0;
    let mut prev_ws = true;
    let mut i: usize = 0;
    while i < cs.len()
        invariant
            i <= cs.len(),
            cs@ == content@,
            count == capped_count(word_count_spec(cs@.take(i as int))),
            prev_ws == (i == 0 || is_white_space(cs@[i - 1])),
        decreases cs.len() - i,
    {
        let ws = char_is_whitespace(cs[i]);
        assert(cs@.take(i + 1).drop_last() =~= cs@.take(i as int));
        if !ws && prev_ws && count < u32::MAX {
            count = count + 1;
        }
        prev_ws = ws;
        i = i + 1;
    }
    assert(cs@.take(cs.len() as int) =~= cs@);
    count
}

/// Reading time in minutes (words over 200, at least one) and word count.
pub fn calculate_reading_time(content: &str) -> (r: (u32, u32))
    ensures
        r.1 == capped_count(word_count_spec(content@)),
        r.0 == reading_minutes(r.1 as nat),
        r.0 >= 1,
{
    let words = word_count(content);
    let minutes = words / WORDS_PER_MINUTE;
    if minutes >= 1 {
        (minutes, words)
    } else {
        (1, words)
    }
}

/// Characters of the body kept in a generated summary.
pub const SUMMARY_CHARS: usize = 160;

/// Marks a generated summary as cut short.
pub const ELLIPSIS: &'static str = "...";

/// The metadata's summary, or else the first 160 characters of the body and `...`.
pub open spec fn summary_spec(summary: Seq<char>, body: Seq<char>) -> Seq<char> {
    if summary.len() > 0 {
        summary
    } else if body.len() <= SUMMARY_CHARS {
        body + ELLIPSIS@
    } else {
        body.take(SUMMARY_CHARS as int) + ELLIPSIS@
    }
}

pub fn make_summary(summary: &str, body: &str) -> (r: String)
    ensures
        r@ == summary_spec(summary@, body@),
{
    if !summary.is_empty() {
        let mut r = String::new();
        push_str(&mut r, summary);
        assert(r@ =~= summary@);
        return r;
    }
    let cs = chars_of(body);
    let mut r = String::new();
    let mut i: usize = 0;
    while i < cs.len() && i < SUMMARY_CHARS
        invariant
            i <= cs.len(),
            i <= SUMMARY_CHARS,
            cs@ == body@,
            r@ == cs@.take(i as int),
        decreases cs.len() - i,
    {
        push_char(&mut r, cs[i]);
        assert(cs@.take(i + 1) =~= cs@.take(i as int).push(cs@[i as int]));
        i = i + 1;
    }
    assert(cs.len() <= SUMMARY_CHARS ==> cs@.take(i as int) =~= cs@);
    push_str(&mut r, ELLIPSIS);
    r
}

/// Tags taken into the default keywords.
pub const KEYWORD_TAGS: usize = 5;

pub const KEYWORD_SEPARATOR: &'static str = ", ";

/// The strings joined by `sep`.
pub open spec fn join_with(ws: Seq<Seq<char>>, sep: Seq<char>) -> Seq<char>
    decreases ws.len(),
{
    if ws.len() == 0 {
        seq![]
    } else if ws.len() == 1 {
        ws[0]
    } else {
        join_with(ws.drop_last(), sep) + sep + ws.last()
    }
}

/// The first five tags joined by `, `.
pub open spec fn default_keywords(tags: Seq<Seq<char>>) -> Seq<char> {
    if tags.len() <= KEYWORD_TAGS {
        join_with(tags, KEYWORD_SEPARATOR@)
    } else {
        join_with(tags.take(KEYWORD_TAGS as int), KEYWORD_SEPARATOR@)
    }
}

/// Joins the first `n` strings with `sep`.
pub fn join_first(items: &Vec<String>, n: usize, sep: &str) -> (r: String)
    requires
        n <= items.len(),
    ensures
        r@ == join_with(strings_view(items@).take(n as int), sep@),
{
    let ghost v = strings_view(items@);
    let mut r = String::new();
    let mut i: usize = 0;
    assert(v.take(0) =~= Seq::<Seq<char>>::empty());
    while i < n
        invariant
            i <= n <= items.len(),
            v == strings_view(items@),
            r@ == join_with(v.take(i as int), sep@),
        decreases n - i,
    {
        assert(v.take(i + 1).drop_last() =~= v.take(i as int));
        assert(v.take(i + 1).last() == items@[i as int]@);
        if i > 0 {
            push_str(&mut r, sep);
        }
        push_str(&mut r, items[i].as_str());
        assert(i == 0 ==> r@ =~= v.take(i + 1)[0]);
        i = i + 1;
    }
    r
}

/// Keywords for a post: the first five tags joined by `, `.
pub fn keywords_from_tags(tags: &Vec<String>) -> (r: String)
    ensures
        r@ == default_keywords(strings_view(tags@)),
{
    let n = if tags.len() <= KEYWORD_TAGS {
        tags.len()
    } else {
        KEYWORD_TAGS
    };
    let r = join_first(tags, n, KEYWORD_SEPARATOR);
    assert(tags.len() <= KEYWORD_TAGS ==> strings_view(tags@).take(n as int) =~= strings_view(tags@));
    r
}

/// What chrono's `DateTime::parse_from_str` gives for a text and a format: the
/// instant, in seconds since the epoch, when the text matches the format.
pub uninterp spec fn parsed_timestamp_of(s: Seq<char>, fmt: Seq<char>) -> Option<i64>;

/// Relies on chrono's `DateTime::parse_from_str`, read as a timestamp.
#[verifier::external_body]
fn parse_timestamp(s: &str, fmt: &str) -> (r: Option<i64>)
    ensures
        r == parsed_timestamp_of(s@, fmt@),
{
    chrono::DateTime::parse_from_str(s, fmt).ok().map(|d| d.timestamp())
}

/// What chrono writes, after a format, for an instant seen at an offset from
/// UTC in seconds east; `None` where the instant or the offset is out of range
/// or the format cannot be written.
pub uninterp spec fn formatted_at(ts: i64, offset: i32, fmt: Seq<char>) -> Option<Seq<char>>;

/// Relies on chrono's `FixedOffset::east_opt`, `DateTime::from_timestamp`,
/// `with_timezone` and `format`: the instant at that offset, written after the format.
#[verifier::external_body]
fn format_at(ts: i64, offset: i32, fmt: &str) -> (r: Option<String>)
    ensures
        opt_view(r) == formatted_at(ts, offset, fmt@),
{
    let zone = chrono::FixedOffset::east_opt(offset)?;
    let at = chrono::DateTime::from_timestamp(ts, 0)?.with_timezone(&zone);
    let mut out = String::new();
    write!(out, "{}", at.format(fmt)).ok()?;
    Some(out)
}

/// Relies on chrono's `Local` time zone (`TimeZone::timestamp_opt`, then
/// `FixedOffset::local_minus_utc`): the machine's offset from UTC at an instant,
/// in seconds east, which a `FixedOffset` keeps within a day either way.
#[verifier::external_body]
fn local_offset_at(ts: i64) -> (r: Option<i32>)
    ensures
        r matches Some(o) ==> -86_400 < o < 86_400,
{
    chrono::TimeZone::timestamp_opt(&chrono::Local, ts, 0).single().map(|d| d.offset().local_minus_utc())
}

/// The instant written after the format at the offset, or nothing.
pub open spec fn written(ts: i64, offset: i32, fmt: Seq<char>) -> Seq<char> {
    match formatted_at(ts, offset, fmt) {
        Some(s) => s,
        None => seq![],
    }
}

fn write_at(ts: i64, offset: i32, fmt: &str) -> (r: String)
    ensures
        r@ == written(ts, offset, fmt@),
{
    match format_at(ts, offset, fmt) {
        Some(s) => s,
        None => String::new(),
    }
}

/// Appended to an author's `YYYY-MM-DD` date to read it as midnight UTC.
pub const MIDNIGHT_UTC: &'static str = " 00:00:00 +0000";

pub const AUTHOR_DATE_FORMAT: &'static str = "%Y-%m-%d %H:%M:%S %z";

/// The date as shown to readers, such as `January 02, 2024`.
pub const DISPLAY_DATE_FORMAT: &'static str = "%B %d, %Y";

/// The zero-padded ISO 8601 date, such as `2024-01-02T00:00:00+0000`.
pub const ISO_DATE_FORMAT: &'static str = "%Y-%m-%dT%H:%M:%S%z";

/// The instant of a post: the author's date at midnight UTC when it parses,
/// else the file's modification time, else the current time.
pub open spec fn resolved_timestamp(date: Seq<char>, mtime: Option<i64>, now: i64) -> i64 {
    match parsed_timestamp_of(date + MIDNIGHT_UTC@, AUTHOR_DATE_FORMAT@) {
        Some(t) => t,
        None => match mtime {
            Some(m) => m,
            None => now,
        },
    }
}

/// Resolves the instant of a post; an unparseable date is no error.
pub fn resolve_timestamp(date: &str, mtime: Option<i64>, now: i64) -> (r: i64)
    ensures
        r == resolved_timestamp(date@, mtime, now),
{
    let mut text = String::new();
    push_str(&mut text, date);
    push_str(&mut text, MIDNIGHT_UTC);
    match parse_timestamp(text.as_str(), AUTHOR_DATE_FORMAT) {
        Some(t) => t,
        None => match mtime {
            Some(m) => m,
            None => now,
        },
    }
}

/// The instant of a post, the machine's offset from UTC at that instant, and
/// the instant written at that offset in two forms.
pub struct PostDates {
    pub timestamp: i64,
    /// Seconds east of UTC.
    pub offset: i32,
    /// For readers, such as `January 02, 2024`.
    pub display: String,
    /// ISO 8601, such as `2024-01-02T00:00:00+0000`.
    pub iso: String,
}

/// The dates of a post: the resolved instant, written for readers and in ISO
/// 8601 at the machine's offset from UTC (UTC where the machine gives none).
pub fn post_dates(date: &str, mtime: Option<i64>, now: i64) -> (r: PostDates)
    ensures
        r.timestamp == resolved_timestamp(date@, mtime, now),
        -86_400 < r.offset < 86_400,
        r.display@ == written(r.timestamp, r.offset, DISPLAY_DATE_FORMAT@),
        r.iso@ == written(r.timestamp, r.offset, ISO_DATE_FORMAT@),
{
    let timestamp = resolve_timestamp(date, mtime, now);
    let offset = match local_offset_at(timestamp) {
        Some(o) => o,
        None => 0,
    };
    let display = write_at(timestamp, offset, DISPLAY_DATE_FORMAT);
    let iso = write_at(timestamp, offset, ISO_DATE_FORMAT);
    PostDates { timestamp, offset, display, iso }
}

/// A string holding the characters of `s`.
pub fn owned(s: &str) -> (r: String)
    ensures
        r@ == s@,
{
    let mut r = String::new();
    push_str(&mut r, s);
    r
}

pub const SITE_TITLE: &'static str = "Aryan S Rao";
pub const SITE_DESCRIPTION: &'static str = "My own blog page made with rust and axum";
pub const DEFAULT_SITE_URL: &'static str = "http://localhost:8080";
pub const SITE_AUTHOR: &'static str = "aryansrao";
pub const SITE_LANGUAGE: &'static str = "en";
pub const SITE_TWITTER: &'static str = "@aryansrao";
pub const SITE_LOGO: &'static str = "/logo.png";

/// Image of a post that names none, under the site's URL.
pub const DEFAULT_IMAGE_PATH: &'static str = "/og-default.png";

/// Path of posts under the site's URL.
pub const BLOG_PATH: &'static str = "/blog/";

/// Site-wide settings.
pub struct SiteConfig {
    pub title: String,
    pub description: String,
    pub url: String,
    pub author: String,
    pub language: String,
    pub twitter_handle: String,
    pub logo: String,
}

impl SiteConfig {
    /// The site's settings, served from `url`.
    pub fn with_url(url: String) -> (r: SiteConfig)
        ensures
            r.url == url,
            r.title@ == SITE_TITLE@,
            r.description@ == SITE_DESCRIPTION@,
            r.author@ == SITE_AUTHOR@,
            r.language@ == SITE_LANGUAGE@,
            r.twitter_handle@ == SITE_TWITTER@,
            r.logo@ == SITE_LOGO@,
    {
        SiteConfig {
            title: owned(SITE_TITLE),
            description: owned(SITE_DESCRIPTION),
            url,
            author: owned(SITE_AUTHOR),
            language: owned(SITE_LANGUAGE),
            twitter_handle: owned(SITE_TWITTER),
            logo: owned(SITE_LOGO),
        }
    }
}

/// A render-ready post.
pub struct Post {
    pub title: String,
    /// The rendered HTML of the body.
    pub content: String,
    pub summary: String,
    pub date: String,
    pub date_iso: String,
    pub tags: Vec<String>,
    pub filename: String,
    pub slug: String,
    pub author: String,
    pub image: String,
    pub image_alt: String,
    pub keywords: String,
    pub canonical: String,
    /// Minutes, at least one.
    pub reading_time: u32,
    pub word_count: u32,
    pub github_repo: Option<String>,
    pub website: Option<String>,
}

pub open spec fn or_else(o: Option<Seq<char>>, d: Seq<char>) -> Seq<char> {
    match o {
        Some(v) => v,
        None => d,
    }
}

/// `p` is the post assembled from its metadata, rendered HTML, raw body, file
/// name, written dates and the site's settings.
pub open spec fn is_assembled(
    p: Post,
    meta: crate::front_matter::MetaView,
    content: Seq<char>,
    body: Seq<char>,
    filename: Seq<char>,
    display: Seq<char>,
    iso: Seq<char>,
    site: SiteConfig,
) -> bool {
    &&& p.title@ == meta.title
    &&& p.content@ == content
    &&& p.summary@ == summary_spec(meta.summary, body)
    &&& p.date@ == display
    &&& p.date_iso@ == iso
    &&& strings_view(p.tags@) == meta.tags
    &&& p.filename@ == filename
    &&& p.slug@ == slug_of(meta.title)
    &&& p.author@ == or_else(meta.author, site.author@)
    &&& p.image@ == or_else(meta.image, site.url@ + DEFAULT_IMAGE_PATH@)
    &&& p.image_alt@ == or_else(meta.image_alt, meta.title)
    &&& p.keywords@ == or_else(meta.keywords, default_keywords(meta.tags))
    &&& p.canonical@ == or_else(meta.canonical, site.url@ + BLOG_PATH@ + slug_of(meta.title))
    &&& p.word_count == capped_count(word_count_spec(body))
    &&& p.reading_time == reading_minutes(p.word_count as nat)
    &&& opt_view(p.github_repo) == meta.github_repo
    &&& opt_view(p.website) == meta.website
}

fn or_default(o: Option<String>, d: String) -> (r: String)
    ensures
        r@ == or_else(opt_view(o), d@),
{
    match o {
        Some(v) => v,
        None => d,
    }
}

/// Assembles a post: the summary falls back to the start of the body, the
/// author to the site's, the image to the site's default, its alt text to the
/// title, the keywords to the first five tags and the canonical URL to the
/// post's address under the site.
pub fn assemble_post(
    meta: Metadata,
    content: String,
    body: &str,
    filename: String,
    dates: PostDates,
    site: &SiteConfig,
) -> (p: Post)
    ensures
        is_assembled(p, meta@, content@, body@, filename@, dates.display@, dates.iso@, *site),
{
    let ghost m = meta@;
    let (reading_time, word_count) = calculate_reading_time(body);
    let slug = slugify(meta.title.as_str());
    let summary = make_summary(meta.summary.as_str(), body);
    let mut image_default = String::new();
    push_str(&mut image_default, site.url.as_str());
    push_str(&mut image_default, DEFAULT_IMAGE_PATH);
    let mut canonical_default = String::new();
    push_str(&mut canonical_default, site.url.as_str());
    push_str(&mut canonical_default, BLOG_PATH);
    push_str(&mut canonical_default, slug.as_str());
    let keywords_default = keywords_from_tags(&meta.tags);
    let image_alt = or_default(meta.image_alt, meta.title.clone());
    let p = Post {
        title: meta.title,
        content,
        summary,
        date: dates.display,
        date_iso: dates.iso,
        tags: meta.tags,
        filename,
        slug,
        author: or_default(meta.author, site.author.clone()),
        image: or_default(meta.image, image_default),
        image_alt,
        keywords: or_default(meta.keywords, keywords_default),
        canonical: or_default(meta.canonical, canonical_default),
        reading_time,
        word_count,
        github_repo: meta.github_repo,
        website: meta.website,
    };
    p
}

} // verus!
