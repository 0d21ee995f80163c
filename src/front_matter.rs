//! Front matter: the `---`-fenced block of `key: value` lines that opens a document.

use vstd::prelude::*;
use crate::highlight::opt_view;
use crate::text::{char_is_whitespace, chars_of, is_white_space, push_char};

verus! {

/// Which characters a trim removes from both ends.
#[derive(Clone, Copy, PartialEq, Eq, Structural)]
pub enum Strip {
    Whitespace,
    DoubleQuote,
    SingleQuote,
    Brackets,
}

pub open spec fn strips(k: Strip, c: char) -> bool {
    match k {
        Strip::Whitespace => is_white_space(c),
        Strip::DoubleQuote => c == '"',
        Strip::SingleQuote => c == '\'',
        Strip::Brackets => c == '[' || c == ']',
    }
}

fn strips_char(k: Strip, c: char) -> (r: bool)
    ensures
        r == strips(k, c),
{
    match k {
        Strip::Whitespace => char_is_whitespace(c),
        Strip::DoubleQuote => c == '"',
        Strip::SingleQuote => c == '\'',
        Strip::Brackets => c == '[' || c == ']',
    }
}

/// The first index at or after `i` whose character is not stripped.
pub open spec fn skip_from(s: Seq<char>, k: Strip, i: int) -> int
    decreases s.len() - i,
{
    if 0 <= i < s.len() && strips(k, s[i]) {
        skip_from(s, k, i + 1)
    } else {
        i
    }
}

/// The end of `s[lo..j]` once stripped characters are dropped from its back.
pub open spec fn back_from(s: Seq<char>, k: Strip, lo: int, j: int) -> int
    decreases j - lo,
{
    if lo < j && strips(k, s[j - 1]) {
        back_from(s, k, lo, j - 1)
    } else {
        j
    }
}

/// `s` without the stripped characters at its start and at its end.
pub open spec fn trim_by(s: Seq<char>, k: Strip) -> Seq<char> {
    let a = skip_from(s, k, 0);
    s.subrange(a, back_from(s, k, a, s.len() as int))
}

/// Trims `s[lo..hi]`; returns the bounds of what is left.
pub(crate) fn trim_range(s: &Vec<char>, lo: usize, hi: usize, k: Strip) -> (r: (usize, usize))
    requires
        lo <= hi <= s.len(),
    ensures
        lo <= r.0 <= r.1 <= hi,
        s@.subrange(r.0 as int, r.1 as int) == trim_by(s@.subrange(lo as int, hi as int), k),
{
    let ghost t = s@.subrange(lo as int, hi as int);
    let mut a = lo;
    while a < hi && strips_char(k, s[a])
        invariant
            lo <= a <= hi <= s.len(),
            t == s@.subrange(lo as int, hi as int),
            skip_from(t, k, 0) == skip_from(t, k, a - lo),
        decreases hi - a,
    {
        assert(t[a - lo] == s@[a as int]);
        a = a + 1;
    }
    assert(a < hi ==> t[a - lo] == s@[a as int]);
    let ghost a0 = a - lo;
    assert(skip_from(t, k, 0) == a0);
    let mut b = hi;
    while b > a && strips_char(k, s[b - 1])
        invariant
            lo <= a <= b <= hi <= s.len(),
            t == s@.subrange(lo as int, hi as int),
            a0 == a - lo,
            back_from(t, k, a0, t.len() as int) == back_from(t, k, a0, b - lo),
        decreases b - a,
    {
        assert(t[b - 1 - lo] == s@[b - 1]);
        b = b - 1;
    }
    assert(b > a ==> t[b - 1 - lo] == s@[b - 1]);
    assert(s@.subrange(a as int, b as int) =~= t.subrange(a - lo, b - lo));
    (a, b)
}

/// The characters of `s[lo..hi]` as a string.
pub(crate) fn string_of_range(s: &Vec<char>, lo: usize, hi: usize) -> (r: String)
    requires
        lo <= hi <= s.len(),
    ensures
        r@ == s@.subrange(lo as int, hi as int),
{
    let mut r = String::new();
    let mut i = lo;
    while i < hi
        invariant
            lo <= i <= hi <= s.len(),
            r@ == s@.subrange(lo as int, i as int),
        decreases hi - i,
    {
        push_char(&mut r, s[i]);
        assert(s@.subrange(lo as int, i + 1) =~= s@.subrange(lo as int, i as int).push(s@[i as int]));
        i = i + 1;
    }
    r
}

/// Whether `s[lo..hi]` spells `lit`.
fn range_is(s: &Vec<char>, lo: usize, hi: usize, lit: &str) -> (r: bool)
    requires
        lo <= hi <= s.len(),
    ensures
        r == (s@.subrange(lo as int, hi as int) == lit@),
{
    let l = chars_of(lit);
    if hi - lo != l.len() {
        assert(s@.subrange(lo as int, hi as int).len() != lit@.len());
        return false;
    }
    let mut i: usize = 0;
    while i < l.len()
        invariant
            lo <= hi <= s.len(),
            hi - lo == l.len(),
            l@ == lit@,
            i <= l.len(),
            forall|j: int| 0 <= j < i ==> s@[lo + j] == l@[j],
        decreases l.len() - i,
    {
        if s[lo + i] != l[i] {
            assert(s@.subrange(lo as int, hi as int)[i as int] != lit@[i as int]);
            return false;
        }
        i = i + 1;
    }
    assert(s@.subrange(lo as int, hi as int) =~= lit@);
    true
}

/// Whether the delimiter `---` starts at index `i`.
pub open spec fn delim_at(s: Seq<char>, i: int) -> bool {
    0 <= i && i + 3 <= s.len() && s[i] == '-' && s[i + 1] == '-' && s[i + 2] == '-'
}

/// The first delimiter at or after `i`.
pub open spec fn first_delim(s: Seq<char>, i: int) -> Option<int>
    decreases s.len() - i,
{
    if i < 0 || i + 3 > s.len() {
        None
    } else if delim_at(s, i) {
        Some(i)
    } else {
        first_delim(s, i + 1)
    }
}

/// The metadata block and the body: the text between the first two delimiters,
/// and the text after the second. `None` when there are fewer than two.
pub open spec fn split_document(s: Seq<char>) -> Option<(Seq<char>, Seq<char>)> {
    match first_delim(s, 0) {
        None => None,
        Some(a) => match first_delim(s, a + 3) {
            None => None,
            Some(b) => Some((s.subrange(a + 3, b), s.subrange(b + 3, s.len() as int))),
        },
    }
}

/// The pieces of `s` between occurrences of `sep` (at least one piece).
pub open spec fn split_char(s: Seq<char>, sep: char) -> Seq<Seq<char>>
    decreases s.len(),
{
    if s.len() == 0 {
        seq![seq![]]
    } else {
        let p = split_char(s.drop_last(), sep);
        if s.last() == sep {
            p.push(seq![])
        } else {
            p.update(p.len() - 1, p.last().push(s.last()))
        }
    }
}

/// The first index at or after `i` holding `c`.
pub open spec fn find_char_from(s: Seq<char>, c: char, i: int) -> Option<int>
    decreases s.len() - i,
{
    if i < 0 || i >= s.len() {
        None
    } else if s[i] == c {
        Some(i)
    } else {
        find_char_from(s, c, i + 1)
    }
}

/// A `key: value` line split at its first colon: the key trimmed, the value
/// trimmed and stripped of surrounding double quotes.
pub open spec fn line_entry(line: Seq<char>) -> Option<(Seq<char>, Seq<char>)> {
    match find_char_from(line, ':', 0) {
        None => None,
        Some(c) => Some(
            (
                trim_by(line.subrange(0, c), Strip::Whitespace),
                trim_by(
                    trim_by(line.subrange(c + 1, line.len() as int), Strip::Whitespace),
                    Strip::DoubleQuote,
                ),
            ),
        ),
    }
}

/// One tag of a list: trimmed, then stripped of double and of single quotes.
pub open spec fn clean_tag(p: Seq<char>) -> Seq<char> {
    trim_by(trim_by(trim_by(p, Strip::Whitespace), Strip::DoubleQuote), Strip::SingleQuote)
}

/// The cleaned pieces that are not empty, in order.
pub open spec fn kept_tags(ps: Seq<Seq<char>>) -> Seq<Seq<char>>
    decreases ps.len(),
{
    if ps.len() == 0 {
        seq![]
    } else {
        let r = kept_tags(ps.drop_last());
        let t = clean_tag(ps.last());
        if t.len() > 0 {
            r.push(t)
        } else {
            r
        }
    }
}

/// Tags given as `[a, b]` or as `a, b`.
pub open spec fn parse_tags_spec(v: Seq<char>) -> Seq<Seq<char>> {
    kept_tags(split_char(trim_by(v, Strip::Brackets), ','))
}

/// One step of a left-to-right split: `done` are the finished pieces of `t[..k]`
/// and `t[start..k]` the piece under way.
pub(crate) proof fn lemma_split_step(t: Seq<char>, sep: char, k: int, start: int, done: Seq<Seq<char>>)
    requires
        0 <= start <= k < t.len(),
        split_char(t.take(k), sep) == done.push(t.subrange(start, k)),
    ensures
        t[k] == sep ==> split_char(t.take(k + 1), sep) == done.push(t.subrange(start, k)).push(
            t.subrange(k + 1, k + 1),
        ),
        t[k] != sep ==> split_char(t.take(k + 1), sep) == done.push(t.subrange(start, k + 1)),
{
    assert(t.take(k + 1).drop_last() =~= t.take(k));
    assert(t.take(k + 1).last() == t[k]);
    assert(t.subrange(k + 1, k + 1) =~= Seq::<char>::empty());
    if t[k] != sep {
        let p = done.push(t.subrange(start, k));
        assert(t.subrange(start, k).push(t[k]) =~= t.subrange(start, k + 1));
        assert(p.update(p.len() - 1, p.last().push(t[k])) =~= done.push(t.subrange(start, k + 1)));
    }
}

pub open spec fn strings_view(v: Seq<String>) -> Seq<Seq<char>> {
    v.map_values(|t: String| t@)
}

/// Parses a tags value: strips surrounding brackets, splits at commas, cleans
/// each piece and drops the empty ones.
fn parse_tags(s: &Vec<char>, lo: usize, hi: usize) -> (r: Vec<String>)
    requires
        lo <= hi <= s.len(),
    ensures
        strings_view(r@) == parse_tags_spec(s@.subrange(lo as int, hi as int)),
{
    let (a, b) = trim_range(s, lo, hi, Strip::Brackets);
    let ghost t = s@.subrange(a as int, b as int);
    let mut tags: Vec<String> = Vec::new();
    let ghost mut done: Seq<Seq<char>> = seq![];
    let mut start = a;
    let mut i = a;
    assert(t.take(0) =~= Seq::<char>::empty());
    assert(split_char(t.take(0), ',') =~= done.push(t.subrange(0, 0)));
    while i < b
        invariant
            a <= start <= i <= b <= s.len(),
            t == s@.subrange(a as int, b as int),
            split_char(t.take(i - a), ',') == done.push(t.subrange(start - a, i - a)),
            strings_view(tags@) == kept_tags(done),
        decreases b - i,
    {
        proof {
            lemma_split_step(t, ',', i - a, start - a, done);
        }
        assert(t[i - a] == s@[i as int]);
        if s[i] == ',' {
            proof {
                assert(s@.subrange(start as int, i as int) =~= t.subrange(start - a, i - a));
            }
            push_tag(&mut tags, s, start, i);
            proof {
                let nd = done.push(t.subrange(start - a, i - a));
                assert(nd.drop_last() =~= done);
                done = nd;
            }
            start = i + 1;
        }
        i = i + 1;
    }
    assert(t.take(b - a) =~= t);
    assert(s@.subrange(start as int, b as int) =~= t.subrange(start - a, b - a));
    push_tag(&mut tags, s, start, b);
    proof {
        let all = done.push(t.subrange(start - a, b - a));
        assert(all.drop_last() =~= done);
    }
    tags
}

/// Cleans the piece `s[lo..hi]` and appends it when it is not empty.
fn push_tag(tags: &mut Vec<String>, s: &Vec<char>, lo: usize, hi: usize)
    requires
        lo <= hi <= s.len(),
    ensures
        ({
            let t = clean_tag(s@.subrange(lo as int, hi as int));
            strings_view(final(tags)@) == if t.len() > 0 {
                strings_view(old(tags)@).push(t)
            } else {
                strings_view(old(tags)@)
            }
        }),
{
    let (a1, b1) = trim_range(s, lo, hi, Strip::Whitespace);
    let (a2, b2) = trim_range(s, a1, b1, Strip::DoubleQuote);
    let (a3, b3) = trim_range(s, a2, b2, Strip::SingleQuote);
    if a3 < b3 {
        let t = string_of_range(s, a3, b3);
        tags.push(t);
        assert(strings_view(tags@) =~= strings_view(old(tags)@).push(t@));
    }
}

/// The recognised keys of a document's front matter.
pub struct Metadata {
    pub title: String,
    pub date: String,
    pub tags: Vec<String>,
    pub summary: String,
    pub author: Option<String>,
    pub image: Option<String>,
    pub image_alt: Option<String>,
    pub keywords: Option<String>,
    pub canonical: Option<String>,
    pub github_repo: Option<String>,
    pub website: Option<String>,
}

/// Metadata as plain sequences.
pub struct MetaView {
    pub title: Seq<char>,
    pub date: Seq<char>,
    pub tags: Seq<Seq<char>>,
    pub summary: Seq<char>,
    pub author: Option<Seq<char>>,
    pub image: Option<Seq<char>>,
    pub image_alt: Option<Seq<char>>,
    pub keywords: Option<Seq<char>>,
    pub canonical: Option<Seq<char>>,
    pub github_repo: Option<Seq<char>>,
    pub website: Option<Seq<char>>,
}

impl View for Metadata {
    type V = MetaView;

    open spec fn view(&self) -> MetaView {
        MetaView {
            title: self.title@,
            date: self.date@,
            tags: strings_view(self.tags@),
            summary: self.summary@,
            author: opt_view(self.author),
            image: opt_view(self.image),
            image_alt: opt_view(self.image_alt),
            keywords: opt_view(self.keywords),
            canonical: opt_view(self.canonical),
            github_repo: opt_view(self.github_repo),
            website: opt_view(self.website),
        }
    }
}

/// Absent keys: empty strings, no tags, no optional values.
pub open spec fn default_meta() -> MetaView {
    MetaView {
        title: seq![],
        date: seq![],
        tags: seq![],
        summary: seq![],
        author: None,
        image: None,
        image_alt: None,
        keywords: None,
        canonical: None,
        github_repo: None,
        website: None,
    }
}

/// The metadata after one `key: value` entry; unknown keys change nothing.
pub open spec fn apply_entry(m: MetaView, key: Seq<char>, v: Seq<char>) -> MetaView {
    if key == "title"@ {
        MetaView { title: v, ..m }
    } else if key == "date"@ {
        MetaView { date: v, ..m }
    } else if key == "tags"@ {
        MetaView { tags: parse_tags_spec(v), ..m }
    } else if key == "summary"@ {
        MetaView { summary: v, ..m }
    } else if key == "author"@ {
        MetaView { author: Some(v), ..m }
    } else if key == "image"@ {
        MetaView { image: Some(v), ..m }
    } else if key == "image_alt"@ {
        MetaView { image_alt: Some(v), ..m }
    } else if key == "keywords"@ {
        MetaView { keywords: Some(v), ..m }
    } else if key == "canonical"@ {
        MetaView { canonical: Some(v), ..m }
    } else if key == "github_repo"@ {
        MetaView { github_repo: Some(v), ..m }
    } else if key == "website"@ || key == "homepage"@ {
        MetaView { website: Some(v), ..m }
    } else {
        m
    }
}

pub open spec fn apply_line(m: MetaView, line: Seq<char>) -> MetaView {
    match line_entry(line) {
        None => m,
        Some((k, v)) => apply_entry(m, k, v),
    }
}

/// The lines applied in order, later ones overriding earlier ones.
pub open spec fn apply_lines(m: MetaView, lines: Seq<Seq<char>>) -> MetaView
    decreases lines.len(),
{
    if lines.len() == 0 {
        m
    } else {
        apply_line(apply_lines(m, lines.drop_last()), lines.last())
    }
}

/// The metadata of a document, or `None` when it has no fenced block.
pub open spec fn parse_metadata_spec(s: Seq<char>) -> Option<MetaView> {
    match split_document(s) {
        None => None,
        Some((meta, _)) => Some(apply_lines(default_meta(), split_char(meta, '\n'))),
    }
}

/// The body of a document: what follows its second delimiter, or nothing.
pub open spec fn body_spec(s: Seq<char>) -> Seq<char> {
    match split_document(s) {
        None => seq![],
        Some((_, body)) => body,
    }
}

fn new_metadata() -> (m: Metadata)
    ensures
        m@ == default_meta(),
{
    let m = Metadata {
        title: String::new(),
        date: String::new(),
        tags: Vec::new(),
        summary: String::new(),
        author: None,
        image: None,
        image_alt: None,
        keywords: None,
        canonical: None,
        github_repo: None,
        website: None,
    };
    assert(m@.tags =~= default_meta().tags);
    m
}

/// The first index of `c` in `s[lo..hi]`.
fn find_char(s: &Vec<char>, lo: usize, hi: usize, c: char) -> (r: Option<usize>)
    requires
        lo <= hi <= s.len(),
    ensures
        match find_char_from(s@.subrange(lo as int, hi as int), c, 0) {
            None => r is None,
            Some(j) => r matches Some(x) && x == j + lo,
        },
        r matches Some(j) ==> lo <= j < hi,
{
    let ghost t = s@.subrange(lo as int, hi as int);
    let mut i = lo;
    while i < hi
        invariant
            lo <= i <= hi <= s.len(),
            t == s@.subrange(lo as int, hi as int),
            find_char_from(t, c, 0) == find_char_from(t, c, i - lo),
        decreases hi - i,
    {
        assert(t[i - lo] == s@[i as int]);
        if s[i] == c {
            return Some(i);
        }
        i = i + 1;
    }
    None
}

/// Applies the line `s[lo..hi]` to the metadata.
fn apply_line_exec(m: &mut Metadata, s: &Vec<char>, lo: usize, hi: usize)
    requires
        lo <= hi <= s.len(),
    ensures
        final(m)@ == apply_line(old(m)@, s@.subrange(lo as int, hi as int)),
{
    let ghost line = s@.subrange(lo as int, hi as int);
    match find_char(s, lo, hi, ':') {
        None => {},
        Some(c) => {
            let (ka, kb) = trim_range(s, lo, c, Strip::Whitespace);
            let (va, vb) = trim_range(s, c + 1, hi, Strip::Whitespace);
            let (a, b) = trim_range(s, va, vb, Strip::DoubleQuote);
            assert(line.subrange(0, c - lo) =~= s@.subrange(lo as int, c as int));
            assert(line.subrange(c - lo + 1, line.len() as int) =~= s@.subrange(c + 1, hi as int));
            let ghost key = s@.subrange(ka as int, kb as int);
            let ghost v = s@.subrange(a as int, b as int);
            assert(line_entry(line) == Some((key, v)));
            if range_is(s, ka, kb, "title") {
                m.title = string_of_range(s, a, b);
            } else if range_is(s, ka, kb, "date") {
                m.date = string_of_range(s, a, b);
            } else if range_is(s, ka, kb, "tags") {
                m.tags = parse_tags(s, a, b);
            } else if range_is(s, ka, kb, "summary") {
                m.summary = string_of_range(s, a, b);
            } else if range_is(s, ka, kb, "author") {
                m.author = Some(string_of_range(s, a, b));
            } else if range_is(s, ka, kb, "image") {
                m.image = Some(string_of_range(s, a, b));
            } else if range_is(s, ka, kb, "image_alt") {
                m.image_alt = Some(string_of_range(s, a, b));
            } else if range_is(s, ka, kb, "keywords") {
                m.keywords = Some(string_of_range(s, a, b));
            } else if range_is(s, ka, kb, "canonical") {
                m.canonical = Some(string_of_range(s, a, b));
            } else if range_is(s, ka, kb, "github_repo") {
                m.github_repo = Some(string_of_range(s, a, b));
            } else if range_is(s, ka, kb, "website") || range_is(s, ka, kb, "homepage") {
                m.website = Some(string_of_range(s, a, b));
            }
        },
    }
}

/// The first index of `c` in `s`.
pub(crate) fn find_char_pos(s: &Vec<char>, c: char) -> (r: Option<usize>)
    ensures
        match find_char_from(s@, c, 0) {
            None => r is None,
            Some(j) => r matches Some(x) && x == j,
        },
        r matches Some(j) ==> j < s.len(),
{
    let r = find_char(s, 0, s.len(), c);
    assert(s@.subrange(0, s.len() as int) =~= s@);
    r
}

/// The first delimiter in `s` at or after `from`.
fn find_delim(s: &Vec<char>, from: usize) -> (r: Option<usize>)
    ensures
        match first_delim(s@, from as int) {
            None => r is None,
            Some(j) => r matches Some(x) && x == j,
        },
        r matches Some(j) ==> from <= j && j + 3 <= s.len(),
{
    let mut i = from;
    while i < s.len() && s.len() - i >= 3
        invariant
            from <= i,
            first_delim(s@, from as int) == first_delim(s@, i as int),
        decreases s.len() - i,
    {
        if s[i] == '-' && s[i + 1] == '-' && s[i + 2] == '-' {
            return Some(i);
        }
        i = i + 1;
    }
    None
}

/// The bounds of the metadata block and of the body.
fn split_bounds(s: &Vec<char>) -> (r: Option<(usize, usize, usize)>)
    ensures
        match split_document(s@) {
            None => r is None,
            Some((meta, body)) => r matches Some((a, b, c)) && a <= b <= c <= s.len()
                && meta == s@.subrange(a as int, b as int)
                && body == s@.subrange(c as int, s.len() as int),
        },
{
    match find_delim(s, 0) {
        None => None,
        Some(a) => match find_delim(s, a + 3) {
            None => None,
            Some(b) => Some((a + 3, b, b + 3)),
        },
    }
}

/// Parses the front matter of a document: the `key: value` lines between the
/// first two `---` delimiters. `None` when the document has fewer than two.
pub fn parse_metadata(content: &str) -> (r: Option<Metadata>)
    ensures
        match parse_metadata_spec(content@) {
            None => r is None,
            Some(m) => r matches Some(x) && x@ == m,
        },
{
    let s = chars_of(content);
    match split_bounds(&s) {
        None => None,
        Some((lo, hi, _)) => {
            let ghost t = s@.subrange(lo as int, hi as int);
            let mut m = new_metadata();
            let ghost mut done: Seq<Seq<char>> = seq![];
            let mut start = lo;
            let mut i = lo;
            assert(t.take(0) =~= Seq::<char>::empty());
            assert(split_char(t.take(0), '\n') =~= done.push(t.subrange(0, 0)));
            while i < hi
                invariant
                    lo <= start <= i <= hi <= s.len(),
                    t == s@.subrange(lo as int, hi as int),
                    split_char(t.take(i - lo), '\n') == done.push(t.subrange(start - lo, i - lo)),
                    m@ == apply_lines(default_meta(), done),
                decreases hi - i,
            {
                proof {
                    lemma_split_step(t, '\n', i - lo, start - lo, done);
                }
                assert(t[i - lo] == s@[i as int]);
                if s[i] == '\n' {
                    assert(s@.subrange(start as int, i as int) =~= t.subrange(start - lo, i - lo));
                    apply_line_exec(&mut m, &s, start, i);
                    proof {
                        let nd = done.push(t.subrange(start - lo, i - lo));
                        assert(nd.drop_last() =~= done);
                        done = nd;
                    }
                    start = i + 1;
                }
                i = i + 1;
            }
            assert(t.take(hi - lo) =~= t);
            assert(s@.subrange(start as int, hi as int) =~= t.subrange(start - lo, hi - lo));
            apply_line_exec(&mut m, &s, start, hi);
            proof {
                let all = done.push(t.subrange(start - lo, hi - lo));
                assert(all.drop_last() =~= done);
            }
            Some(m)
        },
    }
}

/// The body of a document: the text after its second `---` delimiter, or the
/// empty string when it has fewer than two.
pub fn document_body(content: &str) -> (r: String)
    ensures
        r@ == body_spec(content@),
{
    let s = chars_of(content);
    match split_bounds(&s) {
        None => String::new(),
        Some((_, _, c)) => string_of_range(&s, c, s.len()),
    }
}

} // verus!
