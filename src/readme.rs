//! Posts made from a GitHub repository's README.

use vstd::prelude::*;
use crate::front_matter::{find_char_from, strings_view, trim_by, Strip};
use crate::highlight::opt_view;
use crate::post::{join_with, owned};
use crate::text::{chars_of, lowercase, push_char, push_str, to_lowercase};

verus! {

/// The fields of a GitHub repository that the blog reads.
pub struct GitHubRepo {
    pub name: String,
    pub full_name: String,
    pub description: Option<String>,
    pub html_url: String,
    pub pushed_at: Option<String>,
    pub updated_at: Option<String>,
    pub language: Option<String>,
    pub stargazers_count: u32,
    pub fork: bool,
    pub archived: bool,
    pub topics: Option<Vec<String>>,
    pub homepage: Option<String>,
}

/// Date of a post whose repository gives none.
pub const FALLBACK_DATE: &'static str = "2025-01-01";

/// Summary of a post whose repository has no description.
pub const FALLBACK_DESCRIPTION: &'static str = "A GitHub project";

/// Topics of the repository taken into the post's tags.
pub const TOPIC_TAGS: usize = 3;

pub const TAG_GITHUB: &'static str = "github";
pub const TAG_PROJECT: &'static str = "project";
pub const OPEN_TITLE: &'static str = "---\ntitle: \"";
pub const OPEN_DATE: &'static str = "\"\ndate: \"";
pub const OPEN_TAGS: &'static str = "\"\ntags: [";
pub const OPEN_SUMMARY: &'static str = "]\nsummary: \"";
pub const OPEN_AUTHOR: &'static str = "\"\nauthor: \"";
pub const OPEN_KEYWORDS: &'static str = "\"\nkeywords: \"";
pub const KEYWORDS_TAIL: &'static str = ", github, open source\"\ngithub_repo: \"";
pub const QUOTE: &'static str = "\"";
pub const OPEN_WEBSITE: &'static str = "\nwebsite: \"";
pub const CLOSE_FRONT_MATTER: &'static str = "\n---\n\n";
pub const NEWLINE: &'static str = "\n";
pub const TAG_SEPARATOR: &'static str = ", ";

/// The part of a timestamp before its `T`.
pub open spec fn before_t(d: Seq<char>) -> Seq<char> {
    match find_char_from(d, 'T', 0) {
        Some(i) => d.take(i),
        None => d,
    }
}

/// The day the repository was last pushed to, else last updated, else the fallback.
pub open spec fn repo_date(pushed_at: Option<Seq<char>>, updated_at: Option<Seq<char>>) -> Seq<char> {
    match pushed_at {
        Some(d) => before_t(d),
        None => match updated_at {
            Some(d) => before_t(d),
            None => FALLBACK_DATE@,
        },
    }
}

/// `github`, `project`, the lowercased language if any, and the first three topics.
pub open spec fn repo_tags(language: Option<Seq<char>>, topics: Option<Seq<Seq<char>>>) -> Seq<Seq<char>> {
    let base = seq![TAG_GITHUB@, TAG_PROJECT@];
    let with_lang = match language {
        Some(l) => base.push(lowercase(l)),
        None => base,
    };
    match topics {
        Some(ts) => with_lang + if ts.len() <= TOPIC_TAGS {
            ts
        } else {
            ts.take(TOPIC_TAGS as int)
        },
        None => with_lang,
    }
}

/// Each tag in double quotes, joined by `, `.
pub open spec fn quoted_tags(tags: Seq<Seq<char>>) -> Seq<char> {
    join_with(tags.map_values(|t: Seq<char>| QUOTE@ + t + QUOTE@), TAG_SEPARATOR@)
}

/// Double quotes turned into single quotes.
pub open spec fn unquote(s: Seq<char>) -> Seq<char> {
    s.map_values(|c: char| if c == '"' { '\'' } else { c })
}

/// The `website` line for a homepage that is not blank.
pub open spec fn website_line(homepage: Option<Seq<char>>) -> Seq<char> {
    match homepage {
        Some(h) => if trim_by(h, Strip::Whitespace).len() > 0 {
            OPEN_WEBSITE@ + trim_by(h, Strip::Whitespace) + QUOTE@
        } else {
            seq![]
        },
        None => seq![],
    }
}

pub open spec fn topics_view(t: Option<Vec<String>>) -> Option<Seq<Seq<char>>> {
    match t {
        Some(v) => Some(strings_view(v@)),
        None => None,
    }
}

/// The document made from a repository and its README.
pub open spec fn readme_post_spec(repo: GitHubRepo, readme: Seq<char>, username: Seq<char>) -> Seq<char> {
    OPEN_TITLE@ + repo.name@ + OPEN_DATE@ + repo_date(opt_view(repo.pushed_at), opt_view(repo.updated_at))
        + OPEN_TAGS@ + quoted_tags(repo_tags(opt_view(repo.language), topics_view(repo.topics)))
        + OPEN_SUMMARY@ + unquote(or_fallback(opt_view(repo.description))) + OPEN_AUTHOR@
        + username + OPEN_KEYWORDS@ + repo.name@ + KEYWORDS_TAIL@ + repo.full_name@ + QUOTE@
        + website_line(opt_view(repo.homepage)) + CLOSE_FRONT_MATTER@ + readme + NEWLINE@
}

pub open spec fn or_fallback(d: Option<Seq<char>>) -> Seq<char> {
    match d {
        Some(s) => s,
        None => FALLBACK_DESCRIPTION@,
    }
}

fn day_of(d: &String) -> (r: String)
    ensures
        r@ == before_t(d@),
{
    let cs = chars_of(d.as_str());
    assert(cs@.subrange(0, cs.len() as int) =~= cs@);
    match crate::front_matter::find_char_pos(&cs, 'T') {
        Some(i) => {
            let r = crate::front_matter::string_of_range(&cs, 0, i);
            assert(cs@.subrange(0, i as int) =~= cs@.take(i as int));
            r
        },
        None => owned(d.as_str()),
    }
}

fn tags_of(repo: &GitHubRepo) -> (r: Vec<String>)
    ensures
        strings_view(r@) == repo_tags(opt_view(repo.language), topics_view(repo.topics)),
{
    let mut tags: Vec<String> = Vec::new();
    tags.push(owned(TAG_GITHUB));
    tags.push(owned(TAG_PROJECT));
    let ghost base = seq![TAG_GITHUB@, TAG_PROJECT@];
    assert(strings_view(tags@) =~= base);
    match &repo.language {
        Some(l) => {
            let low = to_lowercase(l.as_str());
            tags.push(low);
        },
        None => {},
    }
    let ghost with_lang = match opt_view(repo.language) {
        Some(l) => base.push(lowercase(l)),
        None => base,
    };
    assert(strings_view(tags@) =~= with_lang);
    match &repo.topics {
        Some(ts) => {
            let n = if ts.len() <= TOPIC_TAGS {
                ts.len()
            } else {
                TOPIC_TAGS
            };
            let start = tags.len();
            let mut i: usize = 0;
            while i < n
                invariant
                    i <= n <= ts.len(),
                    start == with_lang.len(),
                    tags.len() == start + i,
                    strings_view(tags@) == with_lang + strings_view(ts@).take(i as int),
                decreases n - i,
            {
                let t = ts[i].clone();
                let ghost before = tags@;
                tags.push(t);
                assert(strings_view(tags@) =~= strings_view(before).push(ts@[i as int]@));
                assert(strings_view(ts@).take(i + 1) =~= strings_view(ts@).take(i as int).push(ts@[i as int]@));
                i = i + 1;
            }
            assert(ts.len() <= TOPIC_TAGS ==> strings_view(ts@).take(n as int) =~= strings_view(ts@));
        },
        None => {},
    }
    tags
}

fn quote_tags(tags: &Vec<String>) -> (r: String)
    ensures
        r@ == quoted_tags(strings_view(tags@)),
{
    let ghost q = strings_view(tags@).map_values(|t: Seq<char>| QUOTE@ + t + QUOTE@);
    let mut r = String::new();
    let mut i: usize = 0;
    assert(q.take(0) =~= Seq::<Seq<char>>::empty());
    while i < tags.len()
        invariant
            i <= tags.len(),
            q == strings_view(tags@).map_values(|t: Seq<char>| QUOTE@ + t + QUOTE@),
            r@ == join_with(q.take(i as int), TAG_SEPARATOR@),
        decreases tags.len() - i,
    {
        assert(q.take(i + 1).drop_last() =~= q.take(i as int));
        assert(q.take(i + 1).last() == QUOTE@ + tags@[i as int]@ + QUOTE@);
        if i > 0 {
            push_str(&mut r, TAG_SEPARATOR);
        }
        push_str(&mut r, QUOTE);
        push_str(&mut r, tags[i].as_str());
        push_str(&mut r, QUOTE);
        assert(i == 0 ==> r@ =~= q.take(i + 1)[0]);
        i = i + 1;
    }
    assert(q.take(tags.len() as int) =~= q);
    r
}

fn unquoted(s: &str) -> (r: String)
    ensures
        r@ == unquote(s@),
{
    let cs = chars_of(s);
    let mut r = String::new();
    let mut i: usize = 0;
    while i < cs.len()
        invariant
            i <= cs.len(),
            cs@ == s@,
            r@ == unquote(s@).take(i as int),
        decreases cs.len() - i,
    {
        let c = cs[i];
        if c == '"' {
            push_char(&mut r, '\'');
        } else {
            push_char(&mut r, c);
        }
        assert(unquote(s@).take(i + 1) =~= unquote(s@).take(i as int).push(unquote(s@)[i as int]));
        i = i + 1;
    }
    assert(unquote(s@).take(cs.len() as int) =~= unquote(s@));
    r
}

fn website_of(homepage: &Option<String>) -> (r: String)
    ensures
        r@ == website_line(opt_view(*homepage)),
{
    match homepage {
        Some(h) => {
            let cs = chars_of(h.as_str());
            let (a, b) = crate::front_matter::trim_range(&cs, 0, cs.len(), Strip::Whitespace);
            assert(cs@.subrange(0, cs.len() as int) =~= h@);
            if a < b {
                let mut r = String::new();
                push_str(&mut r, OPEN_WEBSITE);
                let t = crate::front_matter::string_of_range(&cs, a, b);
                push_str(&mut r, t.as_str());
                push_str(&mut r, QUOTE);
                r
            } else {
                String::new()
            }
        },
        None => String::new(),
    }
}

/// Writes the document of a post made from a repository's README: front matter
/// with the repository's name, last push date, tags, description, the author
/// `username`, keywords, repository and homepage, then the README.
pub fn create_post_from_readme(repo: &GitHubRepo, readme_content: &str, username: &str) -> (r: String)
    ensures
        r@ == readme_post_spec(*repo, readme_content@, username@),
{
    let date = match &repo.pushed_at {
        Some(d) => day_of(d),
        None => match &repo.updated_at {
            Some(d) => day_of(d),
            None => owned(FALLBACK_DATE),
        },
    };
    let tags = tags_of(repo);
    let tags_str = quote_tags(&tags);
    let description = match &repo.description {
        Some(d) => unquoted(d.as_str()),
        None => unquoted(FALLBACK_DESCRIPTION),
    };
    let website = website_of(&repo.homepage);
    let mut r = String::new();
    push_str(&mut r, OPEN_TITLE);
    push_str(&mut r, repo.name.as_str());
    push_str(&mut r, OPEN_DATE);
    push_str(&mut r, date.as_str());
    push_str(&mut r, OPEN_TAGS);
    push_str(&mut r, tags_str.as_str());
    push_str(&mut r, OPEN_SUMMARY);
    push_str(&mut r, description.as_str());
    push_str(&mut r, OPEN_AUTHOR);
    push_str(&mut r, username);
    push_str(&mut r, OPEN_KEYWORDS);
    push_str(&mut r, repo.name.as_str());
    push_str(&mut r, KEYWORDS_TAIL);
    push_str(&mut r, repo.full_name.as_str());
    push_str(&mut r, QUOTE);
    push_str(&mut r, website.as_str());
    push_str(&mut r, CLOSE_FRONT_MATTER);
    push_str(&mut r, readme_content);
    push_str(&mut r, NEWLINE);
    r
}

/// The repositories that are neither forks nor archived, in order.
pub open spec fn publishable(rs: Seq<GitHubRepo>) -> Seq<GitHubRepo>
    decreases rs.len(),
{
    if rs.len() == 0 {
        seq![]
    } else {
        let r = publishable(rs.drop_last());
        if !rs.last().fork && !rs.last().archived {
            r.push(rs.last())
        } else {
            r
        }
    }
}

/// Drops forks and archived repositories.
pub fn publishable_repos(repos: Vec<GitHubRepo>) -> (r: Vec<GitHubRepo>)
    ensures
        r@ == publishable(repos@),
{
    let ghost all = repos@;
    let mut rest = repos;
    let mut kept: Vec<GitHubRepo> = Vec::new();
    let ghost mut done: int = 0;
    while rest.len() > 0
        invariant
            0 <= done <= all.len(),
            rest@ == all.skip(done),
            kept@ == publishable(all.take(done)),
        decreases rest.len(),
    {
        let repo = rest.remove(0);
        assert(all.take(done + 1).drop_last() =~= all.take(done));
        assert(all.take(done + 1).last() == repo);
        if !repo.fork && !repo.archived {
            kept.push(repo);
        }
        proof {
            assert(rest@ =~= all.skip(done + 1));
            done = done + 1;
        }
    }
    assert(all.take(done) =~= all);
    kept
}

pub const GITHUB_FILE_PREFIX: &'static str = "github-";
pub const MARKDOWN_EXTENSION: &'static str = ".md";

/// `github-<name>.md`, the name lowercased with spaces turned into dashes.
pub open spec fn github_filename_spec(name: Seq<char>) -> Seq<char> {
    GITHUB_FILE_PREFIX@ + lowercase(name).map_values(|c: char| if c == ' ' { '-' } else { c })
        + MARKDOWN_EXTENSION@
}

/// The file a repository's post is written to.
pub fn github_post_filename(name: &str) -> (r: String)
    ensures
        r@ == github_filename_spec(name@),
{
    let low = to_lowercase(name);
    let cs = chars_of(low.as_str());
    let ghost m = lowercase(name@).map_values(|c: char| if c == ' ' { '-' } else { c });
    let mut r = String::new();
    push_str(&mut r, GITHUB_FILE_PREFIX);
    let mut i: usize = 0;
    while i < cs.len()
        invariant
            i <= cs.len(),
            cs@ == lowercase(name@),
            m == lowercase(name@).map_values(|c: char| if c == ' ' { '-' } else { c }),
            r@ == GITHUB_FILE_PREFIX@ + m.take(i as int),
        decreases cs.len() - i,
    {
        let c = cs[i];
        if c == ' ' {
            push_char(&mut r, '-');
        } else {
            push_char(&mut r, c);
        }
        assert(m.take(i + 1) =~= m.take(i as int).push(m[i as int]));
        i = i + 1;
    }
    assert(m.take(cs.len() as int) =~= m);
    push_str(&mut r, MARKDOWN_EXTENSION);
    r
}

} // verus!
