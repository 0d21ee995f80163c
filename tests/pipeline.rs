use blog_engine::collection::{build_posts, sort_posts, text_less, SourceDoc};
use blog_engine::front_matter::{document_body, parse_metadata};
use blog_engine::highlight::{render_code_block, Highlighter};
use blog_engine::markdown::{render_events, EventKind, HeadingLevel, MdEvent};
use blog_engine::post::{
    assemble_post, calculate_reading_time, make_summary, post_dates, resolve_timestamp,
    word_count, Post, SiteConfig,
};
use blog_engine::readme::{create_post_from_readme, GitHubRepo};
use blog_engine::search::{posts_with_tag, search_posts, strip_html_tags};
use blog_engine::slug::slugify;

fn ev(kind: EventKind, html: &str) -> MdEvent {
    MdEvent { kind, html: html.to_string() }
}

fn post(title: &str, date_iso: &str, tags: &[&str], content: &str) -> Post {
    Post {
        title: title.to_string(),
        content: content.to_string(),
        summary: String::new(),
        date: String::new(),
        date_iso: date_iso.to_string(),
        tags: tags.iter().map(|t| t.to_string()).collect(),
        filename: String::new(),
        slug: slugify(title),
        author: String::new(),
        image: String::new(),
        image_alt: String::new(),
        keywords: String::new(),
        canonical: String::new(),
        reading_time: 1,
        word_count: 0,
        github_repo: None,
        website: None,
    }
}

#[test]
fn slugify_lowercases_and_joins_words() {
    assert_eq!(slugify("Hello, World!"), "hello-world");
    assert_eq!(slugify("  Rust & Axum: A Blog  "), "rust-axum-a-blog");
    assert_eq!(slugify(""), "");
    assert_eq!(slugify("--- !!"), "");
}

#[test]
fn slugify_is_idempotent() {
    for t in ["Hello, World!", "Über Café 2024", "A--B  c", "ΣΑΣ test", ""] {
        let once = slugify(t);
        assert_eq!(slugify(&once), once);
    }
}

#[test]
fn word_count_ignores_trailing_whitespace() {
    let body = "one two\tthree\nfour";
    assert_eq!(word_count(body), 4);
    assert_eq!(word_count(&format!("{} ", body)), 4);
    assert_eq!(word_count(""), 0);
    assert_eq!(word_count("   "), 0);
}

#[test]
fn reading_time_is_at_least_one_minute() {
    assert_eq!(calculate_reading_time(""), (1, 0));
    assert_eq!(calculate_reading_time("a b c"), (1, 3));
    let long = vec!["word"; 450].join(" ");
    assert_eq!(calculate_reading_time(&long), (2, 450));
}

#[test]
fn tags_list_keeps_order_and_strips_quotes() {
    let doc = "---\ntitle: \"Hi\"\ntags: [rust, web, \"axum blog\"]\n---\nbody";
    let m = parse_metadata(doc).unwrap();
    assert_eq!(m.tags, vec!["rust", "web", "axum blog"]);
    assert_eq!(m.title, "Hi");
}

#[test]
fn tags_as_comma_separated_string() {
    let doc = "---\ntags: one, 'two' ,, three\n---\n";
    let m = parse_metadata(doc).unwrap();
    assert_eq!(m.tags, vec!["one", "two", "three"]);
}

#[test]
fn metadata_keys_defaults_and_aliases() {
    let doc = "---\ntitle: A: B\ndate: 2024-01-02\nhomepage: https://x.dev\nunknown: 1\nauthor: \"Ann\"\nno colon here\n---\nText";
    let m = parse_metadata(doc).unwrap();
    assert_eq!(m.title, "A: B");
    assert_eq!(m.date, "2024-01-02");
    assert_eq!(m.website.as_deref(), Some("https://x.dev"));
    assert_eq!(m.author.as_deref(), Some("Ann"));
    assert_eq!(m.summary, "");
    assert!(m.image.is_none());
    assert!(m.tags.is_empty());
}

#[test]
fn document_without_front_matter_is_rejected() {
    assert!(parse_metadata("no delimiters").is_none());
    assert!(parse_metadata("---\ntitle: x\n").is_none());
    assert_eq!(document_body("---\ntitle: x\n"), "");
}

#[test]
fn body_follows_second_delimiter() {
    assert_eq!(document_body("---\ntitle: x\n---\nHello --- there"), "\nHello --- there");
}

#[test]
fn heading_gets_anchor_from_text() {
    let events = vec![
        ev(EventKind::HeadingStart(HeadingLevel::H2), "<h2>"),
        ev(EventKind::Text("Hello, World!".to_string()), "Hello, World!"),
        ev(EventKind::HeadingEnd, "</h2>\n"),
    ];
    let hl = Highlighter::new();
    assert_eq!(render_events(&events, &hl), "<h2 id=\"hello-world\">Hello, World!</h2>");
}

#[test]
fn heading_keeps_inline_markup() {
    let events = vec![
        ev(EventKind::HeadingStart(HeadingLevel::H1), "<h1>"),
        ev(EventKind::Other, "<em>"),
        ev(EventKind::Text("Big".to_string()), "Big"),
        ev(EventKind::Other, "</em>"),
        ev(EventKind::SoftBreak, "\n"),
        ev(EventKind::Code("x<y".to_string()), "<code>x&lt;y</code>"),
        ev(EventKind::HeadingEnd, "</h1>\n"),
    ];
    let hl = Highlighter::new();
    assert_eq!(
        render_events(&events, &hl),
        "<h1 id=\"big-x-y\"><em>Big</em>\n<code>x&lt;y</code></h1>"
    );
}

#[test]
fn table_cells_follow_head_flag() {
    let events = vec![
        ev(EventKind::TableStart, "<table>"),
        ev(EventKind::TableHeadStart, "<thead>"),
        ev(EventKind::TableCellStart, "<th>"),
        ev(EventKind::Text("A".to_string()), "A"),
        ev(EventKind::TableCellEnd, "</th>"),
        ev(EventKind::TableHeadEnd, "</thead>"),
        ev(EventKind::TableRowStart, "<tr>"),
        ev(EventKind::TableCellStart, "<td>"),
        ev(EventKind::Text("1".to_string()), "1"),
        ev(EventKind::TableCellEnd, "</td>"),
        ev(EventKind::TableRowEnd, "</tr>"),
        ev(EventKind::TableEnd, "</table>"),
    ];
    let hl = Highlighter::new();
    assert_eq!(
        render_events(&events, &hl),
        "<div class=\"table-container\"><table><thead><tr><th>A</th></tr></thead><tbody><tr><td>1</td></tr></table></div>"
    );
}

#[test]
fn footnotes_tasks_strike_and_quotes() {
    let events = vec![
        ev(EventKind::TaskListMarker(true), ""),
        ev(EventKind::FootnoteReference("n".to_string()), ""),
        ev(EventKind::FootnoteDefinitionStart("n".to_string()), ""),
        ev(EventKind::FootnoteDefinitionEnd, ""),
        ev(EventKind::StrikethroughStart, "<del>"),
        ev(EventKind::StrikethroughEnd, "</del>"),
        ev(EventKind::BlockQuoteStart, "<blockquote>"),
        ev(EventKind::BlockQuoteEnd, "</blockquote>"),
    ];
    let hl = Highlighter::new();
    let html = render_events(&events, &hl);
    assert!(html.starts_with("<input type=\"checkbox\" checked disabled"));
    assert!(html.contains("<sup><a href=\"#fn-n\" class=\"footnote-ref\">[n]</a></sup>"));
    assert!(html.contains("<div class=\"footnote\" id=\"fn-n\"><sup>n</sup> </div>"));
    assert!(html.contains("<del class=\"line-through text-gray-500\"></del>"));
    assert!(html.ends_with("dark:text-gray-400\"></blockquote>"));
}

#[test]
fn fenced_code_is_highlighted_with_label() {
    let events = vec![
        ev(EventKind::CodeBlockStart("python".to_string()), "<pre>"),
        ev(EventKind::Text("print(1)\n".to_string()), "print(1)\n"),
        ev(EventKind::CodeBlockEnd, "</pre>"),
    ];
    let hl = Highlighter::new();
    let html = render_events(&events, &hl);
    assert!(html.contains("<span class=\"code-lang font-mono\">python</span>"));
    assert!(html.contains("print"));
    let direct = hl.highlight_code("print(1)\n", "");
    assert!(direct.contains("<span class=\"code-lang font-mono\">text</span>"));
}

#[test]
fn failed_highlight_falls_back_to_escaped_block() {
    let html = render_code_block("python", "print(1)", None);
    assert!(html.starts_with("<pre"));
    assert!(html.ends_with("<code class=\"language-python\">print(1)</code></pre>"));
    let escaped = render_code_block("python", "if a < b && c > d:", None);
    assert!(escaped.contains("if a &lt; b &amp;&amp; c &gt; d:"));
    let shell = render_code_block("", "x", Some("<pre>x</pre>".to_string()));
    assert!(shell.contains("font-mono\">text</span>"));
    assert!(shell.contains("<div class=\"code-content overflow-x-auto\"><pre>x</pre></div>"));
}

#[test]
fn invalid_date_falls_back_to_modification_time() {
    let mtime = 1_700_000_000;
    assert_eq!(resolve_timestamp("2024-13-40", Some(mtime), 5), mtime);
    assert_eq!(resolve_timestamp("2024-13-40", None, 5), 5);
    assert_eq!(resolve_timestamp("2024-01-02", Some(mtime), 5), 1_704_153_600);
    let bad = post_dates("2024-13-40", Some(mtime), 5);
    let direct = post_dates("", Some(mtime), 5);
    assert_eq!(bad.timestamp, mtime);
    assert_eq!(bad.display, direct.display);
    assert_eq!(bad.iso, direct.iso);
}



#[test]
fn collection_is_newest_first() {
    let posts = vec![post("Old", "2024-01-01T00:00:00+0000", &[], ""), post("New", "2024-01-02T00:00:00+0000", &[], "")];
    let sorted = sort_posts(posts);
    assert_eq!(sorted[0].title, "New");
    assert_eq!(sorted[1].title, "Old");
    let posts = vec![post("B", "2024-01-02T00:00:00+0000", &[], ""), post("A", "2024-01-01T00:00:00+0000", &[], "")];
    let sorted = sort_posts(posts);
    assert_eq!(sorted[0].title, "B");
}

#[test]
fn equal_dates_keep_their_order() {
    let posts = vec![
        post("First", "2024-05-05T00:00:00+0000", &[], ""),
        post("Second", "2024-05-05T00:00:00+0000", &[], ""),
        post("Newer", "2024-06-01T00:00:00+0000", &[], ""),
    ];
    let sorted = sort_posts(posts);
    let titles: Vec<&str> = sorted.iter().map(|p| p.title.as_str()).collect();
    assert_eq!(titles, vec!["Newer", "First", "Second"]);
}

#[test]
fn text_order_is_lexicographic() {
    assert!(text_less("2024-01-01", "2024-01-02"));
    assert!(!text_less("2024-01-02", "2024-01-01"));
    assert!(text_less("2024", "2024-01"));
    assert!(!text_less("a", "a"));
}

#[test]
fn summary_falls_back_to_body_start() {
    let body: String = std::iter::repeat("abcdefghij").take(20).collect();
    let s = make_summary("", &body);
    assert_eq!(s.chars().count(), 163);
    assert_eq!(s, format!("{}...", &body[..160]));
    assert_eq!(make_summary("", "short"), "short...");
    assert_eq!(make_summary("Given", &body), "Given");
    let wide: String = std::iter::repeat('é').take(200).collect();
    let w = make_summary("", &wide);
    assert_eq!(w.chars().count(), 163);
}

#[test]
fn post_defaults_come_from_site_and_tags() {
    let doc = "---\ntitle: My First Post!\ntags: [a, b, c, d, e, f]\n---\nSome body text here.";
    let meta = parse_metadata(doc).unwrap();
    let body = document_body(doc);
    let site = SiteConfig::with_url("https://blog.example".to_string());
    let dates = post_dates("", Some(0), 0);
    let p = assemble_post(meta, "<p>x</p>".to_string(), &body, "first.md".to_string(), dates, &site);
    assert_eq!(p.slug, "my-first-post");
    assert_eq!(p.author, "aryansrao");
    assert_eq!(p.image, "https://blog.example/og-default.png");
    assert_eq!(p.image_alt, "My First Post!");
    assert_eq!(p.keywords, "a, b, c, d, e");
    assert_eq!(p.canonical, "https://blog.example/blog/my-first-post");
    assert_eq!(p.summary, "\nSome body text here....");
    assert_eq!(p.word_count, 4);
    assert_eq!(p.reading_time, 1);
    assert_eq!(p.filename, "first.md");
}

#[test]
fn build_skips_documents_without_front_matter() {
    let site = SiteConfig::with_url("http://localhost:8080".to_string());
    let hl = Highlighter::new();
    let docs = vec![
        SourceDoc {
            text: "---\ntitle: Older\ndate: 2024-01-01\n---\nx".to_string(),
            filename: "older.md".to_string(),
            mtime: None,
            events: vec![ev(EventKind::Text("x".to_string()), "x")],
        },
        SourceDoc { text: "plain".to_string(), filename: "plain.md".to_string(), mtime: None, events: vec![] },
        SourceDoc {
            text: "---\ntitle: Newer\ndate: 2024-03-01\n---\ny".to_string(),
            filename: "newer.md".to_string(),
            mtime: None,
            events: vec![],
        },
    ];
    let posts = build_posts(&docs, &site, &hl, 0);
    assert_eq!(posts.len(), 2);
    assert_eq!(posts[0].title, "Newer");
    assert_eq!(posts[1].title, "Older");
    assert_eq!(posts[1].content, "x");
}

#[test]
fn strip_tags_drops_markup() {
    assert_eq!(strip_html_tags("<p>Hi <b>there</b></p>"), "Hi there");
    assert_eq!(strip_html_tags("a > b"), "a  b");
}

#[test]
fn search_matches_any_field_ignoring_case() {
    let posts = vec![
        post("Rust Tips", "2024-01-02T00:00:00+0000", &["rust"], "<p>Borrow checker</p>"),
        post("Cooking", "2024-01-01T00:00:00+0000", &["food"], "<p>Pasta</p>"),
    ];
    let r = search_posts(&posts, "  BORROW ");
    assert_eq!(r.len(), 1);
    assert_eq!(r[0].title, "Rust Tips");
    assert_eq!(search_posts(&posts, "food").len(), 1);
    assert_eq!(search_posts(&posts, "   ").len(), 0);
    assert_eq!(search_posts(&posts, "p>").len(), 0);
}

#[test]
fn tag_filter_ignores_case() {
    let posts = vec![
        post("A", "", &["Rust"], ""),
        post("B", "", &["go"], ""),
        post("C", "", &["web", "RUST"], ""),
    ];
    let kept = posts_with_tag(posts, "rust");
    let titles: Vec<&str> = kept.iter().map(|p| p.title.as_str()).collect();
    assert_eq!(titles, vec!["A", "C"]);
}

#[test]
fn readme_becomes_a_document() {
    let repo = GitHubRepo {
        name: "tool".to_string(),
        full_name: "me/tool".to_string(),
        description: Some("A \"fast\" tool".to_string()),
        html_url: "https://github.com/me/tool".to_string(),
        pushed_at: Some("2024-02-03T10:00:00Z".to_string()),
        updated_at: None,
        language: Some("Rust".to_string()),
        stargazers_count: 3,
        fork: false,
        archived: false,
        topics: Some(vec!["cli".to_string(), "a".to_string(), "b".to_string(), "c".to_string()]),
        homepage: Some("  https://tool.dev ".to_string()),
    };
    let doc = create_post_from_readme(&repo, "# Tool", "me");
    assert_eq!(
        doc,
        "---\ntitle: \"tool\"\ndate: \"2024-02-03\"\ntags: [\"github\", \"project\", \"rust\", \"cli\", \"a\", \"b\"]\nsummary: \"A 'fast' tool\"\nauthor: \"me\"\nkeywords: \"tool, github, open source\"\ngithub_repo: \"me/tool\"\nwebsite: \"https://tool.dev\"\n---\n\n# Tool\n"
    );
    let meta = parse_metadata(&doc).unwrap();
    assert_eq!(meta.tags, vec!["github", "project", "rust", "cli", "a", "b"]);
    assert_eq!(meta.github_repo.as_deref(), Some("me/tool"));
}

#[test]
fn readme_without_dates_or_description() {
    let repo = GitHubRepo {
        name: "x".to_string(),
        full_name: "me/x".to_string(),
        description: None,
        html_url: String::new(),
        pushed_at: None,
        updated_at: None,
        language: None,
        stargazers_count: 0,
        fork: false,
        archived: false,
        topics: None,
        homepage: Some("   ".to_string()),
    };
    let doc = create_post_from_readme(&repo, "", "me");
    assert!(doc.contains("date: \"2025-01-01\""));
    assert!(doc.contains("tags: [\"github\", \"project\"]"));
    assert!(doc.contains("summary: \"A GitHub project\""));
    assert!(!doc.contains("website"));
}

#[test]
fn dates_are_written_in_both_forms() {
    let d = post_dates("2024-01-02", None, 0);
    assert_eq!(d.timestamp, 1_704_153_600);
    assert_eq!(d.iso.len(), 24);
    assert_eq!(&d.iso[10..11], "T");
    assert!(d.display.ends_with(", 2024") || d.display.ends_with(", 2023"));
}

#[test]
fn editor_document_round_trips() {
    let doc = blog_engine::authoring::post_document(
        "Hello",
        "2024-01-02",
        "rust,  web , axum blog",
        "Short",
        &Some("me/repo".to_string()),
        &None,
        "Body text",
    );
    assert_eq!(
        doc,
        "---\ntitle: \"Hello\"\ndate: \"2024-01-02\"\ntags: [\"rust\", \"web\", \"axum blog\"]\nsummary: \"Short\"\ngithub_repo: \"me/repo\"\n---\n\nBody text"
    );
    let meta = parse_metadata(&doc).unwrap();
    assert_eq!(meta.tags, vec!["rust", "web", "axum blog"]);
    assert_eq!(meta.github_repo.as_deref(), Some("me/repo"));
    assert_eq!(document_body(&doc), "\n\nBody text");
    let empty = blog_engine::authoring::post_document("T", "d", "", "", &None, &Some("w".to_string()), "");
    assert_eq!(empty, "---\ntitle: \"T\"\ndate: \"d\"\ntags: [\"\"]\nsummary: \"\"\nwebsite: \"w\"\n---\n\n");
}

fn repo(name: &str, fork: bool, archived: bool) -> GitHubRepo {
    GitHubRepo {
        name: name.to_string(),
        full_name: format!("me/{}", name),
        description: None,
        html_url: String::new(),
        pushed_at: None,
        updated_at: None,
        language: None,
        stargazers_count: 0,
        fork,
        archived,
        topics: None,
        homepage: None,
    }
}

#[test]
fn forks_and_archived_repositories_are_skipped() {
    let repos = vec![repo("a", false, false), repo("b", true, false), repo("c", false, true), repo("d", false, false)];
    let kept = blog_engine::readme::publishable_repos(repos);
    let names: Vec<&str> = kept.iter().map(|r| r.name.as_str()).collect();
    assert_eq!(names, vec!["a", "d"]);
}

#[test]
fn repository_post_file_name() {
    assert_eq!(blog_engine::readme::github_post_filename("My Tool"), "github-my-tool.md");
    assert_eq!(blog_engine::readme::github_post_filename("x"), "github-x.md");
}

#[test]
fn dates_follow_the_offset_they_carry() {
    let d = post_dates("2024-01-02", None, 0);
    assert!(d.offset > -86_400 && d.offset < 86_400);
    if d.offset == 0 {
        assert_eq!(d.iso, "2024-01-02T00:00:00+0000");
        assert_eq!(d.display, "January 02, 2024");
    }
    let m = post_dates("2024-13-40", Some(1_704_153_600), 5);
    assert_eq!(m.timestamp, 1_704_153_600);
    assert_eq!(m.iso, post_dates("2024-01-02", None, 0).iso);
    let n = post_dates("2024-13-40", None, 1_704_153_600);
    assert_eq!(n.display, m.display);
}
