//! Code blocks: syntax highlighting through syntect, with an escaped fallback.

use vstd::prelude::*;
use crate::text::push_str;
use syntect::highlighting::{Theme, ThemeSet};
use syntect::html::highlighted_html_for_string;
use syntect::parsing::SyntaxSet;

verus! {

#[verifier::external_type_specification]
#[verifier::external_body]
pub struct ExSyntaxSet(SyntaxSet);

#[verifier::external_type_specification]
#[verifier::external_body]
pub struct ExTheme(Theme);

/// The theme that highlighted code is drawn in.
pub const DEFAULT_THEME: &'static str = "base16-ocean.dark";

/// The grammar used when the language hint names none.
pub const PLAIN_TEXT_SYNTAX: &'static str = "Plain Text";

/// Opening of the highlighted shell, up to the language label.
pub const SHELL_OPEN: &'static str = "<div class=\"code-block relative my-4 rounded-lg overflow-hidden\">\n                    <div class=\"code-header flex items-center justify-between px-4 py-2 bg-gray-800 text-gray-400 text-xs\">\n                        <span class=\"code-lang font-mono\">";

/// Between the language label and the highlighted markup; holds the copy button.
pub const SHELL_MIDDLE: &'static str = "</span>\n                        <button class=\"copy-btn hover:text-white transition-colors\" onclick=\"copyCode(this)\">\n                            <svg class=\"w-4 h-4\" fill=\"none\" stroke=\"currentColor\" viewBox=\"0 0 24 24\">\n                                <path stroke-linecap=\"round\" stroke-linejoin=\"round\" stroke-width=\"2\" d=\"M8 16H6a2 2 0 01-2-2V6a2 2 0 012-2h8a2 2 0 012 2v2m-6 12h8a2 2 0 002-2v-8a2 2 0 00-2-2h-8a2 2 0 00-2 2v8a2 2 0 002 2z\"></path>\n                            </svg>\n                        </button>\n                    </div>\n                    <div class=\"code-content overflow-x-auto\">";

/// Closing of the highlighted shell.
pub const SHELL_CLOSE: &'static str = "</div>\n                </div>";

/// Opening of the fallback block, up to the language class.
pub const FALLBACK_OPEN: &'static str = "<pre class=\"bg-gray-900 text-gray-100 p-4 rounded-lg overflow-x-auto my-4\"><code class=\"language-";

/// Between the language class and the escaped code.
pub const FALLBACK_MIDDLE: &'static str = "\">";

/// Closing of the fallback block.
pub const FALLBACK_CLOSE: &'static str = "</code></pre>";

/// The label shown over a highlighted block.
pub const PLAIN_LABEL: &'static str = "text";

/// One character of text escaped for HTML: `&`, `<` and `>` become entities.
pub open spec fn escape_char(c: char) -> Seq<char> {
    if c == '&' {
        "&amp;"@
    } else if c == '<' {
        "&lt;"@
    } else if c == '>' {
        "&gt;"@
    } else {
        seq![c]
    }
}

/// Text escaped for HTML, character by character.
pub open spec fn html_text_escape(s: Seq<char>) -> Seq<char>
    decreases s.len(),
{
    if s.len() == 0 {
        seq![]
    } else {
        html_text_escape(s.drop_last()) + escape_char(s.last())
    }
}

/// Relies on `html_escape::encode_text`: replaces `&`, `<` and `>` by their entities.
#[verifier::external_body]
pub fn encode_text(s: &str) -> (r: String)
    ensures
        r@ == html_text_escape(s@),
{
    html_escape::encode_text(s).into_owned()
}

/// The label over a highlighted block: the language hint, or `text` when there is none.
pub open spec fn code_label(lang: Seq<char>) -> Seq<char> {
    if lang.len() == 0 {
        PLAIN_LABEL@
    } else {
        lang
    }
}

/// A code block as HTML: the highlighted markup in its shell, or, where
/// highlighting failed, the escaped code in a `<pre><code>` block classed by language.
pub open spec fn code_block_html(
    lang: Seq<char>,
    code: Seq<char>,
    highlighted: Option<Seq<char>>,
) -> Seq<char> {
    match highlighted {
        Some(h) => SHELL_OPEN@ + code_label(lang) + SHELL_MIDDLE@ + h + SHELL_CLOSE@,
        None => FALLBACK_OPEN@ + lang + FALLBACK_MIDDLE@ + html_text_escape(code) + FALLBACK_CLOSE@,
    }
}

pub open spec fn opt_view(o: Option<String>) -> Option<Seq<char>> {
    match o {
        Some(s) => Some(s@),
        None => None,
    }
}

/// Wraps the highlighter's outcome for a block: its markup in the shell, or the
/// escaped fallback when there is none.
pub fn render_code_block(lang: &str, code: &str, highlighted: Option<String>) -> (r: String)
    ensures
        r@ == code_block_html(lang@, code@, opt_view(highlighted)),
{
    let mut r = String::new();
    match highlighted {
        Some(h) => {
            push_str(&mut r, SHELL_OPEN);
            if lang.is_empty() {
                push_str(&mut r, PLAIN_LABEL);
            } else {
                push_str(&mut r, lang);
            }
            push_str(&mut r, SHELL_MIDDLE);
            push_str(&mut r, h.as_str());
            push_str(&mut r, SHELL_CLOSE);
        },
        None => {
            push_str(&mut r, FALLBACK_OPEN);
            push_str(&mut r, lang);
            push_str(&mut r, FALLBACK_MIDDLE);
            let escaped = encode_text(code);
            push_str(&mut r, escaped.as_str());
            push_str(&mut r, FALLBACK_CLOSE);
        },
    }
    r
}

/// Relies on `SyntaxSet::load_defaults_newlines`: the bundled grammars.
#[verifier::external_body]
fn default_syntaxes() -> SyntaxSet {
    SyntaxSet::load_defaults_newlines()
}

/// Relies on `ThemeSet::load_defaults`, whose documented keys include `base16-ocean.dark`.
#[verifier::external_body]
fn default_theme(name: &str) -> (r: Option<Theme>)
    ensures
        name@ == DEFAULT_THEME@ ==> r is Some,
{
    ThemeSet::load_defaults().themes.remove(name)
}

/// The grammar and theme registry, built once and only read afterwards. It
/// always holds the bundled grammars and the `base16-ocean.dark` theme.
pub struct Highlighter {
    syntaxes: SyntaxSet,
    theme: Theme,
}

/// The name of the bundled grammar whose file extension or name matches a token,
/// as `SyntaxSet::find_syntax_by_token` finds it.
pub uninterp spec fn grammar_by_token(token: Seq<char>) -> Option<Seq<char>>;

/// The name of the bundled grammar with a matching file extension, as
/// `SyntaxSet::find_syntax_by_extension` finds it.
pub uninterp spec fn grammar_by_extension(ext: Seq<char>) -> Option<Seq<char>>;

/// What syntect makes of some code in the bundled grammar of that name and the
/// default theme: its themed markup, or `None` where there is no such grammar
/// or syntect reports an error.
pub uninterp spec fn highlighted_of(code: Seq<char>, grammar: Seq<char>) -> Option<Seq<char>>;

/// Relies on `SyntaxSet::find_syntax_by_token` over the bundled grammars: the
/// name of the grammar found.
#[verifier::external_body]
fn find_syntax_by_token(hl: &Highlighter, token: &str) -> (r: Option<String>)
    ensures
        opt_view(r) == grammar_by_token(token@),
{
    hl.syntaxes.find_syntax_by_token(token).map(|s| s.name.clone())
}

/// Relies on `SyntaxSet::find_syntax_by_extension` over the bundled grammars:
/// the name of the grammar found.
#[verifier::external_body]
fn find_syntax_by_extension(hl: &Highlighter, ext: &str) -> (r: Option<String>)
    ensures
        opt_view(r) == grammar_by_extension(ext@),
{
    hl.syntaxes.find_syntax_by_extension(ext).map(|s| s.name.clone())
}

/// Relies on `SyntaxSet::find_syntax_by_name`, which takes the grammar back from
/// its name, and on `syntect::html::highlighted_html_for_string` with the
/// default theme: themed markup, or `None` where syntect reports an error.
#[verifier::external_body]
fn highlighted_html(hl: &Highlighter, code: &str, grammar: &str) -> (r: Option<String>)
    ensures
        opt_view(r) == highlighted_of(code@, grammar@),
{
    let syntax = hl.syntaxes.find_syntax_by_name(grammar)?;
    highlighted_html_for_string(code, &hl.syntaxes, syntax, &hl.theme).ok()
}

/// The grammar for a language hint: one whose file extension or name matches
/// the hint, else one whose extension matches it, else plain text.
pub open spec fn grammar_for(lang: Seq<char>) -> Seq<char> {
    match grammar_by_token(lang) {
        Some(g) => g,
        None => match grammar_by_extension(lang) {
            Some(g) => g,
            None => PLAIN_TEXT_SYNTAX@,
        },
    }
}

/// A code block as rendered: highlighted in the grammar its hint resolves to,
/// or the escaped fallback where syntect fails.
pub open spec fn highlighted_block(lang: Seq<char>, code: Seq<char>) -> Seq<char> {
    code_block_html(lang, code, highlighted_of(code, grammar_for(lang)))
}

impl Highlighter {
    /// Loads the bundled grammars and the default theme.
    pub fn new() -> (r: Highlighter) {
        let syntaxes = default_syntaxes();
        let theme = default_theme(DEFAULT_THEME);
        Highlighter { syntaxes, theme: theme.unwrap() }
    }

    /// The name of the grammar for a language hint (see `grammar_for`).
    fn resolve_grammar(&self, lang: &str) -> (r: String)
        ensures
            r@ == grammar_for(lang@),
    {
        match find_syntax_by_token(self, lang) {
            Some(g) => g,
            None => match find_syntax_by_extension(self, lang) {
                Some(g) => g,
                None => owned_str(PLAIN_TEXT_SYNTAX),
            },
        }
    }

    /// Renders a code block: highlighted in its shell where syntect succeeds,
    /// otherwise the escaped fallback.
    pub fn highlight_code(&self, code: &str, lang: &str) -> (r: String)
        ensures
            r@ == highlighted_block(lang@, code@),
    {
        let grammar = self.resolve_grammar(lang);
        let highlighted = highlighted_html(self, code, grammar.as_str());
        render_code_block(lang, code, highlighted)
    }
}

fn owned_str(s: &str) -> (r: String)
    ensures
        r@ == s@,
{
    let mut r = String::new();
    push_str(&mut r, s);
    r
}

} // verus!
