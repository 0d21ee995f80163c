//! The Markdown transducer: turns the parser's event sequence into HTML,
//! buffering headings (for their anchors) and code blocks (for highlighting).

use vstd::prelude::*;
use crate::highlight::{highlighted_block, Highlighter};
use crate::slug::{slug_of, slugify};
use crate::text::{push_char, push_str};

verus! {

/// Level of a heading, `#` to `######`.
#[derive(Clone, Copy, Debug, PartialEq, Eq, Structural)]
pub enum HeadingLevel {
    H1,
    H2,
    H3,
    H4,
    H5,
    H6,
}

/// What the transducer distinguishes of one parser event.
pub enum EventKind {
    HeadingStart(HeadingLevel),
    HeadingEnd,
    /// Start of a code block with its language; empty for an indented block.
    CodeBlockStart(String),
    CodeBlockEnd,
    Text(String),
    /// Inline code.
    Code(String),
    SoftBreak,
    HardBreak,
    TableStart,
    TableEnd,
    TableHeadStart,
    TableHeadEnd,
    TableRowStart,
    TableRowEnd,
    TableCellStart,
    TableCellEnd,
    /// A task-list marker and whether it is checked.
    TaskListMarker(bool),
    FootnoteDefinitionStart(String),
    FootnoteDefinitionEnd,
    FootnoteReference(String),
    StrikethroughStart,
    StrikethroughEnd,
    BlockQuoteStart,
    BlockQuoteEnd,
    /// Paragraphs, lists, links, emphasis, images, rules, raw HTML and the rest.
    Other,
}

/// One parser event: its kind, and the parser's own HTML rendering of the event alone.
pub struct MdEvent {
    pub kind: EventKind,
    pub html: String,
}

pub const TABLE_OPEN: &'static str = "<div class=\"table-container\"><table>";
pub const TABLE_CLOSE: &'static str = "</table></div>";
pub const TABLE_HEAD_OPEN: &'static str = "<thead><tr>";
pub const TABLE_HEAD_CLOSE: &'static str = "</tr></thead><tbody>";
pub const TABLE_ROW_OPEN: &'static str = "<tr>";
pub const TABLE_ROW_CLOSE: &'static str = "</tr>";
pub const HEAD_CELL_OPEN: &'static str = "<th>";
pub const HEAD_CELL_CLOSE: &'static str = "</th>";
pub const BODY_CELL_OPEN: &'static str = "<td>";
pub const BODY_CELL_CLOSE: &'static str = "</td>";
pub const TASK_CHECKED: &'static str = "<input type=\"checkbox\" checked disabled class=\"mr-2 h-4 w-4 rounded border-gray-300 text-indigo-600 bg-indigo-600 accent-indigo-600\"> ";
pub const TASK_UNCHECKED: &'static str = "<input type=\"checkbox\" disabled class=\"mr-2 h-4 w-4 rounded border-gray-300 bg-gray-100 dark:bg-gray-700\"> ";
pub const FOOTNOTE_OPEN: &'static str = "<div class=\"footnote\" id=\"fn-";
pub const FOOTNOTE_LABEL: &'static str = "\"><sup>";
pub const FOOTNOTE_LABEL_CLOSE: &'static str = "</sup> ";
pub const FOOTNOTE_CLOSE: &'static str = "</div>";
pub const FOOTNOTE_REF_OPEN: &'static str = "<sup><a href=\"#fn-";
pub const FOOTNOTE_REF_LABEL: &'static str = "\" class=\"footnote-ref\">[";
pub const FOOTNOTE_REF_CLOSE: &'static str = "]</a></sup>";
pub const STRIKE_OPEN: &'static str = "<del class=\"line-through text-gray-500\">";
pub const STRIKE_CLOSE: &'static str = "</del>";
pub const QUOTE_OPEN: &'static str = "<blockquote class=\"border-l-4 border-primary-500 pl-4 my-4 italic text-gray-600 dark:text-gray-400\">";
pub const QUOTE_CLOSE: &'static str = "</blockquote>";
pub const HEADING_OPEN: &'static str = "<h";
pub const HEADING_ID: &'static str = " id=\"";
pub const HEADING_ID_CLOSE: &'static str = "\">";
pub const HEADING_CLOSE: &'static str = "</h";
pub const TAG_END: &'static str = ">";

pub open spec fn level_digit(l: HeadingLevel) -> char {
    match l {
        HeadingLevel::H1 => '1',
        HeadingLevel::H2 => '2',
        HeadingLevel::H3 => '3',
        HeadingLevel::H4 => '4',
        HeadingLevel::H5 => '5',
        HeadingLevel::H6 => '6',
    }
}

pub fn level_char(l: HeadingLevel) -> (c: char)
    ensures
        c == level_digit(l),
{
    match l {
        HeadingLevel::H1 => '1',
        HeadingLevel::H2 => '2',
        HeadingLevel::H3 => '3',
        HeadingLevel::H4 => '4',
        HeadingLevel::H5 => '5',
        HeadingLevel::H6 => '6',
    }
}

/// `<hN id="slug">inner</hN>`, the anchor being the slug of the heading's plain text.
pub open spec fn heading_html(l: HeadingLevel, text: Seq<char>, inner: Seq<char>) -> Seq<char> {
    HEADING_OPEN@ + seq![level_digit(l)] + HEADING_ID@ + slug_of(text) + HEADING_ID_CLOSE@ + inner
        + HEADING_CLOSE@ + seq![level_digit(l)] + TAG_END@
}

pub open spec fn footnote_open_html(name: Seq<char>) -> Seq<char> {
    FOOTNOTE_OPEN@ + name + FOOTNOTE_LABEL@ + name + FOOTNOTE_LABEL_CLOSE@
}

pub open spec fn footnote_ref_html(name: Seq<char>) -> Seq<char> {
    FOOTNOTE_REF_OPEN@ + name + FOOTNOTE_REF_LABEL@ + name + FOOTNOTE_REF_CLOSE@
}

/// The transducer's state between two events.
pub struct RenderState {
    pub out: Seq<char>,
    /// The level of the heading being buffered, if any.
    pub heading: Option<HeadingLevel>,
    /// Plain text of the buffered heading, which its anchor is made from.
    pub heading_text: Seq<char>,
    /// Default rendering of the buffered heading's events.
    pub heading_inner: Seq<char>,
    pub in_code_block: bool,
    pub code_lang: Seq<char>,
    pub code: Seq<char>,
    pub in_table_head: bool,
}

pub open spec fn initial_state() -> RenderState {
    RenderState {
        out: seq![],
        heading: None,
        heading_text: seq![],
        heading_inner: seq![],
        in_code_block: false,
        code_lang: seq![],
        code: seq![],
        in_table_head: false,
    }
}

/// Appends to the output.
pub open spec fn emit(st: RenderState, s: Seq<char>) -> RenderState {
    RenderState { out: st.out + s, ..st }
}

/// The state after one event inside a heading.
pub open spec fn step_in_heading(st: RenderState, level: HeadingLevel, e: MdEvent) -> RenderState {
    match e.kind {
        EventKind::HeadingEnd => RenderState {
            out: st.out + heading_html(level, st.heading_text, st.heading_inner),
            heading: None,
            heading_text: seq![],
            heading_inner: seq![],
            ..st
        },
        EventKind::Text(t) => RenderState {
            heading_text: st.heading_text + t@,
            heading_inner: st.heading_inner + e.html@,
            ..st
        },
        EventKind::Code(t) => RenderState {
            heading_text: st.heading_text + t@,
            heading_inner: st.heading_inner + e.html@,
            ..st
        },
        EventKind::SoftBreak => RenderState {
            heading_text: st.heading_text.push(' '),
            heading_inner: st.heading_inner + e.html@,
            ..st
        },
        EventKind::HardBreak => RenderState {
            heading_text: st.heading_text.push(' '),
            heading_inner: st.heading_inner + e.html@,
            ..st
        },
        _ => RenderState { heading_inner: st.heading_inner + e.html@, ..st },
    }
}

/// The state after one event outside a heading.
pub open spec fn step_outside(st: RenderState, e: MdEvent) -> RenderState {
    match e.kind {
        EventKind::HeadingStart(l) => RenderState {
            heading: Some(l),
            heading_text: seq![],
            heading_inner: seq![],
            ..st
        },
        EventKind::CodeBlockStart(lang) => RenderState {
            in_code_block: true,
            code_lang: lang@,
            code: seq![],
            ..st
        },
        EventKind::CodeBlockEnd => RenderState {
            out: st.out + highlighted_block(st.code_lang, st.code),
            in_code_block: false,
            ..st
        },
        EventKind::Text(t) => if st.in_code_block {
            RenderState { code: st.code + t@, ..st }
        } else {
            emit(st, e.html@)
        },
        EventKind::TableStart => emit(st, TABLE_OPEN@),
        EventKind::TableEnd => emit(st, TABLE_CLOSE@),
        EventKind::TableHeadStart => RenderState {
            out: st.out + TABLE_HEAD_OPEN@,
            in_table_head: true,
            ..st
        },
        EventKind::TableHeadEnd => RenderState {
            out: st.out + TABLE_HEAD_CLOSE@,
            in_table_head: false,
            ..st
        },
        EventKind::TableRowStart => emit(st, TABLE_ROW_OPEN@),
        EventKind::TableRowEnd => emit(st, TABLE_ROW_CLOSE@),
        EventKind::TableCellStart => emit(
            st,
            if st.in_table_head {
                HEAD_CELL_OPEN@
            } else {
                BODY_CELL_OPEN@
            },
        ),
        EventKind::TableCellEnd => emit(
            st,
            if st.in_table_head {
                HEAD_CELL_CLOSE@
            } else {
                BODY_CELL_CLOSE@
            },
        ),
        EventKind::TaskListMarker(checked) => emit(
            st,
            if checked {
                TASK_CHECKED@
            } else {
                TASK_UNCHECKED@
            },
        ),
        EventKind::FootnoteDefinitionStart(name) => emit(st, footnote_open_html(name@)),
        EventKind::FootnoteDefinitionEnd => emit(st, FOOTNOTE_CLOSE@),
        EventKind::FootnoteReference(name) => emit(st, footnote_ref_html(name@)),
        EventKind::StrikethroughStart => emit(st, STRIKE_OPEN@),
        EventKind::StrikethroughEnd => emit(st, STRIKE_CLOSE@),
        EventKind::BlockQuoteStart => emit(st, QUOTE_OPEN@),
        EventKind::BlockQuoteEnd => emit(st, QUOTE_CLOSE@),
        _ => emit(st, e.html@),
    }
}

pub open spec fn step(st: RenderState, e: MdEvent) -> RenderState {
    match st.heading {
        Some(level) => step_in_heading(st, level, e),
        None => step_outside(st, e),
    }
}

/// The state after the whole sequence of events.
pub open spec fn run(events: Seq<MdEvent>) -> RenderState
    decreases events.len(),
{
    if events.len() == 0 {
        initial_state()
    } else {
        step(run(events.drop_last()), events.last())
    }
}

spec fn state_matches(
    st: RenderState,
    out: String,
    heading: Option<HeadingLevel>,
    heading_text: String,
    heading_inner: String,
    in_code_block: bool,
    code_lang: String,
    code: String,
    in_table_head: bool,
) -> bool {
    &&& st.out == out@
    &&& st.heading == heading
    &&& st.heading_text == heading_text@
    &&& st.heading_inner == heading_inner@
    &&& st.in_code_block == in_code_block
    &&& st.code_lang == code_lang@
    &&& st.code == code@
    &&& st.in_table_head == in_table_head
}

/// Renders the parser's events as HTML: headings get an anchor made from their
/// plain text, code blocks go through the highlighter, tables, task lists,
/// footnotes, strikethrough and block quotes get their own markup, and every
/// other event keeps the parser's rendering.
pub fn render_events(events: &Vec<MdEvent>, hl: &Highlighter) -> (r: String)
    ensures
        r@ == run(events@).out,
{
    let mut out = String::new();
    let mut heading: Option<HeadingLevel> = None;
    let mut heading_text = String::new();
    let mut heading_inner = String::new();
    let mut in_code_block = false;
    let mut code_lang = String::new();
    let mut code = String::new();
    let mut in_table_head = false;
    let mut i: usize = 0;
    while i < events.len()
        invariant
            i <= events.len(),
            state_matches(
                run(events@.take(i as int)),
                out,
                heading,
                heading_text,
                heading_inner,
                in_code_block,
                code_lang,
                code,
                in_table_head,
            ),
        decreases events.len() - i,
    {
        let e = &events[i];
        let ghost st = run(events@.take(i as int));
        assert(events@.take(i + 1).drop_last() =~= events@.take(i as int));
        assert(events@.take(i + 1).last() == *e);
        match heading {
            Some(level) => {
                match &e.kind {
                    EventKind::HeadingEnd => {
                        let slug = slugify(heading_text.as_str());
                        let digit = level_char(level);
                        push_str(&mut out, HEADING_OPEN);
                        push_char(&mut out, digit);
                        push_str(&mut out, HEADING_ID);
                        push_str(&mut out, slug.as_str());
                        push_str(&mut out, HEADING_ID_CLOSE);
                        push_str(&mut out, heading_inner.as_str());
                        push_str(&mut out, HEADING_CLOSE);
                        push_char(&mut out, digit);
                        push_str(&mut out, TAG_END);
                        assert(out@ =~= st.out + heading_html(level, st.heading_text, st.heading_inner));
                        heading = None;
                        heading_text = String::new();
                        heading_inner = String::new();
                    },
                    EventKind::Text(t) => {
                        push_str(&mut heading_text, t.as_str());
                        push_str(&mut heading_inner, e.html.as_str());
                    },
                    EventKind::Code(t) => {
                        push_str(&mut heading_text, t.as_str());
                        push_str(&mut heading_inner, e.html.as_str());
                    },
                    EventKind::SoftBreak => {
                        push_char(&mut heading_text, ' ');
                        push_str(&mut heading_inner, e.html.as_str());
                    },
                    EventKind::HardBreak => {
                        push_char(&mut heading_text, ' ');
                        push_str(&mut heading_inner, e.html.as_str());
                    },
                    _ => {
                        push_str(&mut heading_inner, e.html.as_str());
                    },
                }
            },
            None => {
                match &e.kind {
                    EventKind::HeadingStart(l) => {
                        heading = Some(*l);
                        heading_text = String::new();
                        heading_inner = String::new();
                    },
                    EventKind::CodeBlockStart(lang) => {
                        in_code_block = true;
                        code_lang = lang.clone();
                        code = String::new();
                    },
                    EventKind::CodeBlockEnd => {
                        let h = hl.highlight_code(code.as_str(), code_lang.as_str());
                        push_str(&mut out, h.as_str());
                        in_code_block = false;
                    },
                    EventKind::Text(t) => {
                        if in_code_block {
                            push_str(&mut code, t.as_str());
                        } else {
                            push_str(&mut out, e.html.as_str());
                        }
                    },
                    EventKind::TableStart => push_str(&mut out, TABLE_OPEN),
                    EventKind::TableEnd => push_str(&mut out, TABLE_CLOSE),
                    EventKind::TableHeadStart => {
                        in_table_head = true;
                        push_str(&mut out, TABLE_HEAD_OPEN);
                    },
                    EventKind::TableHeadEnd => {
                        in_table_head = false;
                        push_str(&mut out, TABLE_HEAD_CLOSE);
                    },
                    EventKind::TableRowStart => push_str(&mut out, TABLE_ROW_OPEN),
                    EventKind::TableRowEnd => push_str(&mut out, TABLE_ROW_CLOSE),
                    EventKind::TableCellStart => {
                        if in_table_head {
                            push_str(&mut out, HEAD_CELL_OPEN);
                        } else {
                            push_str(&mut out, BODY_CELL_OPEN);
                        }
                    },
                    EventKind::TableCellEnd => {
                        if in_table_head {
                            push_str(&mut out, HEAD_CELL_CLOSE);
                        } else {
                            push_str(&mut out, BODY_CELL_CLOSE);
                        }
                    },
                    EventKind::TaskListMarker(checked) => {
                        if *checked {
                            push_str(&mut out, TASK_CHECKED);
                        } else {
                            push_str(&mut out, TASK_UNCHECKED);
                        }
                    },
                    EventKind::FootnoteDefinitionStart(name) => {
                        push_str(&mut out, FOOTNOTE_OPEN);
                        push_str(&mut out, name.as_str());
                        push_str(&mut out, FOOTNOTE_LABEL);
                        push_str(&mut out, name.as_str());
                        push_str(&mut out, FOOTNOTE_LABEL_CLOSE);
                        assert(out@ =~= st.out + footnote_open_html(name@));
                    },
                    EventKind::FootnoteDefinitionEnd => push_str(&mut out, FOOTNOTE_CLOSE),
                    EventKind::FootnoteReference(name) => {
                        push_str(&mut out, FOOTNOTE_REF_OPEN);
                        push_str(&mut out, name.as_str());
                        push_str(&mut out, FOOTNOTE_REF_LABEL);
                        push_str(&mut out, name.as_str());
                        push_str(&mut out, FOOTNOTE_REF_CLOSE);
                        assert(out@ =~= st.out + footnote_ref_html(name@));
                    },
                    EventKind::StrikethroughStart => push_str(&mut out, STRIKE_OPEN),
                    EventKind::StrikethroughEnd => push_str(&mut out, STRIKE_CLOSE),
                    EventKind::BlockQuoteStart => push_str(&mut out, QUOTE_OPEN),
                    EventKind::BlockQuoteEnd => push_str(&mut out, QUOTE_CLOSE),
                    _ => push_str(&mut out, e.html.as_str()),
                }
            },
        }
        i = i + 1;
    }
    assert(events@.take(events.len() as int) =~= events@);
    out
}

} // verus!
