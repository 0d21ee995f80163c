//! Slugs: URL- and anchor-safe identifiers derived from free text.

use vstd::prelude::*;
use crate::text::{all_ascii, ascii_lower_char, chars_of, is_ascii_char, char_is_alphanumeric, is_alphanumeric, lowercase, push_char, to_lowercase};

verus! {

/// The words of `s`: its maximal runs of alphanumeric characters, in order.
pub open spec fn words(s: Seq<char>) -> Seq<Seq<char>>
    decreases s.len(),
{
    if s.len() == 0 {
        seq![]
    } else {
        let w = words(s.drop_last());
        let c = s.last();
        if !is_alphanumeric(c) {
            w
        } else if s.len() >= 2 && is_alphanumeric(s[s.len() - 2]) {
            w.update(w.len() - 1, w.last().push(c))
        } else {
            w.push(seq![c])
        }
    }
}

/// The words joined by single dashes.
pub open spec fn join_dash(ws: Seq<Seq<char>>) -> Seq<char>
    decreases ws.len(),
{
    if ws.len() == 0 {
        seq![]
    } else if ws.len() == 1 {
        ws[0]
    } else {
        join_dash(ws.drop_last()) + seq!['-'] + ws.last()
    }
}

/// The slug of a text: lowercased, split into alphanumeric words, joined by `-`.
pub open spec fn slug_of(t: Seq<char>) -> Seq<char> {
    join_dash(words(lowercase(t)))
}

proof fn lemma_words_nonempty_when_in_word(s: Seq<char>)
    requires
        s.len() > 0,
        is_alphanumeric(s.last()),
    ensures
        words(s).len() > 0,
    decreases s.len(),
{
    if s.len() >= 2 && is_alphanumeric(s[s.len() - 2]) {
        lemma_words_nonempty_when_in_word(s.drop_last());
    }
}

proof fn lemma_join_extend_last(ws: Seq<Seq<char>>, c: char)
    requires
        ws.len() > 0,
    ensures
        join_dash(ws.update(ws.len() - 1, ws.last().push(c))) == join_dash(ws).push(c),
{
    let u = ws.update(ws.len() - 1, ws.last().push(c));
    if ws.len() > 1 {
        assert(u.drop_last() =~= ws.drop_last());
        assert(join_dash(u) =~= join_dash(ws).push(c));
    }
}

/// A character that lowercasing keeps as it is: ASCII, not an upper-case letter.
pub open spec fn is_lower_ascii(c: char) -> bool {
    is_ascii_char(c) && !(0x41 <= (c as u32) <= 0x5a)
}

pub open spec fn is_slug_word(w: Seq<char>) -> bool {
    &&& w.len() > 0
    &&& forall|j: int| 0 <= j < w.len() ==> is_alphanumeric(#[trigger] w[j])
}

proof fn lemma_words_are_slug_words(s: Seq<char>)
    ensures
        forall|k: int| 0 <= k < words(s).len() ==> is_slug_word(#[trigger] words(s)[k]),
    decreases s.len(),
{
    if s.len() > 0 {
        let p = s.drop_last();
        lemma_words_are_slug_words(p);
        let w = words(p);
        let c = s.last();
        if is_alphanumeric(c) && s.len() >= 2 && is_alphanumeric(s[s.len() - 2]) {
            lemma_words_nonempty_when_in_word(p);
            let u = w.update(w.len() - 1, w.last().push(c));
            assert forall|k: int| 0 <= k < u.len() implies is_slug_word(#[trigger] u[k]) by {
                if k == w.len() - 1 {
                    assert forall|j: int| 0 <= j < u[k].len() implies is_alphanumeric(#[trigger] u[k][j]) by {
                        if j < w.last().len() {
                            assert(u[k][j] == w[k][j]);
                        }
                    }
                }
            }
        }
    }
}

proof fn lemma_words_lower_ascii(s: Seq<char>)
    requires
        forall|i: int| 0 <= i < s.len() ==> is_lower_ascii(#[trigger] s[i]),
    ensures
        forall|k: int, j: int|
            0 <= k < words(s).len() && 0 <= j < words(s)[k].len() ==> is_lower_ascii(
                #[trigger] words(s)[k][j],
            ),
    decreases s.len(),
{
    if s.len() > 0 {
        let p = s.drop_last();
        lemma_words_lower_ascii(p);
        let w = words(p);
        let c = s.last();
        if is_alphanumeric(c) && s.len() >= 2 && is_alphanumeric(s[s.len() - 2]) {
            lemma_words_nonempty_when_in_word(p);
            let u = w.update(w.len() - 1, w.last().push(c));
            assert forall|k: int, j: int| 0 <= k < u.len() && 0 <= j < u[k].len() implies is_lower_ascii(#[trigger] u[k][j]) by {
                if k == w.len() - 1 && j < w.last().len() {
                    assert(u[k][j] == w[k][j]);
                }
            }
        }
    }
}

proof fn lemma_join_lower_ascii(ws: Seq<Seq<char>>)
    requires
        forall|k: int, j: int|
            0 <= k < ws.len() && 0 <= j < ws[k].len() ==> is_lower_ascii(#[trigger] ws[k][j]),
    ensures
        forall|i: int| 0 <= i < join_dash(ws).len() ==> is_lower_ascii(#[trigger] join_dash(ws)[i]),
    decreases ws.len(),
{
    if ws.len() == 1 {
        assert forall|i: int| 0 <= i < join_dash(ws).len() implies is_lower_ascii(#[trigger] join_dash(ws)[i]) by {
            assert(ws[0][i] == join_dash(ws)[i]);
        }
    } else if ws.len() > 1 {
        let p = ws.drop_last();
        lemma_join_lower_ascii(p);
        let j = join_dash(ws);
        let jp = join_dash(p);
        assert forall|i: int| 0 <= i < j.len() implies is_lower_ascii(#[trigger] j[i]) by {
            if i < jp.len() {
                assert(j[i] == jp[i]);
            } else if i > jp.len() {
                assert(j[i] == ws.last()[i - jp.len() - 1]);
                assert(ws[ws.len() - 1] == ws.last());
            }
        }
    }
}

proof fn lemma_words_append_run(a: Seq<char>, w: Seq<char>)
    requires
        is_slug_word(w),
        a.len() == 0 || !is_alphanumeric(a.last()),
    ensures
        words(a + w) == words(a).push(w),
    decreases w.len(),
{
    let aw = a + w;
    if w.len() == 1 {
        assert(aw.drop_last() =~= a);
        if aw.len() >= 2 {
            assert(aw[aw.len() - 2] == a.last());
        }
        assert(seq![w[0]] =~= w);
    } else {
        let v = w.drop_last();
        assert(is_slug_word(v)) by {
            assert forall|j: int| 0 <= j < v.len() implies is_alphanumeric(#[trigger] v[j]) by {
                assert(v[j] == w[j]);
            }
        }
        lemma_words_append_run(a, v);
        assert(aw.drop_last() =~= a + v);
        assert(aw[aw.len() - 2] == w[w.len() - 2]);
        assert(aw.last() == w.last());
        let ws = words(a).push(v);
        assert(v.push(w.last()) =~= w);
        assert(ws.update(ws.len() - 1, ws.last().push(w.last())) =~= words(a).push(w));
    }
}

proof fn lemma_words_of_join(ws: Seq<Seq<char>>)
    requires
        forall|k: int| 0 <= k < ws.len() ==> is_slug_word(#[trigger] ws[k]),
    ensures
        words(join_dash(ws)) == ws,
    decreases ws.len(),
{
    if ws.len() == 0 {
        assert(words(join_dash(ws)) =~= ws);
    } else if ws.len() == 1 {
        assert(ws[0] == seq![] + ws[0]);
        assert(is_slug_word(ws[0]));
        lemma_words_append_run(seq![], ws[0]);
        assert(words(Seq::<char>::empty()) =~= Seq::<Seq<char>>::empty());
        assert(words(join_dash(ws)) =~= ws);
    } else {
        let p = ws.drop_last();
        lemma_words_of_join(p);
        let a = join_dash(p).push('-');
        assert(a.drop_last() =~= join_dash(p));
        assert(words(a) == words(join_dash(p)));
        assert(is_slug_word(ws[ws.len() - 1]));
        lemma_words_append_run(a, ws.last());
        assert(join_dash(ws) =~= a + ws.last());
        assert(p.push(ws.last()) =~= ws);
    }
}

/// Splitting a slug into its words and joining them again gives the slug
/// back: after lowercasing, slugifying is idempotent for any text.
pub proof fn lemma_split_join_idempotent(x: Seq<char>)
    ensures
        join_dash(words(join_dash(words(x)))) == join_dash(words(x)),
{
    lemma_words_are_slug_words(x);
    lemma_words_of_join(words(x));
}

/// Slugifying the slug of an ASCII title gives that slug again.
pub proof fn lemma_slugify_idempotent_ascii(t: Seq<char>)
    requires
        all_ascii(t),
    ensures
        slug_of(slug_of(t)) == slug_of(t),
{
    let x = lowercase(t);
    assert forall|i: int| 0 <= i < x.len() implies is_lower_ascii(#[trigger] x[i]) by {
        assert(is_ascii_char(t[i]));
    }
    lemma_words_lower_ascii(x);
    let ws = words(x);
    lemma_join_lower_ascii(ws);
    let s = join_dash(ws);
    assert(all_ascii(s));
    assert(lowercase(s) =~= s);
    lemma_split_join_idempotent(x);
}

/// Lowercases `text`, maps every non-alphanumeric character to a separator and
/// joins the remaining words with `-`.
pub fn slugify(text: &str) -> (r: String)
    ensures
        r@ == slug_of(text@),
{
    let lowered = to_lowercase(text);
    let cs = chars_of(lowered.as_str());
    let ghost s = cs@;
    let mut out = String::new();
    let mut in_word = false;
    let mut any_word = false;
    let mut i: usize = 0;
    while i < cs.len()
        invariant
            s == cs@,
            s == lowercase(text@),
            i <= cs.len(),
            out@ == join_dash(words(s.take(i as int))),
            in_word == (i > 0 && is_alphanumeric(s[i - 1])),
            any_word == (words(s.take(i as int)).len() > 0),
        decreases cs.len() - i,
    {
        let c = cs[i];
        let ghost p = s.take(i as int);
        let ghost q = s.take(i + 1);
        assert(q.drop_last() =~= p);
        assert(q.last() == c);
        if char_is_alphanumeric(c) {
            if in_word {
                assert(q[q.len() - 2] == s[i - 1]);
                proof {
                    lemma_words_nonempty_when_in_word(p);
                    lemma_join_extend_last(words(p), c);
                }
                push_char(&mut out, c);
            } else {
                if any_word {
                    push_char(&mut out, '-');
                }
                push_char(&mut out, c);
                proof {
                    let w = words(p);
                    assert(words(q) == w.push(seq![c]));
                    assert(w.push(seq![c]).drop_last() =~= w);
                    if w.len() == 0 {
                        assert(out@ =~= join_dash(w.push(seq![c])));
                    } else {
                        assert(out@ =~= join_dash(w.push(seq![c])));
                    }
                }
                any_word = true;
            }
            in_word = true;
        } else {
            in_word = false;
        }
        i = i + 1;
    }
    assert(s.take(cs.len() as int) =~= s);
    out
}

} // verus!
