use vstd::prelude::*;

use crate::text::{
    begins_with, is_word, lemma_words_are_words, lemma_words_join, lemma_words_of_word, piece_scan, pieces, split_at_char,
    split_words, views, words,
};

verus! {

/// The line that results from adding `word` to `line`: the word alone when
/// the line is empty, else the line, one space and the word.
pub open spec fn candidate(line: Seq<char>, word: Seq<char>) -> Seq<char> {
    if line.len() == 0 {
        word
    } else {
        line + seq![' '] + word
    }
}

/// Greedy filling of one paragraph, word by word: the lines finished so far
/// and the line being filled. A word opens a new line when adding it to a
/// non-empty line gives a line that `too_wide` rejects.
pub open spec fn fill_scan(ws: Seq<Seq<char>>, too_wide: spec_fn(Seq<char>) -> bool) -> (Seq<Seq<char>>, Seq<char>)
    decreases ws.len(),
{
    if ws.len() == 0 {
        (Seq::empty(), Seq::empty())
    } else {
        let (done, line) = fill_scan(ws.drop_last(), too_wide);
        let w = ws.last();
        if line.len() == 0 {
            (done, w)
        } else if too_wide(candidate(line, w)) {
            (done.push(line), w)
        } else {
            (done, candidate(line, w))
        }
    }
}

/// The lines of one paragraph: the finished lines and the last one (an
/// empty paragraph gives one empty line).
pub open spec fn paragraph_lines(ws: Seq<Seq<char>>, too_wide: spec_fn(Seq<char>) -> bool) -> Seq<Seq<char>> {
    let (done, line) = fill_scan(ws, too_wide);
    done.push(line)
}

/// The lines of the paragraphs `ps`, one paragraph after the other.
pub open spec fn lines_of_paragraphs(ps: Seq<Seq<char>>, too_wide: spec_fn(Seq<char>) -> bool) -> Seq<Seq<char>>
    decreases ps.len(),
{
    if ps.len() == 0 {
        Seq::empty()
    } else {
        lines_of_paragraphs(ps.drop_last(), too_wide) + paragraph_lines(words(ps.last()), too_wide)
    }
}

/// The wrapped lines of `text`: it is cut at each newline, and each piece is
/// filled greedily with its white-space separated words.
pub open spec fn wrapped_lines(text: Seq<char>, too_wide: spec_fn(Seq<char>) -> bool) -> Seq<Seq<char>> {
    lines_of_paragraphs(pieces(text, '\n'), too_wide)
}

/// `f` answered `r` when asked about some string that reads `s`.
pub open spec fn answered<F: Fn(&str) -> bool>(f: F, s: Seq<char>, r: bool) -> bool {
    exists|x: &str| x@ == s && #[trigger] call_ensures(f, (x,), r)
}

/// `f` gives the same answer for strings that read the same.
pub open spec fn deterministic<F: Fn(&str) -> bool>(f: F) -> bool {
    forall|x1: &str, x2: &str, r1: bool, r2: bool|
        x1@ == x2@ && #[trigger] call_ensures(f, (x1,), r1) && #[trigger] call_ensures(f, (x2,), r2)
            ==> r1 == r2
}

/// The predicate on strings that a deterministic `f` computes.
pub open spec fn predicate_of<F: Fn(&str) -> bool>(f: F) -> spec_fn(Seq<char>) -> bool {
    |s: Seq<char>| choose|r: bool| answered(f, s, r)
}

/// Wraps `text` into lines: it is cut at each newline, and the words of each
/// piece are laid greedily on lines, a new line starting where `too_wide`
/// rejects the current line extended by one space and the next word.
pub fn wrap_text<F: Fn(&str) -> bool>(text: &str, too_wide: F) -> (lines: Vec<String>)
    requires
        forall|x: &str| call_requires(too_wide, (x,)),
        deterministic(too_wide),
    ensures
        views(lines@) == wrapped_lines(text@, predicate_of(too_wide)),
{
    let ghost tw = predicate_of(too_wide);
    let paragraphs = split_at_char(text, '\n');
    let ghost ps = views(paragraphs@);
    let mut lines: Vec<String> = Vec::new();
    let mut p: usize = 0;
    while p < paragraphs.len()
        invariant
            ps == views(paragraphs@),
            ps == pieces(text@, '\n'),
            p <= paragraphs.len(),
            forall|x: &str| call_requires(too_wide, (x,)),
            deterministic(too_wide),
            tw == predicate_of(too_wide),
            views(lines@) == lines_of_paragraphs(ps.take(p as int), tw),
        decreases paragraphs.len() - p,
    {
        let ws = split_words(paragraphs[p].as_str());
        let ghost wv = views(ws@);
        let ghost before = views(lines@);
        let mut line = String::new();
        let mut k: usize = 0;
        while k < ws.len()
            invariant
                wv == views(ws@),
                k <= ws.len(),
                forall|x: &str| call_requires(too_wide, (x,)),
                deterministic(too_wide),
                tw == predicate_of(too_wide),
                ({
                    let (done, cur) = fill_scan(wv.take(k as int), tw);
                    views(lines@) == before + done && line@ == cur
                }),
            decreases ws.len() - k,
        {
            proof {
                assert(wv.take(k + 1).drop_last() == wv.take(k as int));
            }
            let w = &ws[k];
            if line.as_str().is_empty() {
                line = w.clone();
            } else {
                let mut cand = line.clone();
                cand.push(' ');
                cand.append(w.as_str());
                let r = too_wide(cand.as_str());
                proof {
                    assert(cand@ == candidate(line@, w@));
                    assert(answered(too_wide, cand@, r));
                    let r2 = choose|r2: bool| answered(too_wide, cand@, r2);
                    assert(answered(too_wide, cand@, r2));
                    assert(r2 == r);
                    assert(tw(cand@) == r);
                }
                if r {
                    let ghost old_lines = views(lines@);
                    let finished = line;
                    lines.push(finished);
                    line = w.clone();
                    proof {
                        assert(views(lines@) =~= old_lines.push(finished@));
                    }
                } else {
                    line = cand;
                }
            }
            k = k + 1;
        }
        proof {
            assert(wv.take(ws.len() as int) == wv);
            assert(ps.take(p + 1).drop_last() == ps.take(p as int));
            assert(ps.take(p + 1).last() == ps[p as int]);
        }
        let ghost old_lines = views(lines@);
        let last = line;
        lines.push(last);
        proof {
            assert(views(lines@) =~= old_lines.push(last@));
        }
        p = p + 1;
    }
    proof {
        assert(ps.take(paragraphs.len() as int) == ps);
    }
    lines
}

} // verus!

verus! {

/// The words of `lines`, line after line.
pub open spec fn words_of_lines(lines: Seq<Seq<char>>) -> Seq<Seq<char>>
    decreases lines.len(),
{
    if lines.len() == 0 {
        Seq::empty()
    } else {
        words_of_lines(lines.drop_last()) + words(lines.last())
    }
}

proof fn lemma_words_of_lines_append(x: Seq<Seq<char>>, y: Seq<Seq<char>>)
    ensures
        words_of_lines(x + y) == words_of_lines(x) + words_of_lines(y),
    decreases y.len(),
{
    if y.len() == 0 {
        assert(x + y =~= x);
        assert(words_of_lines(x) + Seq::<Seq<char>>::empty() =~= words_of_lines(x));
    } else {
        lemma_words_of_lines_append(x, y.drop_last());
        assert((x + y).drop_last() =~= x + y.drop_last());
        assert((x + y).last() == y.last());
        assert(words_of_lines(x) + words_of_lines(y.drop_last()) + words(y.last()) =~= words_of_lines(x) + (words_of_lines(y.drop_last()) + words(y.last())));
    }
}

proof fn lemma_fill_keeps_words(ws: Seq<Seq<char>>, too_wide: spec_fn(Seq<char>) -> bool)
    requires
        forall|i: int| 0 <= i < ws.len() ==> is_word(#[trigger] ws[i]),
    ensures
        words_of_lines(fill_scan(ws, too_wide).0) + words(fill_scan(ws, too_wide).1) == ws,
        fill_scan(ws, too_wide).1.len() == 0 <==> ws.len() == 0,
    decreases ws.len(),
{
    if ws.len() == 0 {
        assert(words(Seq::<char>::empty()) =~= Seq::<Seq<char>>::empty());
        assert(Seq::<Seq<char>>::empty() + Seq::<Seq<char>>::empty() =~= Seq::<Seq<char>>::empty());
    } else {
        let p = ws.drop_last();
        assert forall|i: int| 0 <= i < p.len() implies is_word(#[trigger] p[i]) by {
            assert(p[i] == ws[i]);
        }
        lemma_fill_keeps_words(p, too_wide);
        let (done, line) = fill_scan(p, too_wide);
        let w = ws.last();
        assert(is_word(w));
        lemma_words_of_word(w);
        if line.len() == 0 {
            assert(words(line) =~= Seq::<Seq<char>>::empty());
            assert(words_of_lines(done) =~= Seq::<Seq<char>>::empty());
            assert(ws =~= seq![w]);
            assert(Seq::<Seq<char>>::empty() + seq![w] =~= seq![w]);
        } else if too_wide(candidate(line, w)) {
            assert(done.push(line).drop_last() =~= done);
            assert(p.push(w) =~= ws);
        } else {
            lemma_words_join(line, w);
            assert(words_of_lines(done) + (words(line) + seq![w]) =~= (words_of_lines(done) + words(line)).push(w));
            assert(p.push(w) =~= ws);
        }
    }
}

proof fn lemma_paragraphs_keep_words(ps: Seq<Seq<char>>, too_wide: spec_fn(Seq<char>) -> bool)
    ensures
        words_of_lines(lines_of_paragraphs(ps, too_wide)) == words_of_lines(ps),
    decreases ps.len(),
{
    if ps.len() > 0 {
        lemma_paragraphs_keep_words(ps.drop_last(), too_wide);
        let ws = words(ps.last());
        lemma_words_are_words(ps.last());
        lemma_fill_keeps_words(ws, too_wide);
        let (done, line) = fill_scan(ws, too_wide);
        assert(done.push(line).drop_last() =~= done);
        lemma_words_of_lines_append(lines_of_paragraphs(ps.drop_last(), too_wide), paragraph_lines(ws, too_wide));
    }
}

/// Wrapping loses, adds and reorders no word: the words of the wrapped
/// lines, line after line, are the words of the text, newline-separated
/// piece after piece.
pub proof fn law_wrap_keeps_words(text: Seq<char>, too_wide: spec_fn(Seq<char>) -> bool)
    ensures
        words_of_lines(wrapped_lines(text, too_wide)) == words_of_lines(pieces(text, '\n')),
{
    lemma_paragraphs_keep_words(pieces(text, '\n'), too_wide);
}

/// A line that holds one word or fewer, or that `too_wide` accepts.
pub open spec fn line_fits(line: Seq<char>, too_wide: spec_fn(Seq<char>) -> bool) -> bool {
    words(line).len() <= 1 || !too_wide(line)
}

proof fn lemma_fill_lines_fit(ws: Seq<Seq<char>>, too_wide: spec_fn(Seq<char>) -> bool)
    requires
        forall|i: int| 0 <= i < ws.len() ==> is_word(#[trigger] ws[i]),
    ensures
        forall|i: int| 0 <= i < fill_scan(ws, too_wide).0.len() ==> line_fits(#[trigger] fill_scan(ws, too_wide).0[i], too_wide),
        line_fits(fill_scan(ws, too_wide).1, too_wide),
    decreases ws.len(),
{
    if ws.len() == 0 {
        assert(words(Seq::<char>::empty()) =~= Seq::<Seq<char>>::empty());
    } else {
        let p = ws.drop_last();
        assert forall|i: int| 0 <= i < p.len() implies is_word(#[trigger] p[i]) by {
            assert(p[i] == ws[i]);
        }
        lemma_fill_lines_fit(p, too_wide);
        let (done, line) = fill_scan(p, too_wide);
        let w = ws.last();
        lemma_words_of_word(w);
        if line.len() > 0 && too_wide(candidate(line, w)) {
            assert forall|i: int| 0 <= i < done.push(line).len() implies line_fits(#[trigger] done.push(line)[i], too_wide) by {
                if i < done.len() {
                    assert(done.push(line)[i] == done[i]);
                }
            }
        }
    }
}

/// Every wrapped line that holds more than one word is one that `too_wide`
/// accepts: only a single word may overflow a line.
pub proof fn law_wrapped_lines_fit(text: Seq<char>, too_wide: spec_fn(Seq<char>) -> bool)
    ensures
        forall|i: int| 0 <= i < wrapped_lines(text, too_wide).len()
            ==> line_fits(#[trigger] wrapped_lines(text, too_wide)[i], too_wide),
{
    lemma_paragraphs_fit(pieces(text, '\n'), too_wide);
}

proof fn lemma_paragraphs_fit(ps: Seq<Seq<char>>, too_wide: spec_fn(Seq<char>) -> bool)
    ensures
        forall|i: int| 0 <= i < lines_of_paragraphs(ps, too_wide).len()
            ==> line_fits(#[trigger] lines_of_paragraphs(ps, too_wide)[i], too_wide),
    decreases ps.len(),
{
    if ps.len() > 0 {
        lemma_paragraphs_fit(ps.drop_last(), too_wide);
        let ws = words(ps.last());
        lemma_words_are_words(ps.last());
        lemma_fill_lines_fit(ws, too_wide);
        let a = lines_of_paragraphs(ps.drop_last(), too_wide);
        let b = paragraph_lines(ws, too_wide);
        let (done, line) = fill_scan(ws, too_wide);
        assert forall|i: int| 0 <= i < (a + b).len() implies line_fits(#[trigger] (a + b)[i], too_wide) by {
            if i < a.len() {
                assert((a + b)[i] == a[i]);
            } else {
                assert((a + b)[i] == b[i - a.len()]);
                if i - a.len() < done.len() {
                    assert(b[i - a.len()] == done[i - a.len()]);
                }
            }
        }
    }
}

/// The words that open the lines of a paragraph filled by `fill_scan`, one
/// per line, in order.
pub open spec fn line_openers(ws: Seq<Seq<char>>, too_wide: spec_fn(Seq<char>) -> bool) -> Seq<Seq<char>>
    decreases ws.len(),
{
    if ws.len() == 0 {
        Seq::empty()
    } else {
        let openers = line_openers(ws.drop_last(), too_wide);
        let (done, line) = fill_scan(ws.drop_last(), too_wide);
        let w = ws.last();
        if line.len() == 0 || too_wide(candidate(line, w)) {
            openers.push(w)
        } else {
            openers
        }
    }
}

proof fn lemma_candidate_keeps_prefix(line: Seq<char>, w: Seq<char>, prefix: Seq<char>)
    requires
        begins_with(line, prefix),
    ensures
        begins_with(candidate(line, w), prefix),
{
    if line.len() > 0 {
        assert((line + seq![' '] + w).subrange(0, prefix.len() as int) =~= line.subrange(0, prefix.len() as int));
    } else {
        assert(w.subrange(0, 0) =~= prefix);
    }
}

proof fn lemma_fill_is_greedy(ws: Seq<Seq<char>>, too_wide: spec_fn(Seq<char>) -> bool)
    requires
        forall|i: int| 0 <= i < ws.len() ==> is_word(#[trigger] ws[i]),
    ensures
        ({
            let (done, line) = fill_scan(ws, too_wide);
            let openers = line_openers(ws, too_wide);
            &&& ws.len() > 0 ==> line.len() > 0 && openers.len() == done.len() + 1
            &&& ws.len() == 0 ==> done.len() == 0 && openers.len() == 0 && line.len() == 0
            &&& forall|i: int| 0 <= i < done.len() ==> begins_with(#[trigger] done[i], openers[i])
            &&& ws.len() > 0 ==> begins_with(line, openers.last())
            &&& forall|i: int| 0 <= i < openers.len() ==> is_word(#[trigger] openers[i])
            &&& forall|i: int| 0 <= i < done.len() ==> too_wide(candidate(#[trigger] done[i], openers[i + 1]))
        }),
    decreases ws.len(),
{
    if ws.len() > 0 {
        let p = ws.drop_last();
        assert forall|i: int| 0 <= i < p.len() implies is_word(#[trigger] p[i]) by {
            assert(p[i] == ws[i]);
        }
        lemma_fill_is_greedy(p, too_wide);
        let (done, line) = fill_scan(p, too_wide);
        let openers = line_openers(p, too_wide);
        let w = ws.last();
        assert(is_word(w));
        assert(begins_with(w, w)) by {
            assert(w.subrange(0, w.len() as int) =~= w);
        }
        if line.len() == 0 {
            let o2 = openers.push(w);
            assert forall|i: int| 0 <= i < o2.len() implies is_word(#[trigger] o2[i]) by {}
        } else if too_wide(candidate(line, w)) {
            let d2 = done.push(line);
            let o2 = openers.push(w);
            assert forall|i: int| 0 <= i < d2.len() implies begins_with(#[trigger] d2[i], o2[i]) by {
                if i < done.len() {
                    assert(d2[i] == done[i] && o2[i] == openers[i]);
                }
            }
            assert forall|i: int| 0 <= i < o2.len() implies is_word(#[trigger] o2[i]) by {
                if i < openers.len() {
                    assert(o2[i] == openers[i]);
                }
            }
            assert forall|i: int| 0 <= i < d2.len() implies too_wide(candidate(#[trigger] d2[i], o2[i + 1])) by {
                if i < done.len() {
                    assert(d2[i] == done[i] && o2[i + 1] == openers[i + 1]);
                }
            }
        } else {
            lemma_candidate_keeps_prefix(line, w, openers.last());
        }
    }
}

/// Lines are filled greedily: each line of a paragraph opens with one of
/// its words, and a line ends only where the word that opens the next line,
/// after a space, would have made it too wide.
pub proof fn law_wrap_is_greedy(paragraph: Seq<char>, too_wide: spec_fn(Seq<char>) -> bool)
    ensures
        ({
            let lines = paragraph_lines(words(paragraph), too_wide);
            let openers = line_openers(words(paragraph), too_wide);
            &&& words(paragraph).len() > 0 ==> openers.len() == lines.len()
            &&& words(paragraph).len() > 0 ==> forall|i: int| 0 <= i < lines.len()
                ==> begins_with(#[trigger] lines[i], openers[i]) && is_word(openers[i])
            &&& forall|i: int| 0 <= i < lines.len() - 1 ==> too_wide(candidate(#[trigger] lines[i], openers[i + 1]))
        }),
{
    let ws = words(paragraph);
    lemma_words_are_words(paragraph);
    lemma_fill_is_greedy(ws, too_wide);
    let (done, line) = fill_scan(ws, too_wide);
    let lines = done.push(line);
    let openers = line_openers(ws, too_wide);
    assert forall|i: int| 0 <= i < lines.len() - 1 implies too_wide(candidate(#[trigger] lines[i], openers[i + 1])) by {
        assert(lines[i] == done[i]);
    }
    if ws.len() > 0 {
        assert forall|i: int| 0 <= i < lines.len() implies begins_with(#[trigger] lines[i], openers[i]) && is_word(openers[i]) by {
            if i < done.len() {
                assert(lines[i] == done[i]);
            }
        }
    }
}

/// How many times `c` occurs in `s`.
pub open spec fn occurrences(s: Seq<char>, c: char) -> nat
    decreases s.len(),
{
    if s.len() == 0 {
        0
    } else {
        occurrences(s.drop_last(), c) + if s.last() == c {
            1nat
        } else {
            0nat
        }
    }
}

/// Cutting `s` at each `sep` finishes one piece per `sep`.
proof fn lemma_piece_count(s: Seq<char>, sep: char)
    ensures
        piece_scan(s, sep).0.len() == occurrences(s, sep),
    decreases s.len(),
{
    if s.len() > 0 {
        lemma_piece_count(s.drop_last(), sep);
    }
}

/// Each paragraph gives at least one line.
proof fn lemma_each_paragraph_gives_a_line(ps: Seq<Seq<char>>, too_wide: spec_fn(Seq<char>) -> bool)
    ensures
        lines_of_paragraphs(ps, too_wide).len() >= ps.len(),
    decreases ps.len(),
{
    if ps.len() > 0 {
        lemma_each_paragraph_gives_a_line(ps.drop_last(), too_wide);
    }
}

/// Every newline starts a new line: wrapping a text gives at least one line
/// more than the text has newlines, and the empty text gives one empty line.
pub proof fn law_each_newline_starts_a_line(text: Seq<char>, too_wide: spec_fn(Seq<char>) -> bool)
    ensures
        wrapped_lines(text, too_wide).len() >= occurrences(text, '\n') + 1,
        wrapped_lines(Seq::empty(), too_wide) == seq![Seq::<char>::empty()],
{
    lemma_piece_count(text, '\n');
    lemma_each_paragraph_gives_a_line(pieces(text, '\n'), too_wide);
    let e = Seq::<char>::empty();
    assert(pieces(e, '\n') =~= seq![e]);
    assert(words(e) =~= Seq::<Seq<char>>::empty());
    let none = Seq::<Seq<char>>::empty();
    assert(seq![e].drop_last() =~= none);
    assert(seq![e].last() == e);
    assert(lines_of_paragraphs(none, too_wide) =~= none);
    assert(fill_scan(none, too_wide) == (none, e));
    assert(paragraph_lines(none, too_wide) =~= seq![e]);
    assert(lines_of_paragraphs(seq![e], too_wide) =~= none + seq![e]);
    assert(none + seq![e] =~= seq![e]);
}

} // verus!
