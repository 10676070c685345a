use vstd::prelude::*;

verus! {

/// `String::push` appends one character.
pub assume_specification[ String::push ](s: &mut String, ch: char)
    ensures
        final(s)@ == old(s)@.push(ch),
;

/// Unicode `White_Space`, the set that `char::is_whitespace` and
/// `str::split_whitespace` use.
pub open spec fn is_ws(c: char) -> bool {
    let u = c as u32;
    ||| 0x9 <= u <= 0xD
    ||| u == 0x20
    ||| u == 0x85
    ||| u == 0xA0
    ||| u == 0x1680
    ||| 0x2000 <= u <= 0x200A
    ||| u == 0x2028
    ||| u == 0x2029
    ||| u == 0x202F
    ||| u == 0x205F
    ||| u == 0x3000
}

/// Whether `c` is Unicode white space.
pub fn is_whitespace(c: char) -> (r: bool)
    ensures
        r == is_ws(c),
{
    let u = c as u32;
    (0x9 <= u && u <= 0xD) || u == 0x20 || u == 0x85 || u == 0xA0 || u == 0x1680 || (0x2000 <= u
        && u <= 0x200A) || u == 0x2028 || u == 0x2029 || u == 0x202F || u == 0x205F || u == 0x3000
}

/// Scanning `s` from the left: the words finished so far and the word
/// being read.
pub open spec fn word_scan(s: Seq<char>) -> (Seq<Seq<char>>, Seq<char>)
    decreases s.len(),
{
    if s.len() == 0 {
        (Seq::empty(), Seq::empty())
    } else {
        let (done, cur) = word_scan(s.drop_last());
        let c = s.last();
        if is_ws(c) {
            if cur.len() == 0 {
                (done, cur)
            } else {
                (done.push(cur), Seq::empty())
            }
        } else {
            (done, cur.push(c))
        }
    }
}

/// The maximal runs of non-white-space characters of `s`, in order
/// (what `str::split_whitespace` yields).
pub open spec fn words(s: Seq<char>) -> Seq<Seq<char>> {
    let (done, cur) = word_scan(s);
    if cur.len() == 0 {
        done
    } else {
        done.push(cur)
    }
}

/// The views of a vector of strings.
pub open spec fn views(v: Seq<String>) -> Seq<Seq<char>> {
    v.map_values(|s: String| s@)
}

/// The characters of `s`, in order.
pub fn chars_of(s: &str) -> (v: Vec<char>)
    ensures
        v@ == s@,
{
    let mut v: Vec<char> = Vec::new();
    for c in it: s.chars()
        invariant
            v@ == it.seq().take(it.index()),
            it.seq() == s@,
    {
        v.push(c);
    }
    v
}

/// Splits `s` into its white-space separated words.
pub fn split_words(s: &str) -> (ws: Vec<String>)
    ensures
        views(ws@) == words(s@),
{
    let cs = chars_of(s);
    let mut done: Vec<String> = Vec::new();
    let mut cur = String::new();
    let mut i: usize = 0;
    while i < cs.len()
        invariant
            i <= cs.len(),
            cs@ == s@,
            (views(done@), cur@) == word_scan(s@.take(i as int)),
        decreases cs.len() - i,
    {
        let c = cs[i];
        proof {
            assert(s@.take(i + 1).drop_last() == s@.take(i as int));
        }
        if is_whitespace(c) {
            if !cur.as_str().is_empty() {
                let ghost old_done = done@;
                let w = cur;
                done.push(w);
                cur = String::new();
                proof {
                    assert(views(done@) =~= views(old_done).push(w@));
                }
            }
        } else {
            cur.push(c);
        }
        i = i + 1;
    }
    proof {
        assert(s@.take(cs.len() as int) == s@);
    }
    if !cur.as_str().is_empty() {
        let ghost old_done = done@;
        let ghost w = cur@;
        done.push(cur);
        proof {
            assert(views(done@) =~= views(old_done).push(w));
        }
    }
    done
}

} // verus!

verus! {

/// Scanning `s` from the left, cutting at each `sep`: the pieces finished
/// so far and the piece being read.
pub open spec fn piece_scan(s: Seq<char>, sep: char) -> (Seq<Seq<char>>, Seq<char>)
    decreases s.len(),
{
    if s.len() == 0 {
        (Seq::empty(), Seq::empty())
    } else {
        let (done, cur) = piece_scan(s.drop_last(), sep);
        if s.last() == sep {
            (done.push(cur), Seq::empty())
        } else {
            (done, cur.push(s.last()))
        }
    }
}

/// The pieces of `s` between occurrences of `sep` (what `str::split`
/// with a character yields): always at least one piece.
pub open spec fn pieces(s: Seq<char>, sep: char) -> Seq<Seq<char>> {
    let (done, cur) = piece_scan(s, sep);
    done.push(cur)
}

/// Splits `s` at every occurrence of `sep`.
pub fn split_at_char(s: &str, sep: char) -> (ps: Vec<String>)
    ensures
        views(ps@) == pieces(s@, sep),
{
    let cs = chars_of(s);
    let mut done: Vec<String> = Vec::new();
    let mut cur = String::new();
    let mut i: usize = 0;
    while i < cs.len()
        invariant
            i <= cs.len(),
            cs@ == s@,
            (views(done@), cur@) == piece_scan(s@.take(i as int), sep),
        decreases cs.len() - i,
    {
        let c = cs[i];
        proof {
            assert(s@.take(i + 1).drop_last() == s@.take(i as int));
        }
        if c == sep {
            let ghost old_done = done@;
            let w = cur;
            done.push(w);
            cur = String::new();
            proof {
                assert(views(done@) =~= views(old_done).push(w@));
            }
        } else {
            cur.push(c);
        }
        i = i + 1;
    }
    proof {
        assert(s@.take(cs.len() as int) == s@);
    }
    let ghost old_done = done@;
    let ghost w = cur@;
    done.push(cur);
    proof {
        assert(views(done@) =~= views(old_done).push(w));
    }
    done
}

/// Whether `needle` occurs in `hay` as a contiguous run.
pub open spec fn occurs_in(hay: Seq<char>, needle: Seq<char>) -> bool {
    exists|i: int| 0 <= i && i + needle.len() <= hay.len() && #[trigger] hay.subrange(i, i + needle.len()) == needle
}

/// Whether `hay` holds `needle` (what `str::contains` with a string tests).
pub fn contains_str(hay: &str, needle: &str) -> (r: bool)
    ensures
        r == occurs_in(hay@, needle@),
{
    let h = chars_of(hay);
    let n = chars_of(needle);
    if n.len() > h.len() {
        return false;
    }
    if n.len() == 0 {
        proof {
            assert(hay@.subrange(0int, 0int + needle@.len()) =~= needle@);
        }
        return true;
    }
    let mut i: usize = 0;
    while i <= h.len() - n.len()
        invariant
            h@ == hay@,
            n@ == needle@,
            0 < n.len() <= h.len(),
            i <= h.len() - n.len() + 1,
            forall|k: int| 0 <= k < i ==> #[trigger] hay@.subrange(k, k + needle@.len()) != needle@,
        decreases h.len() - i,
    {
        if matches_at(&h, i, &n) {
            return true;
        }
        i = i + 1;
    }
    proof {
        assert forall|k: int| 0 <= k && k + needle@.len() <= hay@.len() implies #[trigger] hay@.subrange(k, k + needle@.len()) != needle@ by {
            assert(k < i);
        }
    }
    false
}

/// Whether `s` begins with `prefix`.
pub open spec fn begins_with(s: Seq<char>, prefix: Seq<char>) -> bool {
    prefix.len() <= s.len() && s.subrange(0, prefix.len() as int) == prefix
}

/// Whether `s` ends with `suffix`.
pub open spec fn ends_with(s: Seq<char>, suffix: Seq<char>) -> bool {
    suffix.len() <= s.len() && s.subrange(s.len() - suffix.len(), s.len() as int) == suffix
}

/// Whether the characters of `a` from `start` on begin with all of `b`.
fn matches_at(a: &Vec<char>, start: usize, b: &Vec<char>) -> (r: bool)
    requires
        start + b.len() <= a.len(),
    ensures
        r == (a@.subrange(start as int, start + b.len()) == b@),
{
    let mut j: usize = 0;
    while j < b.len()
        invariant
            start + b.len() <= a.len(),
            j <= b.len(),
            forall|k: int| 0 <= k < j ==> a@[start + k] == b@[k],
        decreases b.len() - j,
    {
        if a[start + j] != b[j] {
            proof {
                assert(a@.subrange(start as int, start + b.len())[j as int] != b@[j as int]);
            }
            return false;
        }
        j = j + 1;
    }
    proof {
        assert(a@.subrange(start as int, start + b.len()) =~= b@);
    }
    true
}

/// Whether `s` starts with `prefix` (what `str::starts_with` tests).
pub fn starts_with_str(s: &str, prefix: &str) -> (r: bool)
    ensures
        r == begins_with(s@, prefix@),
{
    let a = chars_of(s);
    let b = chars_of(prefix);
    if b.len() > a.len() {
        return false;
    }
    matches_at(&a, 0, &b)
}

/// Whether `s` ends with `suffix` (what `str::ends_with` tests).
pub fn ends_with_str(s: &str, suffix: &str) -> (r: bool)
    ensures
        r == ends_with(s@, suffix@),
{
    let a = chars_of(s);
    let b = chars_of(suffix);
    if b.len() > a.len() {
        return false;
    }
    matches_at(&a, a.len() - b.len(), &b)
}

/// Whether every character of `s` is white space (what
/// `s.trim().is_empty()` tests).
pub fn is_blank(s: &str) -> (r: bool)
    ensures
        r == (forall|i: int| 0 <= i < s@.len() ==> is_ws(#[trigger] s@[i])),
{
    let cs = chars_of(s);
    let mut i: usize = 0;
    while i < cs.len()
        invariant
            cs@ == s@,
            i <= cs.len(),
            forall|k: int| 0 <= k < i ==> is_ws(#[trigger] s@[k]),
        decreases cs.len() - i,
    {
        if !is_whitespace(cs[i]) {
            return false;
        }
        i = i + 1;
    }
    true
}

/// A string made of the characters of `v`.
pub fn string_of(v: &Vec<char>) -> (s: String)
    ensures
        s@ == v@,
{
    let mut s = String::new();
    let mut i: usize = 0;
    while i < v.len()
        invariant
            i <= v.len(),
            s@ == v@.take(i as int),
        decreases v.len() - i,
    {
        s.push(v[i]);
        proof {
            assert(v@.take(i + 1) == v@.take(i as int).push(v@[i as int]));
        }
        i = i + 1;
    }
    proof {
        assert(v@.take(v.len() as int) == v@);
    }
    s
}

} // verus!

verus! {

/// `w` is a word: non-empty and free of white space.
pub open spec fn is_word(w: Seq<char>) -> bool {
    w.len() > 0 && forall|i: int| 0 <= i < w.len() ==> !is_ws(#[trigger] w[i])
}

/// Scanning a word finishes nothing and reads the whole word.
proof fn lemma_scan_of_word(w: Seq<char>)
    requires
        forall|i: int| 0 <= i < w.len() ==> !is_ws(#[trigger] w[i]),
    ensures
        word_scan(w) == (Seq::<Seq<char>>::empty(), w),
    decreases w.len(),
{
    if w.len() > 0 {
        let p = w.drop_last();
        assert forall|i: int| 0 <= i < p.len() implies !is_ws(#[trigger] p[i]) by {
            assert(p[i] == w[i]);
        }
        lemma_scan_of_word(p);
        assert(p.push(w.last()) =~= w);
    }
}

/// A word splits into itself.
pub proof fn lemma_words_of_word(w: Seq<char>)
    requires
        is_word(w),
    ensures
        words(w) == seq![w],
{
    lemma_scan_of_word(w);
    assert(Seq::<Seq<char>>::empty().push(w) =~= seq![w]);
}

/// The empty string has no words.
pub proof fn lemma_words_of_empty()
    ensures
        words(Seq::<char>::empty()) == Seq::<Seq<char>>::empty(),
{
}

/// Every piece that `words` yields is a word.
pub proof fn lemma_words_are_words(s: Seq<char>)
    ensures
        forall|i: int| 0 <= i < words(s).len() ==> is_word(#[trigger] words(s)[i]),
{
    lemma_scan_parts(s);
}

proof fn lemma_scan_parts(s: Seq<char>)
    ensures
        forall|i: int| 0 <= i < word_scan(s).0.len() ==> is_word(#[trigger] word_scan(s).0[i]),
        forall|i: int| 0 <= i < word_scan(s).1.len() ==> !is_ws(#[trigger] word_scan(s).1[i]),
    decreases s.len(),
{
    if s.len() > 0 {
        lemma_scan_parts(s.drop_last());
        let (done, cur) = word_scan(s.drop_last());
        let c = s.last();
        if !is_ws(c) {
            assert forall|i: int| 0 <= i < cur.push(c).len() implies !is_ws(#[trigger] cur.push(c)[i]) by {
                if i < cur.len() {
                    assert(cur.push(c)[i] == cur[i]);
                }
            }
        }
    }
}

/// Scanning a text that holds a space after `a` starts afresh after the
/// space.
proof fn lemma_scan_after_space(a: Seq<char>, b: Seq<char>)
    ensures
        word_scan(a + seq![' '] + b) == (words(a) + word_scan(b).0, word_scan(b).1),
    decreases b.len(),
{
    let sp = a + seq![' '];
    if b.len() == 0 {
        assert(sp + b =~= sp);
        assert(sp.drop_last() =~= a);
        assert(is_ws(' '));
        assert(words(a) + Seq::<Seq<char>>::empty() =~= words(a));
    } else {
        lemma_scan_after_space(a, b.drop_last());
        assert((sp + b).drop_last() =~= sp + b.drop_last());
        assert((sp + b).last() == b.last());
        let (d0, c0) = word_scan(b.drop_last());
        assert((words(a) + d0).push(c0) =~= words(a) + d0.push(c0));
    }
}

/// The words of two texts joined by a space are the words of the first,
/// then those of the second.
pub proof fn lemma_words_join(a: Seq<char>, b: Seq<char>)
    ensures
        words(a + seq![' '] + b) == words(a) + words(b),
{
    lemma_scan_after_space(a, b);
    let (d, c) = word_scan(b);
    assert((words(a) + d).push(c) =~= words(a) + d.push(c));
}

} // verus!

verus! {

/// Whether `a` and `b` hold the same characters.
pub fn same_text(a: &str, b: &str) -> (r: bool)
    ensures
        r == (a@ == b@),
{
    let x = chars_of(a);
    let y = chars_of(b);
    if x.len() != y.len() {
        return false;
    }
    let mut i: usize = 0;
    while i < x.len()
        invariant
            x@ == a@,
            y@ == b@,
            x.len() == y.len(),
            i <= x.len(),
            forall|k: int| 0 <= k < i ==> x@[k] == y@[k],
        decreases x.len() - i,
    {
        if x[i] != y[i] {
            return false;
        }
        i = i + 1;
    }
    proof {
        assert(x@ =~= y@);
    }
    true
}

/// Whether two optional strings are both absent or hold the same text.
pub fn same_opt_text(a: &Option<String>, b: &Option<String>) -> (r: bool)
    ensures
        r == (opt_view(*a) == opt_view(*b)),
{
    match (a, b) {
        (Some(x), Some(y)) => same_text(x.as_str(), y.as_str()),
        (None, None) => true,
        _ => false,
    }
}

/// The view of an optional string.
pub open spec fn opt_view(o: Option<String>) -> Option<Seq<char>> {
    match o {
        Some(s) => Some(s@),
        None => None,
    }
}

} // verus!
