//! Words, joining, searching and lower case.
use vstd::prelude::*;
use vstd::utf8::is_ascii_chars;
use crate::text::{blank, chars_of, char_is_space, is_space, string_from, texts};

verus! {

// ---------------------------------------------------------------------------
// Words
// ---------------------------------------------------------------------------

/// The number of characters before the first white space of `s`.
pub open spec fn word_len(s: Seq<char>) -> nat
    decreases s.len(),
{
    if s.len() == 0 || is_space(s[0]) {
        0
    } else {
        1 + word_len(s.subrange(1, s.len() as int))
    }
}

proof fn lemma_word_len(s: Seq<char>)
    ensures
        word_len(s) <= s.len(),
        s.len() > 0 && !is_space(s[0]) ==> word_len(s) > 0,
        forall|i: int| 0 <= i < word_len(s) ==> !is_space(#[trigger] s[i]),
        word_len(s) < s.len() ==> is_space(s[word_len(s) as int]),
    decreases s.len(),
{
    if s.len() > 0 && !is_space(s[0]) {
        let rest = s.subrange(1, s.len() as int);
        lemma_word_len(rest);
        assert forall|i: int| 0 <= i < word_len(s) implies !is_space(#[trigger] s[i]) by {
            if i > 0 {
                assert(s[i] == rest[i - 1]);
            }
        }
    }
}

/// The words of `s`: its longest runs of characters that are not white space,
/// in order.
pub open spec fn words_of(s: Seq<char>) -> Seq<Seq<char>>
    decreases s.len(),
{
    if s.len() == 0 {
        Seq::empty()
    } else if is_space(s[0]) {
        words_of(s.subrange(1, s.len() as int))
    } else {
        let n = word_len(s);
        if 0 < n <= s.len() {
            seq![s.subrange(0, n as int)] + words_of(s.subrange(n as int, s.len() as int))
        } else {
            Seq::empty()
        }
    }
}

/// Whether `w` is a word: not empty, and free of white space.
pub open spec fn is_word(w: Seq<char>) -> bool {
    w.len() > 0 && forall|i: int| 0 <= i < w.len() ==> !is_space(#[trigger] w[i])
}

/// Every word is non-empty and holds no white space.
pub proof fn words_are_words(s: Seq<char>)
    ensures
        forall|i: int| 0 <= i < words_of(s).len() ==> is_word(#[trigger] words_of(s)[i]),
    decreases s.len(),
{
    if s.len() == 0 {
    } else if is_space(s[0]) {
        words_are_words(s.subrange(1, s.len() as int));
        assert(words_of(s) == words_of(s.subrange(1, s.len() as int)));
    } else {
        lemma_word_len(s);
        let n = word_len(s);
        let w = s.subrange(0, n as int);
        assert forall|i: int| 0 <= i < w.len() implies !is_space(#[trigger] w[i]) by {
            assert(w[i] == s[i]);
        }
        let rest = s.subrange(n as int, s.len() as int);
        words_are_words(rest);
        assert(words_of(s) == seq![w] + words_of(rest));
        assert forall|i: int| 0 <= i < words_of(s).len() implies is_word(
            #[trigger] words_of(s)[i],
        ) by {
            if i > 0 {
                assert(words_of(s)[i] == words_of(rest)[i - 1]);
            }
        }
    }
}

/// There are no words exactly where there is nothing but white space.
pub proof fn lemma_no_words_is_blank(s: Seq<char>)
    ensures
        words_of(s).len() == 0 <==> blank(s),
    decreases s.len(),
{
    if s.len() == 0 {
    } else if is_space(s[0]) {
        let rest = s.subrange(1, s.len() as int);
        lemma_no_words_is_blank(rest);
        if blank(rest) {
            assert forall|i: int| 0 <= i < s.len() implies is_space(#[trigger] s[i]) by {
                if i > 0 {
                    assert(s[i] == rest[i - 1]);
                }
            }
        }
        if blank(s) {
            assert forall|i: int| 0 <= i < rest.len() implies is_space(#[trigger] rest[i]) by {
                assert(rest[i] == s[i + 1]);
            }
        }
    } else {
        lemma_word_len(s);
    }
}

/// The words of `s`.
pub fn split_words(s: &str) -> (r: Vec<String>)
    ensures
        texts(r@) == words_of(s@),
{
    let cs = chars_of(s);
    let n = cs.len();
    let mut out: Vec<String> = Vec::new();
    let mut i: usize = 0;
    assert(cs@.subrange(0, n as int) =~= cs@);
    while i < n
        invariant
            n == cs@.len(),
            i <= n,
            texts(out@) + words_of(cs@.subrange(i as int, n as int)) == words_of(cs@),
        decreases n - i,
    {
        let ghost here = cs@.subrange(i as int, n as int);
        if char_is_space(cs[i]) {
            assert(here.subrange(1, here.len() as int) =~= cs@.subrange(i + 1, n as int));
            i += 1;
        } else {
            let from = i;
            assert(cs@.subrange(i as int, n as int) =~= here);
            while i < n && !char_is_space(cs[i])
                invariant
                    n == cs@.len(),
                    from <= i <= n,
                    here == cs@.subrange(from as int, n as int),
                    word_len(here) == (i - from) + word_len(cs@.subrange(i as int, n as int)),
                decreases n - i,
            {
                let ghost at = cs@.subrange(i as int, n as int);
                assert(at.subrange(1, at.len() as int) =~= cs@.subrange(i + 1, n as int));
                i += 1;
            }
            let w = string_from(&cs, from, i);
            proof {
                lemma_word_len(here);
                assert(word_len(here) == i - from);
                assert(w@ =~= here.subrange(0, i - from));
                assert(here.subrange(i - from, here.len() as int) =~= cs@.subrange(
                    i as int,
                    n as int,
                ));
                assert(texts(out@.push(w)) =~= texts(out@).push(w@));
                assert(texts(out@) + (seq![w@] + words_of(cs@.subrange(i as int, n as int)))
                    =~= texts(out@).push(w@) + words_of(cs@.subrange(i as int, n as int)));
            }
            out.push(w);
        }
    }
    assert(texts(out@) + Seq::<Seq<char>>::empty() =~= texts(out@));
    assert(cs@.subrange(n as int, n as int).len() == 0);
    out
}

// ---------------------------------------------------------------------------
// Joining
// ---------------------------------------------------------------------------

/// `parts` one after the other, with `sep` between each two.
pub open spec fn joined(parts: Seq<Seq<char>>, sep: Seq<char>) -> Seq<char>
    decreases parts.len(),
{
    if parts.len() == 0 {
        Seq::empty()
    } else if parts.len() == 1 {
        parts[0]
    } else {
        joined(parts.drop_last(), sep) + sep + parts.last()
    }
}

/// `parts` one after the other, with `sep` between each two.
pub fn join(parts: &Vec<String>, sep: &str) -> (r: String)
    ensures
        r@ == joined(texts(parts@), sep@),
{
    let mut out = String::new();
    for i in 0..parts.len()
        invariant
            out@ == joined(texts(parts@).take(i as int), sep@),
    {
        let ghost next = texts(parts@).take(i + 1);
        assert(next.drop_last() =~= texts(parts@).take(i as int));
        assert(next.last() == parts@[i as int]@);
        if i > 0 {
            out.append(sep);
        }
        out.append(parts[i].as_str());
        proof {
            if i == 0 {
                assert(joined(next, sep@) == parts@[0]@);
                assert(out@ =~= parts@[0]@);
            }
        }
    }
    assert(texts(parts@).take(parts@.len() as int) =~= texts(parts@));
    out
}

/// One space.
pub open spec fn one_space() -> Seq<char> {
    seq![' ']
}

/// `s` with every run of white space between words made one space, and with
/// none at the ends.
pub open spec fn squeezed(s: Seq<char>) -> Seq<char> {
    joined(words_of(s), one_space())
}

/// `s` with every run of white space between words made one space, and with
/// none at the ends.
pub fn squeeze(s: &str) -> (r: String)
    ensures
        r@ == squeezed(s@),
{
    let w = split_words(s);
    proof {
        reveal_strlit(" ");
        assert(" "@ =~= one_space());
    }
    join(&w, " ")
}

/// The words of `a + b`, where `a` ends or `b` starts with white space, are
/// the words of `a` and then those of `b`.
pub(crate) proof fn lemma_words_split(a: Seq<char>, b: Seq<char>)
    requires
        b.len() == 0 || is_space(b[0]),
    ensures
        words_of(a + b) == words_of(a) + words_of(b),
    decreases a.len(),
{
    if a.len() == 0 {
        assert(a + b =~= b);
        assert(Seq::<Seq<char>>::empty() + words_of(b) =~= words_of(b));
    } else if is_space(a[0]) {
        assert((a + b).subrange(1, (a + b).len() as int) =~= a.subrange(1, a.len() as int) + b);
        lemma_words_split(a.subrange(1, a.len() as int), b);
    } else {
        lemma_word_len(a);
        lemma_word_len(a + b);
        let n = word_len(a);
        let m = word_len(a + b);
        if m < n {
            assert(is_space((a + b)[m as int]));
            assert(a[m as int] == (a + b)[m as int]);
        }
        if m > n {
            assert(!is_space((a + b)[n as int]));
            if n < a.len() {
                assert(a[n as int] == (a + b)[n as int]);
            } else {
                assert((a + b)[n as int] == b[0]);
            }
        }
        assert((a + b).subrange(0, n as int) =~= a.subrange(0, n as int));
        assert((a + b).subrange(n as int, (a + b).len() as int) =~= a.subrange(
            n as int,
            a.len() as int,
        ) + b);
        lemma_words_split(a.subrange(n as int, a.len() as int), b);
        assert(seq![a.subrange(0, n as int)] + (words_of(a.subrange(n as int, a.len() as int))
            + words_of(b)) =~= words_of(a) + words_of(b));
    }
}

pub(crate) proof fn lemma_word_of_word(w: Seq<char>)
    requires
        is_word(w),
    ensures
        words_of(w) == seq![w],
{
    lemma_word_len(w);
    let n = word_len(w);
    if n < w.len() {
        assert(is_space(w[n as int]));
    }
    assert(w.subrange(0, n as int) =~= w);
    assert(words_of(w.subrange(n as int, w.len() as int)) =~= Seq::empty());
    assert(words_of(w) =~= seq![w]);
}

/// Joining words with single spaces and splitting again gives the words back.
pub proof fn splitting_undoes_joining(ws: Seq<Seq<char>>)
    requires
        forall|i: int| 0 <= i < ws.len() ==> is_word(#[trigger] ws[i]),
    ensures
        words_of(joined(ws, one_space())) == ws,
    decreases ws.len(),
{
    if ws.len() == 0 {
        assert(words_of(joined(ws, one_space())) =~= ws);
    } else if ws.len() == 1 {
        lemma_word_of_word(ws[0]);
        assert(ws =~= seq![ws[0]]);
    } else {
        let front = ws.drop_last();
        assert forall|i: int| 0 <= i < front.len() implies is_word(#[trigger] front[i]) by {
            assert(front[i] == ws[i]);
        }
        splitting_undoes_joining(front);
        let a = joined(front, one_space());
        let b = one_space() + ws.last();
        assert(joined(ws, one_space()) =~= a + b);
        assert(is_space(' '));
        lemma_words_split(a, b);
        assert(b.subrange(1, b.len() as int) =~= ws.last());
        lemma_word_of_word(ws.last());
        assert(front + seq![ws.last()] =~= ws);
    }
}

/// Squeezing white space twice is squeezing it once.
pub proof fn squeezing_is_idempotent(s: Seq<char>)
    ensures
        squeezed(squeezed(s)) == squeezed(s),
{
    words_are_words(s);
    splitting_undoes_joining(words_of(s));
}

// ---------------------------------------------------------------------------
// Searching
// ---------------------------------------------------------------------------

/// Whether `needle` stands in `hay` at position `i`.
pub open spec fn stands_at(hay: Seq<char>, needle: Seq<char>, i: int) -> bool {
    0 <= i && i + needle.len() <= hay.len() && hay.subrange(i, i + needle.len()) == needle
}

/// Whether `needle` stands somewhere in `hay`.
pub open spec fn has_infix(hay: Seq<char>, needle: Seq<char>) -> bool {
    exists|i: int| stands_at(hay, needle, i)
}

/// Whether `hay` starts with `needle`.
pub open spec fn has_prefix(hay: Seq<char>, needle: Seq<char>) -> bool {
    stands_at(hay, needle, 0)
}

fn match_at(hay: &Vec<char>, needle: &Vec<char>, at: usize) -> (r: bool)
    requires
        at + needle@.len() <= hay@.len(),
    ensures
        r == stands_at(hay@, needle@, at as int),
{
    let total: usize = hay.len();
    let mut k: usize = 0;
    while k < needle.len()
        invariant
            total == hay@.len(),
            k <= needle@.len(),
            at + needle@.len() <= hay@.len(),
            forall|j: int| 0 <= j < k ==> hay@[at + j] == needle@[j],
        decreases needle@.len() - k,
    {
        if hay[at + k] != needle[k] {
            proof {
                let part = hay@.subrange(at as int, at + needle@.len());
                assert(part[k as int] == hay@[at + k]);
            }
            return false;
        }
        k += 1;
    }
    assert(hay@.subrange(at as int, at + needle@.len()) =~= needle@);
    true
}

/// Whether `needle` stands somewhere in `hay`. The empty text stands in every
/// text.
pub fn contains(hay: &str, needle: &str) -> (r: bool)
    ensures
        r == has_infix(hay@, needle@),
{
    let h = chars_of(hay);
    let n = chars_of(needle);
    if n.len() > h.len() {
        assert(!has_infix(hay@, needle@));
        return false;
    }
    let last: usize = h.len() - n.len();
    let mut i: usize = 0;
    loop
        invariant
            h@ == hay@,
            n@ == needle@,
            last == h@.len() - n@.len(),
            i <= last,
            forall|j: int| 0 <= j < i ==> !stands_at(hay@, needle@, j),
        decreases last - i,
    {
        if match_at(&h, &n, i) {
            assert(stands_at(hay@, needle@, i as int));
            return true;
        }
        if i == last {
            assert forall|j: int| !stands_at(hay@, needle@, j) by {
                if j > last {
                    assert(j + needle@.len() > hay@.len());
                }
            }
            return false;
        }
        i += 1;
    }
}

/// Whether `hay` starts with `needle`.
pub fn starts_with(hay: &str, needle: &str) -> (r: bool)
    ensures
        r == has_prefix(hay@, needle@),
{
    let h = chars_of(hay);
    let n = chars_of(needle);
    if n.len() > h.len() {
        return false;
    }
    match_at(&h, &n, 0)
}

/// What follows `prefix` in `s`, where `s` starts with it.
pub open spec fn after_prefix(s: Seq<char>, prefix: Seq<char>) -> Option<Seq<char>> {
    if has_prefix(s, prefix) {
        Some(s.subrange(prefix.len() as int, s.len() as int))
    } else {
        None
    }
}

/// What follows `prefix` in `s`, where `s` starts with it.
pub fn strip_prefix(s: &str, prefix: &str) -> (r: Option<String>)
    ensures
        crate::text::opt_text(r) == after_prefix(s@, prefix@),
{
    let h = chars_of(s);
    let p = chars_of(prefix);
    let n = h.len();
    if p.len() > n {
        return None;
    }
    if match_at(&h, &p, 0) {
        Some(string_from(&h, p.len(), n))
    } else {
        None
    }
}

// ---------------------------------------------------------------------------
// Lower case
// ---------------------------------------------------------------------------

/// `s` in lower case.
pub uninterp spec fn lowercase(s: Seq<char>) -> Seq<char>;

/// The lower-case form of an ASCII letter; any other character as it is.
pub open spec fn ascii_lower(c: char) -> char {
    if 'A' <= c && c <= 'Z' {
        ((c as u32) + 32) as char
    } else {
        c
    }
}

/// The text with its ASCII letters in lower case.
pub open spec fn ascii_lowercase(s: Seq<char>) -> Seq<char> {
    s.map_values(|c: char| ascii_lower(c))
}

/// `str::to_lowercase`: the text in lower case, a function of the text alone.
/// On ASCII text it maps each capital letter to its small one and leaves
/// everything else, so that doing it twice changes nothing more.
#[verifier::external_body]
pub(crate) fn to_lowercase(s: &str) -> (r: String)
    ensures
        r@ == lowercase(s@),
        is_ascii_chars(s@) ==> r@ == ascii_lowercase(s@),
        is_ascii_chars(s@) ==> lowercase(r@) == r@,
{
    s.to_lowercase()
}

/// `s` in upper case.
pub uninterp spec fn uppercase(s: Seq<char>) -> Seq<char>;

/// The text with its ASCII letters in upper case.
pub open spec fn ascii_uppercase(s: Seq<char>) -> Seq<char> {
    s.map_values(
        |c: char|
            if 'a' <= c && c <= 'z' {
                ((c as u32) - 32) as char
            } else {
                c
            },
    )
}

/// `str::to_uppercase`: the text in upper case, a function of the text alone. On
/// ASCII text it maps each small letter to its capital and leaves everything
/// else.
#[verifier::external_body]
pub(crate) fn to_uppercase(s: &str) -> (r: String)
    ensures
        r@ == uppercase(s@),
        is_ascii_chars(s@) ==> r@ == ascii_uppercase(s@),
{
    s.to_uppercase()
}

/// Whether two texts differ at most in the case of ASCII letters.
pub fn same_ignoring_ascii_case(a: &str, b: &str) -> (r: bool)
    ensures
        r == (ascii_lowercase(a@) == ascii_lowercase(b@)),
{
    let x = chars_of(a);
    let y = chars_of(b);
    if x.len() != y.len() {
        assert(ascii_lowercase(a@).len() != ascii_lowercase(b@).len());
        return false;
    }
    for i in 0..x.len()
        invariant
            x@ == a@,
            y@ == b@,
            x@.len() == y@.len(),
            forall|j: int| 0 <= j < i ==> ascii_lower(x@[j]) == ascii_lower(y@[j]),
    {
        if char_ascii_lower(x[i]) != char_ascii_lower(y[i]) {
            assert(ascii_lowercase(a@)[i as int] != ascii_lowercase(b@)[i as int]);
            return false;
        }
    }
    assert(ascii_lowercase(a@) =~= ascii_lowercase(b@));
    true
}

/// The lower-case form of an ASCII letter; any other character as it is.
pub fn char_ascii_lower(c: char) -> (r: char)
    ensures
        r == ascii_lower(c),
{
    if 'A' <= c && c <= 'Z' {
        ((c as u8) + 32u8) as char
    } else {
        c
    }
}

} // verus!
