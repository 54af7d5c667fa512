//! The dots that the decoder brackets uncertain segments with.
use vstd::prelude::*;
use crate::text::{chars_of, is_space};
use crate::words::{joined, one_space, squeeze, squeezed, words_of};

verus! {

/// The number of dots that `s` starts with.
pub open spec fn dot_run(s: Seq<char>) -> nat
    decreases s.len(),
{
    if s.len() > 0 && s[0] == '.' {
        1 + dot_run(s.subrange(1, s.len() as int))
    } else {
        0
    }
}

/// What a run of dots becomes: a space from three on, else the dots.
pub open spec fn dots_kept(n: nat) -> Seq<char> {
    if n >= 3 {
        seq![' ']
    } else {
        Seq::new(n, |i: int| '.')
    }
}

/// `s` with every run of three or more dots made a space.
pub open spec fn without_ellipses(s: Seq<char>) -> Seq<char>
    decreases s.len(),
{
    if s.len() == 0 {
        Seq::empty()
    } else if s[0] == '.' {
        let n = dot_run(s);
        if 0 < n <= s.len() {
            dots_kept(n) + without_ellipses(s.subrange(n as int, s.len() as int))
        } else {
            Seq::empty()
        }
    } else {
        seq![s[0]] + without_ellipses(s.subrange(1, s.len() as int))
    }
}

pub(crate) proof fn lemma_dot_run(s: Seq<char>)
    ensures
        dot_run(s) <= s.len(),
        s.len() > 0 && s[0] == '.' ==> dot_run(s) > 0,
        forall|i: int| 0 <= i < dot_run(s) ==> #[trigger] s[i] == '.',
        dot_run(s) < s.len() ==> s[dot_run(s) as int] != '.',
    decreases s.len(),
{
    if s.len() > 0 && s[0] == '.' {
        let rest = s.subrange(1, s.len() as int);
        lemma_dot_run(rest);
        assert forall|i: int| 0 <= i < dot_run(s) implies #[trigger] s[i] == '.' by {
            if i > 0 {
                assert(s[i] == rest[i - 1]);
            }
        }
    }
}

fn push_dots(out: &mut Vec<char>, n: usize)
    ensures
        final(out)@ == old(out)@ + dots_kept(n as nat),
{
    if n >= 3 {
        out.push(' ');
    } else {
        for i in 0..n
            invariant
                n < 3,
                out@ == old(out)@ + Seq::new(i as nat, |k: int| '.'),
        {
            out.push('.');
            assert(out@ =~= old(out)@ + Seq::new((i + 1) as nat, |k: int| '.'));
        }
    }
    assert(out@ =~= old(out)@ + dots_kept(n as nat));
}

/// `text` with every run of three or more dots made a space, and with single
/// spaces between its words. Shorter runs of dots, as in abbreviations and
/// decimals, are left alone.
pub open spec fn unellipsed(text: Seq<char>) -> Seq<char> {
    squeezed(without_ellipses(text))
}

/// Takes the decoder's continuation dots out of `text`.
pub fn strip_continuation_ellipses(text: &str) -> (r: String)
    ensures
        r@ == unellipsed(text@),
{
    let cs = chars_of(text);
    let n = cs.len();
    let mut out: Vec<char> = Vec::new();
    let mut i: usize = 0;
    assert(cs@.subrange(0, n as int) =~= cs@);
    assert(out@ + without_ellipses(cs@) =~= without_ellipses(cs@));
    while i < n
        invariant
            n == cs@.len(),
            cs@ == text@,
            i <= n,
            out@ + without_ellipses(cs@.subrange(i as int, n as int)) == without_ellipses(text@),
        decreases n - i,
    {
        let ghost here = cs@.subrange(i as int, n as int);
        let ghost before = out@;
        if cs[i] == '.' {
            let from = i;
            while i < n && cs[i] == '.'
                invariant
                    n == cs@.len(),
                    from <= i <= n,
                    here == cs@.subrange(from as int, n as int),
                    dot_run(here) == (i - from) + dot_run(cs@.subrange(i as int, n as int)),
                decreases n - i,
            {
                let ghost at = cs@.subrange(i as int, n as int);
                assert(at.subrange(1, at.len() as int) =~= cs@.subrange(i + 1, n as int));
                i += 1;
            }
            push_dots(&mut out, i - from);
            proof {
                lemma_dot_run(here);
                assert(here.subrange(i - from, here.len() as int) =~= cs@.subrange(
                    i as int,
                    n as int,
                ));
                let tail = without_ellipses(cs@.subrange(i as int, n as int));
                assert(before + (dots_kept((i - from) as nat) + tail) =~= out@ + tail);
            }
        } else {
            out.push(cs[i]);
            proof {
                assert(here.subrange(1, here.len() as int) =~= cs@.subrange(i + 1, n as int));
                let tail = without_ellipses(cs@.subrange(i + 1, n as int));
                assert(before + (seq![here[0]] + tail) =~= out@ + tail);
            }
            i += 1;
        }
    }
    assert(out@ + Seq::<char>::empty() =~= out@);
    let n2 = out.len();
    let flat = crate::text::string_from(&out, 0, n2);
    assert(out@.subrange(0, n2 as int) =~= out@);
    squeeze(&flat)
}

/// Whether three dots stand in a row at `i`.
pub open spec fn three_dots(s: Seq<char>, i: int) -> bool {
    0 <= i && i + 3 <= s.len() && s[i] == '.' && s[i + 1] == '.' && s[i + 2] == '.'
}

/// Whether three dots in a row stand anywhere in `s`.
pub open spec fn has_ellipsis(s: Seq<char>) -> bool {
    exists|i: int| three_dots(s, i)
}

pub(crate) proof fn lemma_without_ellipses(s: Seq<char>)
    ensures
        !has_ellipsis(without_ellipses(s)),
    decreases s.len(),
{
    let r = without_ellipses(s);
    if s.len() == 0 {
    } else if s[0] == '.' {
        lemma_dot_run(s);
        let n = dot_run(s);
        let rest = s.subrange(n as int, s.len() as int);
        let tail = without_ellipses(rest);
        lemma_without_ellipses(rest);
        assert(rest.len() > 0 ==> rest[0] == s[n as int]);
        assert(tail.len() > 0 ==> tail[0] == rest[0] && tail[0] != '.');
        assert forall|i: int| !three_dots(r, i) by {
            if three_dots(r, i) {
                let k = dots_kept(n).len();
                assert(r == dots_kept(n) + tail);
                if i >= k {
                    assert(tail[i - k] == r[i]);
                    assert(tail[i - k + 1] == r[i + 1]);
                    assert(tail[i - k + 2] == r[i + 2]);
                    assert(three_dots(tail, i - k));
                } else if i + 2 < k {
                    assert(r[i] == dots_kept(n)[i]);
                } else {
                    assert(r[k as int] == tail[0]);
                    assert(i <= k <= i + 2);
                    assert(r[k as int] == '.');
                }
            }
        }
    } else {
        let rest = s.subrange(1, s.len() as int);
        let tail = without_ellipses(rest);
        lemma_without_ellipses(rest);
        assert forall|i: int| !three_dots(r, i) by {
            if three_dots(r, i) {
                assert(r == seq![s[0]] + tail);
                if i > 0 {
                    assert(tail[i - 1] == r[i]);
                    assert(tail[i] == r[i + 1]);
                    assert(tail[i + 1] == r[i + 2]);
                    assert(three_dots(tail, i - 1));
                }
            }
        }
    }
}

proof fn lemma_words_keep_out_ellipses(s: Seq<char>)
    requires
        !has_ellipsis(s),
    ensures
        forall|k: int| 0 <= k < words_of(s).len() ==> !has_ellipsis(#[trigger] words_of(s)[k]),
    decreases s.len(),
{
    if s.len() == 0 {
    } else if is_space(s[0]) {
        let rest = s.subrange(1, s.len() as int);
        assert forall|i: int| !three_dots(rest, i) by {
            if three_dots(rest, i) {
                assert(three_dots(s, i + 1));
            }
        }
        lemma_words_keep_out_ellipses(rest);
        assert(words_of(s) == words_of(rest));
    } else {
        let n = crate::words::word_len(s);
        if 0 < n <= s.len() {
            let w = s.subrange(0, n as int);
            let rest = s.subrange(n as int, s.len() as int);
            assert forall|i: int| !three_dots(w, i) by {
                if three_dots(w, i) {
                    assert(three_dots(s, i));
                }
            }
            assert forall|i: int| !three_dots(rest, i) by {
                if three_dots(rest, i) {
                    assert(three_dots(s, i + n));
                }
            }
            lemma_words_keep_out_ellipses(rest);
            assert(words_of(s) == seq![w] + words_of(rest));
            assert forall|k: int| 0 <= k < words_of(s).len() implies !has_ellipsis(
                #[trigger] words_of(s)[k],
            ) by {
                if k > 0 {
                    assert(words_of(s)[k] == words_of(rest)[k - 1]);
                }
            }
        }
    }
}

proof fn lemma_joining_keeps_out_ellipses(ws: Seq<Seq<char>>)
    requires
        forall|k: int| 0 <= k < ws.len() ==> !has_ellipsis(#[trigger] ws[k]),
    ensures
        !has_ellipsis(joined(ws, one_space())),
    decreases ws.len(),
{
    let all = joined(ws, one_space());
    if ws.len() == 1 {
        assert(all == ws[0]);
    } else if ws.len() > 1 {
        let front = ws.drop_last();
        assert forall|k: int| 0 <= k < front.len() implies !has_ellipsis(#[trigger] front[k]) by {
            assert(front[k] == ws[k]);
        }
        lemma_joining_keeps_out_ellipses(front);
        let a = joined(front, one_space());
        let w = ws.last();
        assert(!has_ellipsis(w));
        assert(all == a + one_space() + w);
        let k = a.len() as int;
        assert(all[k] == ' ');
        assert forall|i: int| !three_dots(all, i) by {
            if three_dots(all, i) {
                if i + 2 < k {
                    assert(a[i] == all[i] && a[i + 1] == all[i + 1] && a[i + 2] == all[i + 2]);
                    assert(three_dots(a, i));
                } else if i > k {
                    assert(w[i - k - 1] == all[i] && w[i - k] == all[i + 1] && w[i - k + 1]
                        == all[i + 2]);
                    assert(three_dots(w, i - k - 1));
                } else {
                    assert(all[k] == '.');
                }
            }
        }
    }
}

/// No run of three dots is left in stripped text.
pub proof fn no_ellipsis_remains(text: Seq<char>)
    ensures
        !has_ellipsis(unellipsed(text)),
{
    let flat = without_ellipses(text);
    lemma_without_ellipses(text);
    lemma_words_keep_out_ellipses(flat);
    lemma_joining_keeps_out_ellipses(words_of(flat));
}

pub(crate) proof fn lemma_nothing_to_strip(s: Seq<char>)
    requires
        !has_ellipsis(s),
    ensures
        without_ellipses(s) == s,
    decreases s.len(),
{
    if s.len() == 0 {
        assert(without_ellipses(s) =~= s);
    } else if s[0] == '.' {
        lemma_dot_run(s);
        let n = dot_run(s);
        if n >= 3 {
            assert(s[0] == '.' && s[1] == '.' && s[2] == '.');
            assert(three_dots(s, 0));
        }
        let rest = s.subrange(n as int, s.len() as int);
        assert forall|i: int| !three_dots(rest, i) by {
            if three_dots(rest, i) {
                assert(three_dots(s, i + n));
            }
        }
        lemma_nothing_to_strip(rest);
        assert(dots_kept(n) + rest =~= s);
    } else {
        let rest = s.subrange(1, s.len() as int);
        assert forall|i: int| !three_dots(rest, i) by {
            if three_dots(rest, i) {
                assert(three_dots(s, i + 1));
            }
        }
        lemma_nothing_to_strip(rest);
        assert(seq![s[0]] + rest =~= s);
    }
}

/// Stripping twice is stripping once.
pub proof fn stripping_is_idempotent(text: Seq<char>)
    ensures
        unellipsed(unellipsed(text)) == unellipsed(text),
{
    no_ellipsis_remains(text);
    lemma_nothing_to_strip(unellipsed(text));
    crate::words::squeezing_is_idempotent(without_ellipses(text));
}

} // verus!
